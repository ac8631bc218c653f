use codex_cua_resume_assist::clock::now_ms;
use codex_cua_resume_assist::json::Json;
use codex_cua_resume_assist::paths::{
    capture_dir_candidates, capture_file_name, capture_tool_commands, fallback_capture_meta,
    missing_screenshot_error, path_to_windows, powershell_capture_command, powershell_capture_enabled,
    powershell_capture_script, provided_capture_meta, state_dir, windows_temp_echo_command,
    windows_temp_from_cmd, wslpath_windows, wslpath_windows_command, WindowsPath,
};
use codex_cua_resume_assist::request::{
    base64_data_url, computer_tool, continuation_request, initial_request, prompt_fits,
    response_id, system_prompt, vision_request, vision_text,
};
use codex_cua_resume_assist::run::{fallback_prompt_source, lock_is_stale, lock_line, PromptSource};
use codex_cua_resume_assist::window::{
    bgra_to_rgba, both_captures_failed, check_type_text, classify_window, expected_window_matches,
    process_name_from_path, region_error, screen_fallback_reason, window_changed_error,
};

fn s(t: &str) -> Json {
    Json::Str(t.to_string())
}

fn obj(members: Vec<(&str, Json)>) -> Json {
    Json::Object(members.into_iter().map(|(k, v)| (k.to_string(), v)).collect())
}

fn converted(p: &str) -> Option<String> {
    match path_to_windows(p) {
        WindowsPath::Converted(w) => Some(w),
        WindowsPath::ViaWslpath => None,
    }
}

#[test]
fn wsl_mount_paths_convert() {
    assert_eq!(converted("/mnt/c/Users/me/a.png"), Some("C:\\Users\\me\\a.png".to_string()));
    assert_eq!(converted("/mnt/d"), Some("D:\\".to_string()));
    assert_eq!(converted("/mnt/d/"), Some("D:\\".to_string()));
    assert_eq!(converted("/mnt/wsl/x"), None);
    assert_eq!(converted("/mnt//x"), None);
    assert_eq!(converted("/mnt/é/x"), None);
    assert_eq!(converted("/tmp/x.png"), None);
}

#[test]
fn wslpath_steps() {
    let p = wslpath_windows_command("/tmp/a b.png");
    assert_eq!(p.program, "wslpath");
    assert_eq!(p.args, vec!["-w", "/tmp/a b.png"]);
    assert_eq!(wslpath_windows(&Ok("C:\\tmp\\x\n".to_string())), Some("C:\\tmp\\x".to_string()));
    assert_eq!(wslpath_windows(&Err("fail".to_string())), None);
    let echo = windows_temp_echo_command();
    assert_eq!(echo.program, "cmd.exe");
    assert_eq!(echo.args, vec!["/C", "echo", "%TEMP%"]);
    let next = windows_temp_from_cmd(&Ok("C:\\Users\\me\\AppData\\Local\\Temp\r\n".to_string())).unwrap();
    assert_eq!(next.program, "wslpath");
    assert_eq!(next.args, vec!["-u", "C:\\Users\\me\\AppData\\Local\\Temp"]);
    assert!(windows_temp_from_cmd(&Ok("%TEMP%\r\n".to_string())).is_none());
    assert!(windows_temp_from_cmd(&Ok("  \n".to_string())).is_none());
    assert!(windows_temp_from_cmd(&Err("no cmd".to_string())).is_none());
}

#[test]
fn capture_locations() {
    assert_eq!(capture_file_name(42, 1700000000123), "codex-cua-screen-42-1700000000123.png");
    assert_eq!(
        capture_dir_candidates(&None, &Some("/mnt/c/T".to_string()), "/tmp"),
        vec!["/mnt/c/T", "/tmp", "/mnt/c/Windows/Temp"]
    );
    assert_eq!(
        capture_dir_candidates(&Some("/w".to_string()), &None, "/tmp"),
        vec!["/w", "/tmp", "/mnt/c/Windows/Temp"]
    );
    assert_eq!(state_dir(&Some("/s".to_string()), &Some("/home/me".to_string()), &None), vec!["/s"]);
    assert_eq!(state_dir(&None, &Some("/home/me".to_string()), &Some("C:\\U".to_string())),
        vec!["/home/me", ".codex-cua-resume-assist"]);
    assert_eq!(state_dir(&None, &None, &Some("C:\\U".to_string())), vec!["C:\\U", ".codex-cua-resume-assist"]);
    assert_eq!(state_dir(&None, &None, &None), vec![".", ".codex-cua-resume-assist"]);
    assert_eq!(missing_screenshot_error("/x.png"), "screenshot does not exist: /x.png");
}

#[test]
fn powershell_capture() {
    assert!(powershell_capture_enabled(&Some("1".to_string())));
    assert!(!powershell_capture_enabled(&Some("true".to_string())));
    assert!(!powershell_capture_enabled(&None));
    let script = powershell_capture_script("C:\\it's\\a.png");
    assert!(script.starts_with("\nAdd-Type -AssemblyName System.Windows.Forms,System.Drawing\n"));
    assert!(script.contains("$bmp.Save('C:\\it''s\\a.png', [System.Drawing.Imaging.ImageFormat]::Png)\n"));
    assert!(script.ends_with("$g.Dispose()\n$bmp.Dispose()\n"));
    let p = powershell_capture_command("S", 2, true);
    assert_eq!(p.program, "timeout");
    assert_eq!(p.args, vec!["2s", "powershell.exe", "-NoProfile", "-NonInteractive", "-ExecutionPolicy", "Bypass", "-Command", "S"]);
}

#[test]
fn screenshot_tools() {
    let l = capture_tool_commands("/tmp/s.png", false);
    let names: Vec<&str> = l.iter().map(|p| p.program.as_str()).collect();
    assert_eq!(names, vec!["gnome-screenshot", "grim", "scrot", "import"]);
    assert_eq!(l[3].args, vec!["-window", "root", "/tmp/s.png"]);
    let m = capture_tool_commands("/tmp/s.png", true);
    assert_eq!(m[0].program, "screencapture");
    assert_eq!(m[0].args, vec!["-x", "/tmp/s.png"]);
    assert_eq!(m.len(), 5);
}

#[test]
fn capture_metadata() {
    let m = provided_capture_meta("/x.png");
    assert!(matches!(m.get("source"), Some(Json::Str(ref v)) if v == "provided"));
    assert!(matches!(m.get("ok"), Some(Json::Bool(true))));
    let w = m.get("active_window").unwrap();
    assert!(matches!(w.get("kind"), Some(Json::Str(ref v)) if v == "provided"));
    let f = fallback_capture_meta("/y.png");
    assert!(matches!(f.get("source"), Some(Json::Str(ref v)) if v == "fallback"));
    assert!(matches!(f.get("active_window").unwrap().get("kind"), Some(Json::Str(ref v)) if v == "unknown"));
}

#[test]
fn prompt_shows_telemetry_and_rules() {
    let meta = obj(vec![("active_window", obj(vec![
        ("kind", s("wezterm")), ("process_name", s("wezterm-gui.exe")),
        ("title", s("pwsh")), ("class_name", s("org.wezfurlong.wezterm")),
    ]))]);
    assert!(prompt_fits(&meta));
    let p = system_prompt(&meta);
    let lines: Vec<&str> = p.split('\n').collect();
    assert_eq!(lines.len(), 12);
    assert_eq!(lines[2], "Active window telemetry: kind=wezterm, process=wezterm-gui.exe, class=org.wezfurlong.wezterm, title=pwsh.");
    assert!(lines[3].starts_with("Terminal distinction rule:"));
    assert_eq!(lines[8], "Allowed decisions: resume, wait, noop.");
    let empty = provided_capture_meta("/x.png");
    let p = system_prompt(&empty);
    assert!(p.contains("Active window telemetry: kind=provided, process=, class=, title=."));
    let v = vision_text("P", "gone");
    assert_eq!(v, "P\n\nComputer Use continuation fallback cause: gone\nInspect the attached screenshot and return the same JSON decision only.");
}

#[test]
fn request_bodies() {
    let t = computer_tool();
    assert!(matches!(t.get("type"), Some(Json::Str(ref v)) if v == "computer"));
    let r = initial_request("gpt-5.5", "PROMPT");
    assert!(matches!(r.get("model"), Some(Json::Str(ref v)) if v == "gpt-5.5"));
    assert!(matches!(r.get("input"), Some(Json::Str(ref v)) if v == "PROMPT"));
    assert!(matches!(r.get("max_output_tokens"), Some(Json::Number(ref v)) if v == "300"));
    let c = continuation_request("m", "resp_1", "call_1", "data:x");
    assert!(matches!(c.get("previous_response_id"), Some(Json::Str(ref v)) if v == "resp_1"));
    match c.get("input") {
        Some(Json::Array(a)) => {
            assert!(matches!(a[0].get("call_id"), Some(Json::Str(ref v)) if v == "call_1"));
            let out = a[0].get("output").unwrap();
            assert!(matches!(out.get("image_url"), Some(Json::Str(ref v)) if v == "data:x"));
            assert!(matches!(out.get("detail"), Some(Json::Str(ref v)) if v == "original"));
        }
        _ => panic!("input must be an array"),
    }
    let v = vision_request("m", "T", "data:y");
    assert!(v.get("tools").is_none());
    match v.get("input") {
        Some(Json::Array(a)) => match a[0].get("content") {
            Some(Json::Array(parts)) => {
                assert!(matches!(parts[0].get("text"), Some(Json::Str(ref t)) if t == "T"));
                assert!(matches!(parts[1].get("detail"), Some(Json::Str(ref t)) if t == "high"));
            }
            _ => panic!("content must be an array"),
        },
        _ => panic!("input must be an array"),
    }
    assert_eq!(response_id(&obj(vec![("id", s("resp_9"))])), Some("resp_9".to_string()));
    assert_eq!(response_id(&obj(vec![("id", Json::Null)])), None);
}

#[test]
fn data_url_encodes_base64() {
    assert_eq!(base64_data_url(b"abc"), "data:image/png;base64,YWJj");
    assert_eq!(base64_data_url(b"ab"), "data:image/png;base64,YWI=");
    assert_eq!(base64_data_url(b""), "data:image/png;base64,");
}

#[test]
fn window_kinds_separate_emulators_from_shells() {
    assert_eq!(classify_window("WezTerm-gui.exe", "PowerShell", ""), "wezterm");
    assert_eq!(classify_window("WindowsTerminal.exe", "Windows PowerShell", ""), "windows-terminal");
    assert_eq!(classify_window("x.exe", "t", "CASCADIA_HOSTING_WINDOW_CLASS"), "windows-terminal");
    assert_eq!(classify_window("pwsh.exe", "", ""), "powershell");
    assert_eq!(classify_window("conhost.exe", "Administrator: Windows PowerShell", ""), "powershell");
    assert_eq!(classify_window("CMD.EXE", "", ""), "cmd");
    assert_eq!(classify_window("conhost.exe", "Command Prompt", ""), "cmd");
    assert_eq!(classify_window("notepad.exe", "notes", "Notepad"), "other");
}

#[test]
fn process_names() {
    assert_eq!(process_name_from_path("C:\\Program Files\\WezTerm\\wezterm-gui.exe"), "wezterm-gui.exe");
    assert_eq!(process_name_from_path("/usr/bin/zsh"), "zsh");
    assert_eq!(process_name_from_path("plain"), "plain");
    assert_eq!(process_name_from_path(""), "");
    assert_eq!(process_name_from_path("dir\\"), "");
}

#[test]
fn typing_is_restricted() {
    assert_eq!(check_type_text("  codex resume  "), Ok("codex resume".to_string()));
    assert_eq!(check_type_text("   "), Err("refusing unsafe --type text".to_string()));
    assert_eq!(check_type_text("a\nb"), Err("refusing unsafe --type text".to_string()));
    assert_eq!(check_type_text("a\rb"), Err("refusing unsafe --type text".to_string()));
    assert!(check_type_text(&"x".repeat(80)).is_ok());
    assert!(check_type_text(&"x".repeat(81)).is_err());
    assert!(check_type_text(&"é".repeat(41)).is_err());
    assert!(check_type_text(&"é".repeat(40)).is_ok());
    assert!(expected_window_matches(" 1234 ", 1234));
    assert!(!expected_window_matches("123", 1234));
    assert_eq!(window_changed_error(" 5 ", 7), "foreground window changed before typing: expected_hwnd=5 actual_hwnd=7");
}

#[test]
fn pixels_become_opaque_rgba() {
    let mut px = vec![1, 2, 3, 4, 10, 20, 30, 40, 7, 8];
    bgra_to_rgba(&mut px);
    assert_eq!(px, vec![3, 2, 1, 255, 30, 20, 10, 255, 7, 8]);
    assert_eq!(region_error("virtual screen", 0, 10), Some("invalid virtual screen size 0x10".to_string()));
    assert_eq!(region_error("foreground window", 5, -3), Some("invalid foreground window size 5x-3".to_string()));
    assert_eq!(region_error("virtual screen", 1, 1), None);
    assert_eq!(both_captures_failed("GetDC failed", "BitBlt failed"), "GetDC failed; foreground window capture failed: BitBlt failed");
    assert_eq!(screen_fallback_reason("GetDC failed"), "virtual screen capture failed: GetDC failed");
}

#[test]
fn locks_and_prompts() {
    assert!(lock_is_stale(Some(901), 900));
    assert!(!lock_is_stale(Some(900), 900));
    assert!(!lock_is_stale(None, 0));
    assert_eq!(lock_line(4321), "pid=4321");
    let env = codex_cua_resume_assist::args::EnvSettings {
        model: None, exec_fallback: None, preflight_command: None,
        fallback_prompt_file: None, lock_file: None, lock_ttl_sec: None,
    };
    let mut c = codex_cua_resume_assist::args::config_from_env(&env);
    assert!(matches!(fallback_prompt_source(&c), PromptSource::Empty));
    c.fallback_prompt_stdin = true;
    assert!(matches!(fallback_prompt_source(&c), PromptSource::Stdin));
    c.fallback_prompt_file = Some("p.txt".to_string());
    assert!(matches!(fallback_prompt_source(&c), PromptSource::File(ref f) if f == "p.txt"));
}

#[test]
fn clock_reads_after_2020() {
    assert!(now_ms() > 1_577_836_800_000);
}
