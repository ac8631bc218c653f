use codex_cua_resume_assist::args::{
    capture_timeout_sec, config_from_env, parse_args, ArgError, EnvSettings, Invocation,
};
use codex_cua_resume_assist::command::{
    capture_result, command_lookup, exit_outcome, has_extension, pathext_list, run_capture_timeout,
    run_status_timeout, shell_command, CommandLookup,
};

fn no_env() -> EnvSettings {
    EnvSettings {
        model: None,
        exec_fallback: None,
        preflight_command: None,
        fallback_prompt_file: None,
        lock_file: None,
        lock_ttl_sec: None,
    }
}

fn argv(a: &[&str]) -> Vec<String> {
    std::iter::once("codex-cua-resume-assist").chain(a.iter().copied()).map(String::from).collect()
}

fn run(a: &[&str], env: &EnvSettings) -> codex_cua_resume_assist::args::Config {
    match parse_args(&argv(a), env) {
        Ok(Invocation::Run(c)) => c,
        _ => panic!("expected settings for {a:?}"),
    }
}

fn error(a: &[&str]) -> String {
    match parse_args(&argv(a), &no_env()) {
        Err(e) => e.message(),
        _ => panic!("expected an error for {a:?}"),
    }
}

#[test]
fn defaults_are_local_only() {
    let c = run(&[], &no_env());
    assert!(c.no_api);
    assert!(!c.execute);
    assert!(!c.dry_run);
    assert_eq!(c.model, "gpt-5.5");
    assert_eq!(c.max_rounds, 3);
    assert_eq!(c.lock_ttl_sec, 900);
    assert!(c.screenshot.is_none() && c.exec_fallback.is_none() && c.lock_file.is_none());
    assert!(!c.fallback_prompt_stdin);
}

#[test]
fn environment_defaults() {
    let env = EnvSettings {
        model: Some("gpt-x".to_string()),
        exec_fallback: Some("   ".to_string()),
        preflight_command: Some("check".to_string()),
        fallback_prompt_file: Some("".to_string()),
        lock_file: Some("/tmp/l".to_string()),
        lock_ttl_sec: Some("soon".to_string()),
    };
    let c = config_from_env(&env);
    assert_eq!(c.model, "gpt-x");
    assert!(c.exec_fallback.is_none());
    assert_eq!(c.preflight_command.as_deref(), Some("check"));
    assert!(c.fallback_prompt_file.is_none());
    assert_eq!(c.lock_file.as_deref(), Some("/tmp/l"));
    assert_eq!(c.lock_ttl_sec, 900);
    let env = EnvSettings { lock_ttl_sec: Some("60".to_string()), ..no_env() };
    assert_eq!(config_from_env(&env).lock_ttl_sec, 60);
}

#[test]
fn options_are_read_in_order() {
    let c = run(&["--api", "--dry-run", "--execute", "--model", "m1", "--screenshot", "/tmp/s.png",
        "--max-rounds", "5", "--exec-fallback", "codex resume", "--preflight-command", "true",
        "--fallback-prompt", "p.txt", "--fallback-prompt-stdin", "--lock-file", "l", "--lock-ttl-sec", "30"], &no_env());
    assert!(!c.no_api && c.dry_run && c.execute);
    assert_eq!(c.model, "m1");
    assert_eq!(c.screenshot.as_deref(), Some("/tmp/s.png"));
    assert_eq!(c.max_rounds, 5);
    assert_eq!(c.exec_fallback.as_deref(), Some("codex resume"));
    assert_eq!(c.preflight_command.as_deref(), Some("true"));
    assert_eq!(c.fallback_prompt_file.as_deref(), Some("p.txt"));
    assert!(c.fallback_prompt_stdin);
    assert_eq!(c.lock_file.as_deref(), Some("l"));
    assert_eq!(c.lock_ttl_sec, 30);
    // The last of --api / --no-api wins.
    assert!(run(&["--api", "--no-api"], &no_env()).no_api);
    assert!(!run(&["--no-api", "--api"], &no_env()).no_api);
    // A value that looks like a flag is still a value.
    let c = run(&["--model", "--api"], &no_env());
    assert!(c.no_api);
    assert_eq!(c.model, "--api");
}

#[test]
fn argument_errors() {
    assert_eq!(error(&["--model"]), "--model requires value");
    assert_eq!(error(&["--lock-ttl-sec"]), "--lock-ttl-sec requires value");
    assert_eq!(error(&["--max-rounds", "many"]), "--max-rounds must be a number");
    assert_eq!(error(&["--max-rounds", "4294967296"]), "--max-rounds must be a number");
    assert_eq!(error(&["--lock-ttl-sec", "-1"]), "--lock-ttl-sec must be a number");
    assert_eq!(error(&["--bogus"]), "unknown option: --bogus");
    assert!(matches!(parse_args(&argv(&["--bogus"]), &no_env()), Err(ArgError::Unknown(ref a)) if a == "--bogus"));
}

#[test]
fn help_stops_reading() {
    assert!(matches!(parse_args(&argv(&["-h", "--bogus"]), &no_env()), Ok(Invocation::Help)));
    assert!(matches!(parse_args(&argv(&["--api", "--help"]), &no_env()), Ok(Invocation::Help)));
    assert!(matches!(parse_args(&argv(&["--bogus", "--help"]), &no_env()), Err(_)));
}

#[test]
fn capture_timeout_bounds() {
    assert_eq!(capture_timeout_sec(&None), 2);
    assert_eq!(capture_timeout_sec(&Some("10".to_string())), 10);
    assert_eq!(capture_timeout_sec(&Some("30".to_string())), 30);
    assert_eq!(capture_timeout_sec(&Some("31".to_string())), 2);
    assert_eq!(capture_timeout_sec(&Some("0".to_string())), 2);
    assert_eq!(capture_timeout_sec(&Some("x".to_string())), 2);
}

#[test]
fn timeout_plans() {
    let args = vec!["-w".to_string(), "/tmp/x".to_string()];
    let p = run_capture_timeout("wslpath", &args, 2, true);
    assert_eq!(p.program, "timeout");
    assert_eq!(p.args, vec!["2s", "wslpath", "-w", "/tmp/x"]);
    let p = run_capture_timeout("wslpath", &args, 2, false);
    assert_eq!(p.program, "wslpath");
    assert_eq!(p.args, args);
    let p = run_status_timeout("grim", &vec!["/tmp/s.png".to_string()], 15, true);
    assert_eq!(p.args, vec!["15s", "grim", "/tmp/s.png"]);
}

#[test]
fn captured_output() {
    assert_eq!(capture_result("c", b"out", b"  ", true, Some(0)), Ok("out".to_string()));
    assert_eq!(capture_result("c", b"out", b"warn", true, Some(0)), Ok("out\nwarn".to_string()));
    assert_eq!(capture_result("c", b"", b"warn", true, Some(0)), Ok("warn".to_string()));
    assert_eq!(capture_result("c", b"", b"", true, None), Ok(String::new()));
    assert_eq!(capture_result("wslpath", b" bad \n", b"", false, Some(1)), Err("wslpath exit Some(1): bad".to_string()));
    assert_eq!(capture_result("x", b"", b"", false, None), Err("x exit None: ".to_string()));
    assert_eq!(capture_result("x", b"", b"", false, Some(-2)), Err("x exit Some(-2): ".to_string()));
    assert_eq!(capture_result("x", &[0x61, 0xff, 0x62], b"", true, Some(0)), Ok("a\u{fffd}b".to_string()));
}

#[test]
fn exit_outcomes() {
    assert_eq!(exit_outcome("preflight", true, Some(0)), Ok("preflight command completed status=0".to_string()));
    assert_eq!(exit_outcome("fallback", true, None), Ok("fallback command completed status=0".to_string()));
    assert_eq!(exit_outcome("fallback", false, Some(3)), Err("fallback command failed status=3".to_string()));
    assert_eq!(exit_outcome("preflight", false, None), Err("preflight command failed status=unknown".to_string()));
}

#[test]
fn shells() {
    let p = shell_command("echo hi", false, &None, &None);
    assert_eq!(p.program, "sh");
    assert_eq!(p.args, vec!["-lc", "echo hi"]);
    let p = shell_command("echo hi", false, &None, &Some("/bin/zsh".to_string()));
    assert_eq!(p.program, "/bin/zsh");
    let p = shell_command("dir", true, &None, &Some("/bin/zsh".to_string()));
    assert_eq!(p.program, "cmd.exe");
    assert_eq!(p.args, vec!["/D", "/S", "/C", "dir"]);
    let p = shell_command("dir", true, &Some("C:\\cmd.exe".to_string()), &None);
    assert_eq!(p.program, "C:\\cmd.exe");
}

#[test]
fn program_lookup() {
    assert_eq!(pathext_list(&None), vec![".exe", ".cmd", ".bat", ".com"]);
    assert_eq!(pathext_list(&Some(".PS1;;.Exe".to_string())), vec![".ps1", "", ".exe"]);
    assert!(!has_extension("wslpath"));
    assert!(has_extension("cmd.exe"));
    assert!(!has_extension(".bashrc"));
    assert!(has_extension("a."));
    assert!(!has_extension(".."));
    assert!(!has_extension(""));
    assert!(matches!(command_lookup("/usr/bin/grim", &vec![], false, &vec![]), CommandLookup::Path(ref p) if p == "/usr/bin/grim"));
    assert!(matches!(command_lookup("C:\\x.exe", &vec![], true, &vec![]), CommandLookup::Path(_)));
    let dirs = vec!["/usr/bin".to_string(), "/bin".to_string()];
    match command_lookup("grim", &dirs, false, &pathext_list(&None)) {
        CommandLookup::Search(c) => assert_eq!(c, vec![
            ("/usr/bin".to_string(), "grim".to_string()),
            ("/bin".to_string(), "grim".to_string()),
        ]),
        _ => panic!("expected a search"),
    }
    let exts = pathext_list(&Some(".EXE;.CMD".to_string()));
    match command_lookup("powershell", &vec!["C:\\W".to_string()], true, &exts) {
        CommandLookup::Search(c) => assert_eq!(c, vec![
            ("C:\\W".to_string(), "powershell".to_string()),
            ("C:\\W".to_string(), "powershell.exe".to_string()),
            ("C:\\W".to_string(), "powershell.cmd".to_string()),
        ]),
        _ => panic!("expected a search"),
    }
    match command_lookup("cmd.exe", &vec!["C:\\W".to_string()], true, &exts) {
        CommandLookup::Search(c) => assert_eq!(c.len(), 1),
        _ => panic!("expected a search"),
    }
}
