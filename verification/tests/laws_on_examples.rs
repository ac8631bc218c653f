use codex_cua_resume_assist::args::{config_from_env, parse_args, EnvSettings, Invocation};
use codex_cua_resume_assist::decision::{Confidence, Decision};
use codex_cua_resume_assist::json::Json;
use codex_cua_resume_assist::paths::{path_to_windows, WindowsPath};
use codex_cua_resume_assist::reply::short_json_string;
use codex_cua_resume_assist::run::run_event;
use codex_cua_resume_assist::text::trim;

fn no_env() -> EnvSettings {
    EnvSettings {
        model: None,
        exec_fallback: Some("codex resume".to_string()),
        preflight_command: None,
        fallback_prompt_file: None,
        lock_file: None,
        lock_ttl_sec: None,
    }
}

fn settings(a: &[&str]) -> codex_cua_resume_assist::args::Config {
    let argv: Vec<String> = std::iter::once("prog").chain(a.iter().copied()).map(String::from).collect();
    match parse_args(&argv, &no_env()) {
        Ok(Invocation::Run(c)) => c,
        _ => panic!("expected settings"),
    }
}

#[test]
fn api_and_execution_need_their_flags() {
    for a in [&[][..], &["--dry-run"][..], &["--model", "m", "--no-api"][..], &["--execute"][..]] {
        assert!(settings(a).no_api, "{a:?}");
    }
    for a in [&[][..], &["--api"][..], &["--exec-fallback", "--execute"][..]] {
        assert!(!settings(a).execute, "{a:?}");
    }
    assert!(settings(&["--execute"]).execute);
}

#[test]
fn trimming_twice_changes_nothing() {
    for s in ["  a b  ", "\u{2003}x\u{2003}", "", "   ", "z"] {
        assert_eq!(trim(&trim(s)), trim(s));
    }
}

#[test]
fn converted_paths_use_backslashes() {
    for p in ["/mnt/c/a/b/c.png", "/mnt/e", "/mnt/z/x//y/"] {
        match path_to_windows(p) {
            WindowsPath::Converted(w) => assert!(!w.contains('/'), "{w}"),
            WindowsPath::ViaWslpath => panic!("expected a conversion of {p}"),
        }
    }
}

#[test]
fn telemetry_stays_on_one_line() {
    let v = Json::Object(vec![("t".to_string(), Json::Str(format!("a\nb\n{}", "c\n".repeat(150))))]);
    let out = short_json_string(&v, &["t"]);
    assert!(!out.contains('\n'));
    assert!(out.ends_with("..."));
}

#[test]
fn run_event_records_the_run() {
    let cfg = config_from_env(&no_env());
    let decision = Decision {
        decision: "wait".to_string(),
        confidence: Confidence::Hundredths(35),
        reason: "r".to_string(),
        source: "local_safe_fallback".to_string(),
    };
    let meta = Json::Object(vec![
        ("source".to_string(), Json::Str("fallback".to_string())),
        ("active_window".to_string(), Json::Object(vec![("kind".to_string(), Json::Str("unknown".to_string()))])),
    ]);
    let ran = vec!["note".to_string()];
    let e = run_event(1700000000000, &cfg, &decision, Json::Number("0.35".to_string()), Some(&meta), &ran);
    assert!(matches!(e.get("ts_ms"), Some(Json::Number(ref n)) if n == "1700000000000"));
    assert!(matches!(e.get("tool"), Some(Json::Str(ref t)) if t == "codex-cua-resume-assist"));
    assert!(matches!(e.get("exec_fallback_configured"), Some(Json::Bool(true))));
    assert!(matches!(e.get("lock_file_configured"), Some(Json::Bool(false))));
    assert!(matches!(e.get("capture_source"), Some(Json::Str(ref t)) if t == "fallback"));
    assert!(matches!(e.get("active_window_kind"), Some(Json::Str(ref t)) if t == "unknown"));
    assert!(matches!(e.get("ran"), Some(Json::Array(ref a)) if a.len() == 1));
    let e = run_event(5, &cfg, &decision, Json::Number("0.35".to_string()), None, &vec![]);
    assert!(matches!(e.get("capture_source"), Some(Json::Null)));
    assert!(matches!(e.get("active_window_kind"), Some(Json::Null)));
}
