use codex_cua_resume_assist::args::{Config, EnvSettings};
use codex_cua_resume_assist::decision::{
    capture_failed_decision, execution_record, model_outcome, start_run, Start,
    blocked_action_decision, computer_use_round, decision_from_json, decision_span,
    decision_span_ok, fallback_decision, has_blocked_action, is_previous_response_not_found,
    plan_execution, with_decision_source, Confidence, Decision, ExecutionPlan, RoundStep,
};
use codex_cua_resume_assist::json::Json;
use codex_cua_resume_assist::reply::{
    collect_text, extract_decision_text, find_computer_call, short_json_string, telemetry_cut_ok,
};

fn s(t: &str) -> Json {
    Json::Str(t.to_string())
}

fn obj(members: Vec<(&str, Json)>) -> Json {
    Json::Object(members.into_iter().map(|(k, v)| (k.to_string(), v)).collect())
}

fn config(execute: bool, dry_run: bool, fallback: Option<&str>) -> Config {
    let env = EnvSettings {
        model: None,
        exec_fallback: fallback.map(|f| f.to_string()),
        preflight_command: None,
        fallback_prompt_file: None,
        lock_file: None,
        lock_ttl_sec: None,
    };
    let mut c = codex_cua_resume_assist::args::config_from_env(&env);
    c.execute = execute;
    c.dry_run = dry_run;
    c
}

fn decision(d: &str) -> Decision {
    Decision {
        decision: d.to_string(),
        confidence: Confidence::Hundredths(90),
        reason: String::new(),
        source: "openai".to_string(),
    }
}

#[test]
fn short_json_string_follows_the_path_and_flattens_lines() {
    let meta = obj(vec![("active_window", obj(vec![("title", s("a\nb")), ("kind", Json::Bool(true))]))]);
    assert_eq!(short_json_string(&meta, &["active_window", "title"]), "a b");
    assert_eq!(short_json_string(&meta, &["active_window", "kind"]), "");
    assert_eq!(short_json_string(&meta, &["missing", "title"]), "");
    assert_eq!(short_json_string(&s("x"), &["active_window"]), "");
}

#[test]
fn short_json_string_cuts_at_180_bytes() {
    let long = "x".repeat(200);
    let meta = obj(vec![("t", s(&long))]);
    let out = short_json_string(&meta, &["t"]);
    assert_eq!(out, format!("{}...", "x".repeat(180)));
    let exact = "y".repeat(180);
    let meta = obj(vec![("t", s(&exact))]);
    assert_eq!(short_json_string(&meta, &["t"]), exact);
}

#[test]
fn telemetry_cut_inside_a_character_is_detected() {
    // 179 ASCII bytes then a two-byte character: byte 180 falls inside it.
    let text = format!("{}é{}", "a".repeat(179), "b".repeat(10));
    let meta = obj(vec![("t", s(&text))]);
    assert!(!telemetry_cut_ok(&meta, &["t"]));
    let fine = format!("{}é{}", "a".repeat(178), "b".repeat(10));
    let meta = obj(vec![("t", s(&fine))]);
    assert!(telemetry_cut_ok(&meta, &["t"]));
    assert_eq!(short_json_string(&meta, &["t"]), format!("{}é...", "a".repeat(178)));
}

#[test]
fn collect_text_walks_depth_first() {
    let reply = obj(vec![
        ("output", Json::Array(vec![
            obj(vec![("type", s("message")), ("content", Json::Array(vec![
                obj(vec![("type", s("output_text")), ("text", s("first"))]),
            ]))]),
            s("{\"decision\":\"wait\"}"),
            s("no quotes decision"),
        ])),
    ]);
    let mut out = Vec::new();
    collect_text(&reply, &mut out);
    assert_eq!(out, vec!["first".to_string(), "{\"decision\":\"wait\"}".to_string()]);
}

#[test]
fn extract_decision_text_takes_first_mention() {
    let reply = obj(vec![("output", Json::Array(vec![
        obj(vec![("type", s("text")), ("text", s("hello"))]),
        obj(vec![("type", s("output_text")), ("text", s("{\"decision\":\"resume\",\"confidence\":0.9}"))]),
    ]))]);
    assert_eq!(
        extract_decision_text(&reply),
        Some("{\"decision\":\"resume\",\"confidence\":0.9}".to_string())
    );
    assert_eq!(extract_decision_text(&obj(vec![])), None);
}

#[test]
fn find_computer_call_reads_id_and_actions() {
    let reply = obj(vec![("output", Json::Array(vec![
        obj(vec![("type", s("reasoning"))]),
        obj(vec![("type", s("computer_call")), ("id", s("item1")), ("action", obj(vec![("type", s("screenshot"))]))]),
    ]))]);
    let (id, actions) = find_computer_call(&reply).unwrap();
    assert_eq!(id, "item1");
    assert_eq!(actions.len(), 1);
    assert!(!has_blocked_action(&actions));

    let reply = obj(vec![("output", Json::Array(vec![
        obj(vec![("type", s("computer_call")), ("call_id", s("c1")), ("id", s("item")),
            ("actions", Json::Array(vec![obj(vec![("type", s("wait"))]), obj(vec![("type", s("click"))])]))]),
    ]))]);
    let (id, actions) = find_computer_call(&reply).unwrap();
    assert_eq!(id, "c1");
    assert_eq!(actions.len(), 2);
    assert!(has_blocked_action(&actions));

    let no_id = obj(vec![("output", Json::Array(vec![
        obj(vec![("type", s("computer_call")), ("call_id", Json::Null), ("id", s("x"))]),
    ]))]);
    assert!(find_computer_call(&no_id).is_none());
}

#[test]
fn decision_span_and_fields() {
    assert_eq!(decision_span("json: {\"decision\":\"wait\"} done"), Some("{\"decision\":\"wait\"}".to_string()));
    assert_eq!(decision_span("no braces"), None);
    assert_eq!(decision_span("}{"), Some(String::new()));
    assert!(!decision_span_ok("} x {"));
    assert!(decision_span_ok("}{"));
    let v = obj(vec![("decision", s("resume")), ("confidence", Json::Number("0.8".to_string())), ("reason", s("ok"))]);
    let d = decision_from_json(&v).unwrap();
    assert_eq!(d.decision, "resume");
    assert_eq!(d.reason, "ok");
    assert_eq!(d.source, "openai");
    assert!(matches!(d.confidence, Confidence::Reported(ref t) if t == "0.8"));
    let v = obj(vec![("decision", s("wait")), ("confidence", s("high"))]);
    let d = decision_from_json(&v).unwrap();
    assert!(matches!(d.confidence, Confidence::Hundredths(0)));
    assert_eq!(d.reason, "");
    assert!(decision_from_json(&obj(vec![("decision", Json::Bool(true))])).is_none());
}

#[test]
fn fallback_and_blocked_decisions_wait() {
    let d = fallback_decision("screen capture failed; manual inspection required");
    assert_eq!(d.decision, "wait");
    assert_eq!(d.source, "local_safe_fallback");
    assert!(matches!(d.confidence, Confidence::Hundredths(35)));
    let b = blocked_action_decision();
    assert_eq!(b.decision, "wait");
    assert_eq!(b.source, "computer_use_blocked_action");
    assert!(matches!(b.confidence, Confidence::Hundredths(20)));
    let w = with_decision_source(decision("resume"), "vision_fallback");
    assert_eq!(w.source, "vision_fallback");
    assert_eq!(w.decision, "resume");
}

#[test]
fn previous_response_errors_are_recognised() {
    assert!(is_previous_response_not_found("OpenAI API request failed: previous_response_not_found"));
    assert!(is_previous_response_not_found("Previous response with id 'x' not found."));
    assert!(!is_previous_response_not_found("rate limited"));
}

#[test]
fn round_steps() {
    let reply = obj(vec![("output", Json::Array(vec![
        obj(vec![("type", s("computer_call")), ("call_id", s("c1")), ("action", obj(vec![("type", s("type")), ("text", s("ls"))]))]),
    ]))]);
    match computer_use_round(&reply, None) {
        RoundStep::Blocked(d) => assert_eq!(d.decision, "wait"),
        _ => panic!("expected a blocked step"),
    }
    let shot = obj(vec![("output", Json::Array(vec![
        obj(vec![("type", s("computer_call")), ("call_id", s("c2")), ("action", obj(vec![("type", s("screenshot"))]))]),
    ]))]);
    assert!(matches!(computer_use_round(&shot, None), RoundStep::SendScreenshot(ref id) if id == "c2"));
    assert!(matches!(computer_use_round(&obj(vec![]), None), RoundStep::NoCall));
    match computer_use_round(&shot, Some(decision("resume"))) {
        RoundStep::Decided(d) => {
            assert_eq!(d.decision, "resume");
            assert_eq!(d.source, "computer_use");
        }
        _ => panic!("expected a decision"),
    }
}

#[test]
fn execution_plans() {
    let c = config(true, false, Some("codex resume"));
    assert!(matches!(plan_execution(&c, &decision("resume")), ExecutionPlan::RunFallback(ref cmd) if cmd == "codex resume"));
    assert!(matches!(plan_execution(&c, &decision("wait")), ExecutionPlan::Nothing));
    assert!(matches!(plan_execution(&c, &decision("noop")), ExecutionPlan::Nothing));
    assert!(matches!(plan_execution(&c, &decision("jump")), ExecutionPlan::Report(ref m) if m == "unknown decision ignored: jump"));
    let dry = config(true, true, Some("codex resume"));
    assert!(matches!(plan_execution(&dry, &decision("resume")), ExecutionPlan::Nothing));
    let off = config(false, false, Some("codex resume"));
    assert!(matches!(plan_execution(&off, &decision("resume")), ExecutionPlan::Nothing));
    let none = config(true, false, None);
    assert!(matches!(plan_execution(&none, &decision("resume")),
        ExecutionPlan::Report(ref m) if m == "resume recommended; no fallback command configured, nothing executed"));
    // A fallback decision never runs anything.
    assert!(matches!(plan_execution(&c, &fallback_decision("x")), ExecutionPlan::Nothing));
    assert!(matches!(plan_execution(&c, &blocked_action_decision()), ExecutionPlan::Nothing));
}

#[test]
fn duplicate_and_get() {
    let v = obj(vec![("a", Json::Array(vec![s("x"), Json::Null])), ("b", Json::Number("3".to_string()))]);
    let d = v.duplicate();
    assert!(matches!(d.get("b"), Some(Json::Number(ref n)) if n == "3"));
    assert!(matches!(d.get("a"), Some(Json::Array(ref a)) if a.len() == 2));
    assert!(d.get("c").is_none());
    assert!(s("a").get("a").is_none());
}

#[test]
fn run_start_and_outcomes() {
    match start_run(true) {
        Start::Decided(d) => {
            assert_eq!(d.decision, "wait");
            assert_eq!(d.reason, "--no-api was set; no screenshot was sent to OpenAI");
        }
        Start::Capture => panic!("--no-api must not capture"),
    }
    assert!(matches!(start_run(false), Start::Capture));
    assert_eq!(capture_failed_decision().reason, "screen capture failed; manual inspection required");
    let d = model_outcome(Err("timeout".to_string()));
    assert_eq!(d.decision, "wait");
    assert_eq!(d.reason, "Computer Use unavailable or failed: timeout");
    assert_eq!(d.source, "local_safe_fallback");
    assert_eq!(model_outcome(Ok(decision("resume"))).decision, "resume");
    assert_eq!(execution_record(Err("lock busy".to_string())), vec!["execute error: lock busy".to_string()]);
    assert_eq!(execution_record(Ok(vec!["a".to_string()])), vec!["a".to_string()]);
}
