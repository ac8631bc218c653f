//! Properties of the library as a whole, proved over the specifications that
//! the functions' contracts use.

use vstd::prelude::*;
use crate::args::{
    apply_switch, apply_value, env_defaults, option_kind_spec, parse_args_spec, parse_from,
    takes_value, ConfigV, EnvSettings, InvocationV, OptKind,
};
use crate::decision::{
    any_screen_action, blocked_decision_spec, fallback_decision_spec, plan_spec, round_spec,
    ConfidenceV, DecisionV, ExecutionPlanV, RoundStepV,
};
use crate::json::{get_spec, member_from};
use crate::request::{continuation_request_spec, vision_request_spec};
use crate::run::event_spec;
use crate::text::{contains_spec, lower_spec};
use crate::window::classify_spec;
use crate::number::{all_digits, decimal, digit_char, digits_value, is_digit, parse_unsigned_spec, unsigned_body};
use crate::reply::{computer_call_spec, flatten_lines, shorten, short_text_at, text_at};
use crate::paths::{backslashed, mnt_to_windows_spec};
use crate::text::{ascii_upper, find_from, has_char};
use crate::json::JsonV;
use crate::text::{is_ws, lemma_skip_ws_bounds, lemma_trim_end_bounds, skip_ws_from, trim_end_from, trim_spec};

verus! {

proof fn lemma_api_flag_from(args: Seq<Seq<char>>, i: int, cfg: ConfigV)
    requires
        i >= 0,
    ensures
        parse_from(args, i, cfg) matches Ok(InvocationV::Run(c)) && !c.no_api ==> (!cfg.no_api
            || exists|j: int| i <= j < args.len() && args[j] == "--api"@),
    decreases args.len() - i,
{
    if i < args.len() {
        let k = option_kind_spec(args[i]);
        if k != OptKind::Help && k != OptKind::Unknown {
            if !takes_value(k) {
                lemma_api_flag_from(args, i + 1, apply_switch(cfg, k));
                if parse_from(args, i, cfg) matches Ok(InvocationV::Run(c)) && !c.no_api {
                    if k == OptKind::Api {
                        assert(args[i] == "--api"@);
                    } else if !cfg.no_api {
                    } else {
                        let j = choose|j: int| i + 1 <= j < args.len() && args[j] == "--api"@;
                        assert(i <= j < args.len() && args[j] == "--api"@);
                    }
                }
            } else if i + 1 < args.len() {
                match apply_value(cfg, k, args[i + 1]) {
                    Some(next) => {
                        lemma_api_flag_from(args, i + 2, next);
                        if parse_from(args, i, cfg) matches Ok(InvocationV::Run(c)) && !c.no_api {
                            if !cfg.no_api {
                            } else {
                                let j = choose|j: int| i + 2 <= j < args.len() && args[j] == "--api"@;
                                assert(i <= j < args.len() && args[j] == "--api"@);
                            }
                        }
                    },
                    None => {},
                }
            }
        }
    }
}

/// API mode is opt-in: settings that allow sending the screen to the model
/// come only from a command line that holds `--api`.
pub proof fn law_api_mode_requires_flag(args: Seq<Seq<char>>, env: EnvSettings)
    ensures
        parse_args_spec(args, env) matches Ok(InvocationV::Run(c)) && !c.no_api ==> exists|j: int|
            1 <= j < args.len() && args[j] == "--api"@,
{
    lemma_api_flag_from(args, 1, env_defaults(env));
}

proof fn lemma_execute_flag_from(args: Seq<Seq<char>>, i: int, cfg: ConfigV)
    requires
        i >= 0,
    ensures
        parse_from(args, i, cfg) matches Ok(InvocationV::Run(c)) && c.execute ==> (cfg.execute
            || exists|j: int| i <= j < args.len() && args[j] == "--execute"@),
    decreases args.len() - i,
{
    if i < args.len() {
        let k = option_kind_spec(args[i]);
        if k != OptKind::Help && k != OptKind::Unknown {
            if !takes_value(k) {
                lemma_execute_flag_from(args, i + 1, apply_switch(cfg, k));
                if parse_from(args, i, cfg) matches Ok(InvocationV::Run(c)) && c.execute {
                    if k == OptKind::Execute {
                        assert(args[i] == "--execute"@);
                    } else if cfg.execute {
                    } else {
                        let j = choose|j: int| i + 1 <= j < args.len() && args[j] == "--execute"@;
                        assert(i <= j < args.len() && args[j] == "--execute"@);
                    }
                }
            } else if i + 1 < args.len() {
                match apply_value(cfg, k, args[i + 1]) {
                    Some(next) => {
                        lemma_execute_flag_from(args, i + 2, next);
                        if parse_from(args, i, cfg) matches Ok(InvocationV::Run(c)) && c.execute {
                            if cfg.execute {
                            } else {
                                let j = choose|j: int| i + 2 <= j < args.len() && args[j] == "--execute"@;
                                assert(i <= j < args.len() && args[j] == "--execute"@);
                            }
                        }
                    },
                    None => {},
                }
            }
        }
    }
}

/// Execution is opt-in: settings that may run a fallback command come only
/// from a command line that holds `--execute`.
pub proof fn law_execution_requires_flag(args: Seq<Seq<char>>, env: EnvSettings)
    ensures
        parse_args_spec(args, env) matches Ok(InvocationV::Run(c)) && c.execute ==> exists|j: int|
            1 <= j < args.len() && args[j] == "--execute"@,
{
    lemma_execute_flag_from(args, 1, env_defaults(env));
}

/// Only a `resume` decision, under `--execute` without `--dry-run`, with a
/// configured fallback command, runs anything; what runs is that command.
pub proof fn law_only_resume_runs(execute: bool, dry_run: bool, fallback: Option<Seq<char>>, d: Seq<char>)
    ensures
        plan_spec(execute, dry_run, fallback, d) matches ExecutionPlanV::RunFallback(c) ==> execute
            && !dry_run && d == "resume"@ && fallback == Some(c),
        dry_run ==> plan_spec(execute, dry_run, fallback, d) == ExecutionPlanV::Nothing,
        !execute ==> plan_spec(execute, dry_run, fallback, d) == ExecutionPlanV::Nothing,
{
}

/// A conservative fallback decision is `wait`, and executing it runs nothing.
pub proof fn law_fallback_runs_nothing(reason: Seq<char>, execute: bool, dry_run: bool, fallback: Option<Seq<char>>)
    ensures
        fallback_decision_spec(reason).decision == "wait"@,
        plan_spec(execute, dry_run, fallback, fallback_decision_spec(reason).decision)
            == ExecutionPlanV::Nothing,
{
    reveal_strlit("wait");
    reveal_strlit("resume");
    assert("wait"@ != "resume"@) by {
        assert("wait"@.len() != "resume"@.len());
    }
}

/// When the model asks for any action other than a screenshot or a wait, the
/// round ends in a `wait` decision, and executing that decision runs nothing.
pub proof fn law_screen_actions_are_refused(
    response: JsonV,
    execute: bool,
    dry_run: bool,
    fallback: Option<Seq<char>>,
)
    ensures
        computer_call_spec(response) matches Some((id, actions)) && any_screen_action(actions) ==> {
            &&& round_spec(response, None) == RoundStepV::Blocked(blocked_decision_spec())
            &&& blocked_decision_spec().decision == "wait"@
            &&& plan_spec(execute, dry_run, fallback, blocked_decision_spec().decision)
                == ExecutionPlanV::Nothing
        },
{
    reveal_strlit("wait");
    reveal_strlit("resume");
    assert("wait"@ != "resume"@) by {
        assert("wait"@.len() != "resume"@.len());
    }
}

/// Trimming twice is trimming once.
pub proof fn law_trim_idempotent(s: Seq<char>)
    ensures
        trim_spec(trim_spec(s)) == trim_spec(s),
{
    lemma_skip_ws_bounds(s, 0);
    let a = skip_ws_from(s, 0);
    lemma_trim_end_bounds(s, a, s.len() as int);
    let t = trim_spec(s);
    lemma_skip_ws_bounds(t, 0);
    if t.len() > 0 {
        assert(!is_ws(t[0]));
        assert(skip_ws_from(t, 0) == 0);
        assert(!is_ws(t[t.len() - 1]));
        assert(trim_end_from(t, 0, t.len() as int) == t.len());
        assert(t.subrange(0, t.len() as int) =~= t);
    } else {
        assert(trim_spec(t) =~= t);
    }
}

proof fn lemma_decimal_digits(n: nat)
    ensures
        decimal(n).len() > 0,
        all_digits(decimal(n)),
        digits_value(decimal(n)) == n,
    decreases n,
{
    let d = (n % 10) as nat;
    assert(digit_char(d) as int == d + 48);
    if n < 10 {
        let s = decimal(n);
        assert(s.drop_last() =~= Seq::<char>::empty());
        assert(digits_value(Seq::<char>::empty()) == 0);
    } else {
        lemma_decimal_digits(n / 10);
        let p = decimal(n / 10);
        let s = decimal(n);
        assert(s == p.push(digit_char(d)));
        assert(s.drop_last() =~= p);
        assert(n == (n / 10) * 10 + n % 10) by (nonlinear_arith);
        assert forall|i: int| 0 <= i < s.len() implies is_digit(#[trigger] s[i]) by {
            if i < p.len() {
                assert(s[i] == p[i]);
            }
        }
    }
}

/// Decimal text reads back as the number it was written from, whenever the
/// number fits the target type.
pub proof fn law_decimal_round_trip(n: nat, max: nat)
    requires
        n <= max,
    ensures
        parse_unsigned_spec(decimal(n), max) == Some(n),
{
    lemma_decimal_digits(n);
    let s = decimal(n);
    assert(is_digit(s[0]));
    assert(unsigned_body(s) == s);
}


proof fn lemma_find_from_none_before(s: Seq<char>, c: char, i: int)
    requires
        0 <= i,
    ensures
        match find_from(s, c, i) {
            Some(j) => i <= j < s.len() && s[j] == c && forall|k: int| i <= k < j ==> s[k] != c,
            None => forall|k: int| i <= k < s.len() ==> s[k] != c,
        },
    decreases s.len() - i,
{
    if i < s.len() && s[i] != c {
        lemma_find_from_none_before(s, c, i + 1);
    }
}

/// A path converted from `/mnt/<drive>/…` uses backslashes only.
pub proof fn law_converted_path_has_no_slash(path: Seq<char>)
    ensures
        mnt_to_windows_spec(path) matches Some(w) ==> !has_char(w, '/'),
{
    if let Some(w) = mnt_to_windows_spec(path) {
        let rest = path.skip(5);
        lemma_find_from_none_before(rest, '/', 0);
        let tail = match find_from(rest, '/', 0) {
            Some(i) => rest.skip(i + 1),
            None => Seq::empty(),
        };
        assert(rest[0] != '/');
        assert(ascii_upper(rest[0]) != '/');
        assert forall|k: int| 0 <= k < w.len() implies w[k] != '/' by {
            if k >= 3 {
                assert(w[k] == backslashed(tail)[k - 3]);
            }
        }
    }
}

/// The telemetry shown in the prompt is a single line.
pub proof fn law_telemetry_is_one_line(v: JsonV, path: Seq<Seq<char>>)
    requires
        crate::reply::cut_ok(text_at(v, path), crate::reply::telemetry_limit()),
    ensures
        !has_char(short_text_at(v, path), '\n'),
{
    let t = text_at(v, path);
    assert(!has_char(t, '\n'));
    let r = shorten(t);
    if crate::text::utf8_len(t) > crate::reply::telemetry_limit() {
        let k = choose|k: int| 0 <= k <= t.len() && crate::text::utf8_len(t.take(k)) == crate::reply::telemetry_limit();
        assert forall|i: int| 0 <= i < r.len() implies r[i] != '\n' by {
            if i < k {
                assert(r[i] == t[i]);
            }
        }
    }
}

/// A computer call that asks for any action whose `type` is a non-empty text
/// other than `screenshot` and `wait` (a click, typing, a move, a scroll, a key
/// press, a drag, ...) ends the round, when no decision was read, in the
/// `wait` decision of confidence 0.20 attributed to the blocked action; when
/// every action only looks (`screenshot`, `wait`, or no type), the round goes
/// on by sending a screenshot for the call's id.
pub proof fn law_round_blocks_screen_actions(response: JsonV, id: Seq<char>, actions: Seq<JsonV>)
    requires
        computer_call_spec(response) == Some((id, actions)),
    ensures
        (exists|i: int| 0 <= i < actions.len() && match get_spec(#[trigger] actions[i], "type"@) {
            Some(JsonV::Str(t)) => t.len() > 0 && t != "screenshot"@ && t != "wait"@,
            _ => false,
        }) ==> (round_spec(response, None) matches RoundStepV::Blocked(d) && d.decision == "wait"@
            && d.confidence == ConfidenceV::Hundredths(20)
            && d.source == "computer_use_blocked_action"@),
        (forall|i: int| 0 <= i < actions.len() ==> match get_spec(#[trigger] actions[i], "type"@) {
            Some(JsonV::Str(t)) => t.len() == 0 || t == "screenshot"@ || t == "wait"@,
            _ => true,
        }) ==> round_spec(response, None) == RoundStepV::SendScreenshot(id),
{
    assert forall|i: int| 0 <= i < actions.len() implies crate::decision::is_screen_action(#[trigger] actions[i])
        == match get_spec(actions[i], "type"@) {
            Some(JsonV::Str(t)) => t.len() > 0 && t != "screenshot"@ && t != "wait"@,
            _ => false,
        } by {
        match get_spec(actions[i], "type"@) {
            Some(JsonV::Str(t)) => {},
            _ => {},
        }
    }
}

proof fn lemma_member_at(m: Seq<(Seq<char>, JsonV)>, key: Seq<char>, i: int, j: int)
    requires
        0 <= i <= j < m.len(),
        m[j].0 == key,
        forall|k: int| i <= k < j ==> (#[trigger] m[k]).0.len() != key.len() || m[k].0[0] != key[0],
    ensures
        member_from(m, key, i) == Some(m[j].1),
    decreases j - i,
{
    if i < j {
        assert(m[i].0 != key);
        lemma_member_at(m, key, i + 1, j);
    }
}

/// The fallback request that sends the screenshot directly carries the given
/// model, and one user message whose parts are the text and then the image:
/// an `input_image` whose `image_url` is the given data URL, at high detail.
pub proof fn law_vision_request_carries_screenshot(model: Seq<char>, text: Seq<char>, image_url: Seq<char>)
    ensures
        ({
            let r = vision_request_spec(model, text, image_url);
            &&& get_spec(r, "model"@) == Some(JsonV::Str(model))
            &&& get_spec(r, "input"@) matches Some(JsonV::Array(input))
            &&& input.len() == 1
            &&& get_spec(input[0], "role"@) == Some(JsonV::Str("user"@))
            &&& get_spec(input[0], "content"@) matches Some(JsonV::Array(parts))
            &&& parts.len() == 2
            &&& get_spec(parts[0], "type"@) == Some(JsonV::Str("input_text"@))
            &&& get_spec(parts[0], "text"@) == Some(JsonV::Str(text))
            &&& get_spec(parts[1], "type"@) == Some(JsonV::Str("input_image"@))
            &&& get_spec(parts[1], "image_url"@) == Some(JsonV::Str(image_url))
            &&& get_spec(parts[1], "detail"@) == Some(JsonV::Str("high"@))
        }),
{
    reveal_strlit("model");
    reveal_strlit("input");
    reveal_strlit("max_output_tokens");
    reveal_strlit("role");
    reveal_strlit("content");
    reveal_strlit("type");
    reveal_strlit("text");
    reveal_strlit("image_url");
    reveal_strlit("detail");
    let r = vision_request_spec(model, text, image_url);
    let top = r->Object_0;
    lemma_member_at(top, "model"@, 0, 0);
    lemma_member_at(top, "input"@, 0, 1);
    let mm = top[1].1->Array_0[0]->Object_0;
    lemma_member_at(mm, "role"@, 0, 0);
    lemma_member_at(mm, "content"@, 0, 1);
    let parts = mm[1].1->Array_0;
    let p0 = parts[0]->Object_0;
    let p1 = parts[1]->Object_0;
    lemma_member_at(p0, "type"@, 0, 0);
    assert(p0[0].0 != "text"@) by {
        assert(p0[0].0[1] != "text"@[1]);
    }
    assert(member_from(p0, "text"@, 1) == Some(p0[1].1)) by {
        lemma_member_at(p0, "text"@, 1, 1);
    }
    lemma_member_at(p1, "type"@, 0, 0);
    lemma_member_at(p1, "image_url"@, 0, 1);
    lemma_member_at(p1, "detail"@, 0, 2);
}

/// The answer to a computer call carries the given model, continues the given
/// response, and holds one `computer_call_output` for the given call id whose
/// output is a `computer_screenshot` with the given data URL.
pub proof fn law_continuation_carries_screenshot(
    model: Seq<char>,
    previous_response_id: Seq<char>,
    call_id: Seq<char>,
    image_url: Seq<char>,
)
    ensures
        ({
            let r = continuation_request_spec(model, previous_response_id, call_id, image_url);
            &&& get_spec(r, "model"@) == Some(JsonV::Str(model))
            &&& get_spec(r, "previous_response_id"@) == Some(JsonV::Str(previous_response_id))
            &&& get_spec(r, "input"@) matches Some(JsonV::Array(input))
            &&& input.len() == 1
            &&& get_spec(input[0], "type"@) == Some(JsonV::Str("computer_call_output"@))
            &&& get_spec(input[0], "call_id"@) == Some(JsonV::Str(call_id))
            &&& get_spec(input[0], "output"@) matches Some(output)
            &&& get_spec(output, "type"@) == Some(JsonV::Str("computer_screenshot"@))
            &&& get_spec(output, "image_url"@) == Some(JsonV::Str(image_url))
        }),
{
    reveal_strlit("model");
    reveal_strlit("previous_response_id");
    reveal_strlit("tools");
    reveal_strlit("max_output_tokens");
    reveal_strlit("input");
    reveal_strlit("type");
    reveal_strlit("call_id");
    reveal_strlit("output");
    reveal_strlit("image_url");
    reveal_strlit("detail");
    let r = continuation_request_spec(model, previous_response_id, call_id, image_url);
    let top = r->Object_0;
    lemma_member_at(top, "model"@, 0, 0);
    lemma_member_at(top, "previous_response_id"@, 0, 1);
    lemma_member_at(top, "input"@, 0, 4);
    let item = top[4].1->Array_0[0]->Object_0;
    lemma_member_at(item, "type"@, 0, 0);
    lemma_member_at(item, "call_id"@, 0, 1);
    lemma_member_at(item, "output"@, 0, 2);
    let out = item[2].1->Object_0;
    lemma_member_at(out, "type"@, 0, 0);
    lemma_member_at(out, "image_url"@, 0, 1);
}

/// The record of a run reports the decision member by member: `decision` is
/// the decision's text, `confidence` the given number, `reason` its reason and
/// `decision_source` where it came from.
pub proof fn law_event_reports_decision(
    ts_ms: nat,
    model: Seq<char>,
    execute: bool,
    dry_run: bool,
    exec_fallback: bool,
    preflight: bool,
    prompt_configured: bool,
    lock_file: bool,
    decision: DecisionV,
    confidence: JsonV,
    meta: Option<JsonV>,
    ran: Seq<Seq<char>>,
)
    ensures
        ({
            let e = event_spec(
                ts_ms,
                model,
                execute,
                dry_run,
                exec_fallback,
                preflight,
                prompt_configured,
                lock_file,
                decision,
                confidence,
                meta,
                ran,
            );
            &&& get_spec(e, "model"@) == Some(JsonV::Str(model))
            &&& get_spec(e, "execute"@) == Some(JsonV::Bool(execute))
            &&& get_spec(e, "dry_run"@) == Some(JsonV::Bool(dry_run))
            &&& get_spec(e, "decision"@) == Some(JsonV::Str(decision.decision))
            &&& get_spec(e, "confidence"@) == Some(confidence)
            &&& get_spec(e, "reason"@) == Some(JsonV::Str(decision.reason))
            &&& get_spec(e, "decision_source"@) == Some(JsonV::Str(decision.source))
        }),
{
    reveal_strlit("ts_ms");
    reveal_strlit("tool");
    reveal_strlit("model");
    reveal_strlit("execute");
    reveal_strlit("dry_run");
    reveal_strlit("exec_fallback_configured");
    reveal_strlit("preflight_configured");
    reveal_strlit("fallback_prompt_configured");
    reveal_strlit("lock_file_configured");
    reveal_strlit("decision");
    reveal_strlit("confidence");
    reveal_strlit("reason");
    reveal_strlit("decision_source");
    let e = event_spec(
        ts_ms,
        model,
        execute,
        dry_run,
        exec_fallback,
        preflight,
        prompt_configured,
        lock_file,
        decision,
        confidence,
        meta,
        ran,
    );
    let m = e->Object_0;
    lemma_member_at(m, "model"@, 0, 2);
    lemma_member_at(m, "execute"@, 0, 3);
    lemma_member_at(m, "dry_run"@, 0, 4);
    lemma_member_at(m, "decision"@, 0, 9);
    lemma_member_at(m, "confidence"@, 0, 10);
    lemma_member_at(m, "reason"@, 0, 11);
    lemma_member_at(m, "decision_source"@, 0, 12);
}

/// Whether reading the arguments from position `i` on takes position `j` as an
/// option, rather than as the value that follows an option taking one.
pub open spec fn reads_option_at(args: Seq<Seq<char>>, i: int, j: int) -> bool
    decreases j + 2 - i,
{
    if i < 0 || i > j || i >= args.len() {
        false
    } else if i == j {
        true
    } else if takes_value(option_kind_spec(args[i])) {
        reads_option_at(args, i + 2, j)
    } else {
        reads_option_at(args, i + 1, j)
    }
}

proof fn lemma_exec_fallback_kept(args: Seq<Seq<char>>, i: int, cfg: ConfigV)
    requires
        i >= 0,
        forall|k: int| i <= k < args.len() ==> #[trigger] args[k] != "--exec-fallback"@,
    ensures
        parse_from(args, i, cfg) matches Ok(InvocationV::Run(c)) ==> c.exec_fallback
            == cfg.exec_fallback,
    decreases args.len() - i,
{
    reveal_strlit("--exec-fallback");
    if i < args.len() {
        let k = option_kind_spec(args[i]);
        assert(k != OptKind::ExecFallback);
        if k != OptKind::Help && k != OptKind::Unknown {
            if !takes_value(k) {
                lemma_exec_fallback_kept(args, i + 1, apply_switch(cfg, k));
            } else if i + 1 < args.len() {
                match apply_value(cfg, k, args[i + 1]) {
                    Some(next) => {
                        lemma_exec_fallback_kept(args, i + 2, next);
                    },
                    None => {},
                }
            }
        }
    }
}

proof fn lemma_last_exec_fallback_from(args: Seq<Seq<char>>, i: int, j: int, cfg: ConfigV)
    requires
        reads_option_at(args, i, j),
        0 <= j,
        args[j] == "--exec-fallback"@,
        j + 1 < args.len(),
        forall|k: int| j + 1 < k < args.len() ==> #[trigger] args[k] != "--exec-fallback"@,
    ensures
        parse_from(args, i, cfg) matches Ok(InvocationV::Run(c)) ==> c.exec_fallback == Some(
            args[j + 1],
        ),
    decreases args.len() - i,
{
    let k = option_kind_spec(args[i]);
    if i == j {
        reveal_strlit("--exec-fallback");
        reveal_strlit("--execute");
        reveal_strlit("--dry-run");
        reveal_strlit("--api");
        reveal_strlit("--no-api");
        reveal_strlit("--model");
        reveal_strlit("--screenshot");
        reveal_strlit("--max-rounds");
        let a = args[i];
        assert(a.len() == 15);
        assert(a != "--execute"@ && a != "--dry-run"@) by {
            assert("--execute"@.len() == 9 && "--dry-run"@.len() == 9);
        }
        assert(a != "--api"@ && a != "--no-api"@ && a != "--model"@) by {
            assert("--api"@.len() == 5 && "--no-api"@.len() == 8 && "--model"@.len() == 7);
        }
        assert(a != "--screenshot"@ && a != "--max-rounds"@) by {
            assert("--screenshot"@.len() == 12 && "--max-rounds"@.len() == 12);
        }
        assert(k == OptKind::ExecFallback);
        lemma_exec_fallback_kept(args, i + 2, ConfigV { exec_fallback: Some(args[j + 1]), ..cfg });
    } else if k != OptKind::Help && k != OptKind::Unknown {
        if !takes_value(k) {
            lemma_last_exec_fallback_from(args, i + 1, j, apply_switch(cfg, k));
        } else if i + 1 < args.len() {
            match apply_value(cfg, k, args[i + 1]) {
                Some(next) => {
                    lemma_last_exec_fallback_from(args, i + 2, j, next);
                },
                None => {},
            }
        }
    }
}

/// The last `--exec-fallback` option on the command line sets the fallback
/// command to its value, whatever the environment held: the environment gives
/// only the starting value.
pub proof fn law_exec_fallback_option_wins(args: Seq<Seq<char>>, env: EnvSettings, j: int)
    requires
        reads_option_at(args, 1, j),
        0 <= j,
        args[j] == "--exec-fallback"@,
        j + 1 < args.len(),
        forall|k: int| j + 1 < k < args.len() ==> #[trigger] args[k] != "--exec-fallback"@,
    ensures
        parse_args_spec(args, env) matches Ok(InvocationV::Run(c)) ==> c.exec_fallback == Some(
            args[j + 1],
        ),
{
    lemma_last_exec_fallback_from(args, 1, j, env_defaults(env));
}

/// Terminal emulators are told apart from the shells that run in them, and
/// the checks take precedence in this order: WezTerm (by process or title)
/// over everything; Windows Terminal (by process or class) over every shell;
/// PowerShell (by process `powershell.exe` or `pwsh.exe`, or by title or class)
/// over `cmd`, even in a console whose process is `cmd.exe` or whose title
/// names the command prompt; all names compared without regard to ASCII case.
pub proof fn law_window_kind_precedence(process_name: Seq<char>, title: Seq<char>, class_name: Seq<char>)
    ensures
        ({
            let p = lower_spec(process_name);
            let t = lower_spec(title);
            let c = lower_spec(class_name);
            let emulator = contains_spec(p, "wezterm"@) || contains_spec(t, "wezterm"@)
                || contains_spec(p, "windowsterminal"@) || contains_spec(c, "cascadia"@);
            let powershell = p == "powershell.exe"@ || p == "pwsh.exe"@ || contains_spec(t, "powershell"@)
                || contains_spec(c, "powershell"@);
            let cmd = p == "cmd.exe"@ || contains_spec(t, "command prompt"@);
            &&& (contains_spec(p, "wezterm"@) || contains_spec(t, "wezterm"@)) ==> classify_spec(
                process_name,
                title,
                class_name,
            ) == "wezterm"@
            &&& !(contains_spec(p, "wezterm"@) || contains_spec(t, "wezterm"@)) && (contains_spec(
                p,
                "windowsterminal"@,
            ) || contains_spec(c, "cascadia"@)) ==> classify_spec(process_name, title, class_name)
                == "windows-terminal"@
            &&& !emulator && powershell ==> classify_spec(process_name, title, class_name)
                == "powershell"@
            &&& !emulator && !powershell && cmd ==> classify_spec(process_name, title, class_name)
                == "cmd"@
            &&& !emulator && !powershell && !cmd ==> classify_spec(process_name, title, class_name)
                == "other"@
        }),
{
}

} // verus!
