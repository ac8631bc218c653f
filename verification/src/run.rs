//! One run: the lock file, the fallback prompt's source, and the event
//! that records what happened.

use vstd::prelude::*;
use crate::args::{opt_view, Config};
use crate::decision::{Decision, DecisionV};
use crate::json::{get_spec, lemma_view_items, lemma_view_members, str_spec, view_items, view_members, Json, JsonV};
use crate::number::{decimal, decimal_string};
use crate::command::strings_view;

verus! {

/// An existing lock is stale when its age is known and exceeds the TTL.
pub fn lock_is_stale(age_secs: Option<u64>, ttl_sec: u64) -> (b: bool)
    ensures
        b == (age_secs matches Some(a) && a > ttl_sec),
{
    match age_secs {
        Some(a) => a > ttl_sec,
        None => false,
    }
}

/// The line written into a new lock file.
pub fn lock_line(pid: u32) -> (s: String)
    ensures
        s@ == "pid="@ + decimal(pid as nat),
{
    String::from_str("pid=").concat(decimal_string(pid as u128).as_str())
}

/// Where the text piped to the fallback command comes from.
pub enum PromptSource {
    /// Read this file.
    File(String),
    /// Read this process's standard input.
    Stdin,
    /// Send nothing.
    Empty,
}

/// A prompt file wins over `--fallback-prompt-stdin`; with neither, nothing is sent.
pub fn fallback_prompt_source(cfg: &Config) -> (p: PromptSource)
    ensures
        match p {
            PromptSource::File(f) => opt_view(cfg.fallback_prompt_file) == Some(f@),
            PromptSource::Stdin => cfg.fallback_prompt_file is None && cfg.fallback_prompt_stdin,
            PromptSource::Empty => cfg.fallback_prompt_file is None && !cfg.fallback_prompt_stdin,
        },
{
    match &cfg.fallback_prompt_file {
        Some(f) => PromptSource::File(f.clone()),
        None => if cfg.fallback_prompt_stdin {
            PromptSource::Stdin
        } else {
            PromptSource::Empty
        },
    }
}

pub open spec fn opt_str_json(o: Option<Seq<char>>) -> JsonV {
    match o {
        Some(s) => JsonV::Str(s),
        None => JsonV::Null,
    }
}

/// `meta.source` when it is a string.
pub open spec fn capture_source_spec(meta: Option<JsonV>) -> Option<Seq<char>> {
    match meta {
        Some(m) => match get_spec(m, "source"@) {
            Some(s) => str_spec(s),
            None => None,
        },
        None => None,
    }
}

/// `meta.active_window.kind` when it is a string.
pub open spec fn window_kind_spec(meta: Option<JsonV>) -> Option<Seq<char>> {
    match meta {
        Some(m) => match get_spec(m, "active_window"@) {
            Some(w) => match get_spec(w, "kind"@) {
                Some(k) => str_spec(k),
                None => None,
            },
            None => None,
        },
        None => None,
    }
}

pub open spec fn texts_json(s: Seq<Seq<char>>) -> Seq<JsonV> {
    s.map_values(|t: Seq<char>| JsonV::Str(t))
}

/// The record of one run, as logged and printed.
pub open spec fn event_spec(
    ts_ms: nat,
    model: Seq<char>,
    execute: bool,
    dry_run: bool,
    exec_fallback: bool,
    preflight: bool,
    prompt_configured: bool,
    lock_file: bool,
    decision: DecisionV,
    confidence: JsonV,
    meta: Option<JsonV>,
    ran: Seq<Seq<char>>,
) -> JsonV {
    JsonV::Object(
        seq![
            ("ts_ms"@, JsonV::Number(decimal(ts_ms))),
            ("tool"@, JsonV::Str("codex-cua-resume-assist"@)),
            ("model"@, JsonV::Str(model)),
            ("execute"@, JsonV::Bool(execute)),
            ("dry_run"@, JsonV::Bool(dry_run)),
            ("exec_fallback_configured"@, JsonV::Bool(exec_fallback)),
            ("preflight_configured"@, JsonV::Bool(preflight)),
            ("fallback_prompt_configured"@, JsonV::Bool(prompt_configured)),
            ("lock_file_configured"@, JsonV::Bool(lock_file)),
            ("decision"@, JsonV::Str(decision.decision)),
            ("confidence"@, confidence),
            ("reason"@, JsonV::Str(decision.reason)),
            ("decision_source"@, JsonV::Str(decision.source)),
            ("capture_source"@, opt_str_json(capture_source_spec(meta))),
            ("active_window_kind"@, opt_str_json(window_kind_spec(meta))),
            ("ran"@, JsonV::Array(texts_json(ran))),
        ],
    )
}

fn opt_str_exec(o: Option<&Json>) -> (j: Json)
    ensures
        j@ == opt_str_json(match o {
            Some(x) => str_spec(x@),
            None => None,
        }),
{
    match o {
        Some(x) => match x.as_str() {
            Some(s) => Json::Str(s.clone()),
            None => Json::Null,
        },
        None => Json::Null,
    }
}

/// The record of one run. `confidence` is the decision's confidence as a JSON
/// number; `meta` is the capture metadata when a capture was made.
pub fn run_event(ts_ms: u128, cfg: &Config, decision: &Decision, confidence: Json, meta: Option<&Json>, ran: &Vec<String>) -> (j: Json)
    ensures
        j@ == event_spec(
            ts_ms as nat,
            cfg.model@,
            cfg.execute,
            cfg.dry_run,
            cfg.exec_fallback is Some,
            cfg.preflight_command is Some,
            cfg.fallback_prompt_file is Some || cfg.fallback_prompt_stdin,
            cfg.lock_file is Some,
            decision@,
            confidence@,
            match meta {
                Some(m) => Some(m@),
                None => None,
            },
            strings_view(ran@),
        ),
{
    let source = match meta {
        Some(m) => opt_str_exec(m.get("source")),
        None => Json::Null,
    };
    let kind = match meta {
        Some(m) => match m.get("active_window") {
            Some(w) => opt_str_exec(w.get("kind")),
            None => Json::Null,
        },
        None => Json::Null,
    };
    let mut items: Vec<Json> = Vec::new();
    let mut i: usize = 0;
    while i < ran.len()
        invariant
            i <= ran@.len(),
            items@.len() == i,
            forall|k: int| 0 <= k < i ==> #[trigger] items@[k]@ == JsonV::Str(ran@[k]@),
        decreases ran.len() - i,
    {
        items.push(Json::Str(ran[i].clone()));
        i = i + 1;
    }
    proof {
        lemma_view_items(items@);
        assert(strings_view(ran@).len() == ran@.len());
        assert(texts_json(strings_view(ran@)).len() == ran@.len());
        assert forall|k: int| 0 <= k < ran@.len() implies #[trigger] view_items(items@)[k] == texts_json(strings_view(ran@))[k] by {
            assert(strings_view(ran@)[k] == ran@[k]@);
            assert(items@[k]@ == JsonV::Str(ran@[k]@));
        }
        assert(view_items(items@) =~= texts_json(strings_view(ran@)));
    }
    let m = vec![
        (String::from_str("ts_ms"), Json::Number(decimal_string(ts_ms))),
        (String::from_str("tool"), Json::Str(String::from_str("codex-cua-resume-assist"))),
        (String::from_str("model"), Json::Str(cfg.model.clone())),
        (String::from_str("execute"), Json::Bool(cfg.execute)),
        (String::from_str("dry_run"), Json::Bool(cfg.dry_run)),
        (String::from_str("exec_fallback_configured"), Json::Bool(cfg.exec_fallback.is_some())),
        (String::from_str("preflight_configured"), Json::Bool(cfg.preflight_command.is_some())),
        (String::from_str("fallback_prompt_configured"), Json::Bool(cfg.fallback_prompt_file.is_some() || cfg.fallback_prompt_stdin)),
        (String::from_str("lock_file_configured"), Json::Bool(cfg.lock_file.is_some())),
        (String::from_str("decision"), Json::Str(decision.decision.clone())),
        (String::from_str("confidence"), confidence),
        (String::from_str("reason"), Json::Str(decision.reason.clone())),
        (String::from_str("decision_source"), Json::Str(decision.source.clone())),
        (String::from_str("capture_source"), source),
        (String::from_str("active_window_kind"), kind),
        (String::from_str("ran"), Json::Array(items)),
    ];
    proof {
        lemma_view_members(m@);
        assert(view_members(m@) =~= seq![
            ("ts_ms"@, JsonV::Number(decimal(ts_ms as nat))),
            ("tool"@, JsonV::Str("codex-cua-resume-assist"@)),
            ("model"@, JsonV::Str(cfg.model@)),
            ("execute"@, JsonV::Bool(cfg.execute)),
            ("dry_run"@, JsonV::Bool(cfg.dry_run)),
            ("exec_fallback_configured"@, JsonV::Bool(cfg.exec_fallback is Some)),
            ("preflight_configured"@, JsonV::Bool(cfg.preflight_command is Some)),
            ("fallback_prompt_configured"@, JsonV::Bool(cfg.fallback_prompt_file is Some || cfg.fallback_prompt_stdin)),
            ("lock_file_configured"@, JsonV::Bool(cfg.lock_file is Some)),
            ("decision"@, JsonV::Str(decision.decision@)),
            ("confidence"@, m@[10].1@),
            ("reason"@, JsonV::Str(decision.reason@)),
            ("decision_source"@, JsonV::Str(decision.source@)),
            ("capture_source"@, m@[13].1@),
            ("active_window_kind"@, m@[14].1@),
            ("ran"@, JsonV::Array(texts_json(strings_view(ran@)))),
        ]);
    }
    Json::Object(m)
}

} // verus!
