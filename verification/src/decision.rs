//! Decisions: what the model recommends, the safe fallbacks, and what the
//! assistant does with a decision.

use vstd::prelude::*;
use crate::args::{opt_view, Config};
use crate::json::{get_spec, lemma_view_items, str_spec, view_items, Json, JsonV};
use crate::reply::{computer_call_spec, find_computer_call};
use crate::text::{
    chars_of, contains, contains_spec, find_char, find_from, rfind_below, rfind_char, str_eq,
    string_of,
};

verus! {

/// How sure a decision is: the number the model reported (its literal text),
/// or a fixed value in hundredths.
pub enum Confidence {
    Reported(String),
    Hundredths(u32),
}

pub enum ConfidenceV {
    Reported(Seq<char>),
    Hundredths(nat),
}

impl View for Confidence {
    type V = ConfidenceV;

    open spec fn view(&self) -> ConfidenceV {
        match self {
            Confidence::Reported(t) => ConfidenceV::Reported(t@),
            Confidence::Hundredths(h) => ConfidenceV::Hundredths(*h as nat),
        }
    }
}

/// A recommendation: `resume`, `wait` or `noop` (or whatever the model said).
pub struct Decision {
    pub decision: String,
    pub confidence: Confidence,
    pub reason: String,
    pub source: String,
}

pub struct DecisionV {
    pub decision: Seq<char>,
    pub confidence: ConfidenceV,
    pub reason: Seq<char>,
    pub source: Seq<char>,
}

impl View for Decision {
    type V = DecisionV;

    open spec fn view(&self) -> DecisionV {
        DecisionV {
            decision: self.decision@,
            confidence: self.confidence@,
            reason: self.reason@,
            source: self.source@,
        }
    }
}

pub open spec fn wait_text() -> Seq<char> {
    "wait"@
}

/// The conservative decision used when no model decision is available.
pub open spec fn fallback_decision_spec(reason: Seq<char>) -> DecisionV {
    DecisionV {
        decision: wait_text(),
        confidence: ConfidenceV::Hundredths(35),
        reason,
        source: "local_safe_fallback"@,
    }
}

/// The conservative decision used when no model decision is available: wait.
pub fn fallback_decision(reason: &str) -> (d: Decision)
    ensures
        d@ == fallback_decision_spec(reason@),
{
    Decision {
        decision: String::from_str("wait"),
        confidence: Confidence::Hundredths(35),
        reason: String::from_str(reason),
        source: String::from_str("local_safe_fallback"),
    }
}

pub open spec fn blocked_reason() -> Seq<char> {
    "모델이 화면 조작 action을 요청해서 watcher에서는 실행하지 않고 대기"@
}

/// The decision returned when the model asks for a click, typing, scrolling or
/// any other screen action: wait, and run nothing.
pub open spec fn blocked_decision_spec() -> DecisionV {
    DecisionV {
        decision: wait_text(),
        confidence: ConfidenceV::Hundredths(20),
        reason: blocked_reason(),
        source: "computer_use_blocked_action"@,
    }
}

pub fn blocked_action_decision() -> (d: Decision)
    ensures
        d@ == blocked_decision_spec(),
{
    Decision {
        decision: String::from_str("wait"),
        confidence: Confidence::Hundredths(20),
        reason: String::from_str("모델이 화면 조작 action을 요청해서 watcher에서는 실행하지 않고 대기"),
        source: String::from_str("computer_use_blocked_action"),
    }
}

/// The same decision, attributed to `source`.
pub fn with_decision_source(decision: Decision, source: &str) -> (d: Decision)
    ensures
        d@ == (DecisionV { source: source@, ..decision@ }),
{
    let mut decision = decision;
    decision.source = String::from_str(source);
    decision
}

/// The error text of a continuation that refers to a response the service no
/// longer has.
pub open spec fn previous_response_missing_spec(error: Seq<char>) -> bool {
    contains_spec(error, "previous_response_not_found"@) || contains_spec(
        error,
        "Previous response with id"@,
    )
}

/// Whether a request error says that the previous response is gone.
pub fn is_previous_response_not_found(error: &str) -> (b: bool)
    ensures
        b == previous_response_missing_spec(error@),
{
    contains(error, "previous_response_not_found") || contains(error, "Previous response with id")
}

/// The part of a reply text that should hold the decision object: from the
/// first `{` to the last `}`.
pub open spec fn decision_span_spec(s: Seq<char>) -> Option<Seq<char>> {
    match (find_from(s, '{', 0), rfind_below(s, '}', s.len() as int)) {
        (Some(a), Some(b)) => Some(s.subrange(a, b + 1)),
        _ => None,
    }
}

/// Whether the span is well formed: the last `}` does not stand before the
/// character that precedes the first `{` (taking such a span panics).
pub open spec fn decision_span_ok_spec(s: Seq<char>) -> bool {
    match (find_from(s, '{', 0), rfind_below(s, '}', s.len() as int)) {
        (Some(a), Some(b)) => a <= b + 1,
        _ => true,
    }
}

pub fn decision_span_ok(text: &str) -> (b: bool)
    ensures
        b == decision_span_ok_spec(text@),
{
    let v = chars_of(text);
    match (find_char(&v, '{'), rfind_char(&v, '}')) {
        (Some(a), Some(b)) => a <= b + 1,
        _ => true,
    }
}

/// The text from the first `{` to the last `}`, both included.
pub fn decision_span(text: &str) -> (r: Option<String>)
    requires
        decision_span_ok_spec(text@),
    ensures
        match r {
            Some(s) => decision_span_spec(text@) == Some(s@),
            None => decision_span_spec(text@) is None,
        },
{
    let v = chars_of(text);
    let a = match find_char(&v, '{') {
        Some(a) => a,
        None => {
            return None;
        },
    };
    let b = match rfind_char(&v, '}') {
        Some(b) => b,
        None => {
            return None;
        },
    };
    let mut out: Vec<char> = Vec::new();
    let mut i = a;
    while i <= b
        invariant
            a <= i <= b + 1,
            b < v.len(),
            out@ == v@.subrange(a as int, i as int),
        decreases b + 1 - i,
    {
        out.push(v[i]);
        i = i + 1;
        assert(out@ =~= v@.subrange(a as int, i as int));
    }
    Some(string_of(&out))
}

/// The decision object a model returned: `decision` must be a string;
/// `confidence` is the number given (zero when absent or not a number);
/// `reason` is the string given (empty otherwise).
pub open spec fn decision_from_json_spec(v: JsonV) -> Option<DecisionV> {
    match get_spec(v, "decision"@) {
        Some(d) => match str_spec(d) {
            Some(ds) => Some(
                DecisionV {
                    decision: ds,
                    confidence: match get_spec(v, "confidence"@) {
                        Some(JsonV::Number(t)) => ConfidenceV::Reported(t),
                        _ => ConfidenceV::Hundredths(0),
                    },
                    reason: match get_spec(v, "reason"@) {
                        Some(r) => match str_spec(r) {
                            Some(rs) => rs,
                            None => Seq::empty(),
                        },
                        None => Seq::empty(),
                    },
                    source: "openai"@,
                },
            ),
            None => None,
        },
        None => None,
    }
}

/// Reads a decision object.
pub fn decision_from_json(v: &Json) -> (r: Option<Decision>)
    ensures
        match r {
            Some(d) => decision_from_json_spec(v@) == Some(d@),
            None => decision_from_json_spec(v@) is None,
        },
{
    let decision = match v.get("decision") {
        Some(d) => match d.as_str() {
            Some(ds) => ds.clone(),
            None => {
                return None;
            },
        },
        None => {
            return None;
        },
    };
    let confidence = match v.get("confidence") {
        Some(c) => match c {
            Json::Number(t) => Confidence::Reported(t.clone()),
            _ => Confidence::Hundredths(0),
        },
        None => Confidence::Hundredths(0),
    };
    let reason = match v.get("reason") {
        Some(r) => match r.as_str() {
            Some(rs) => rs.clone(),
            None => String::new(),
        },
        None => String::new(),
    };
    Some(Decision { decision, confidence, reason, source: String::from_str("openai") })
}


/// The `type` of an action, or the empty text.
pub open spec fn action_type_spec(a: JsonV) -> Seq<char> {
    match get_spec(a, "type"@) {
        Some(t) => match str_spec(t) {
            Some(ts) => ts,
            None => Seq::empty(),
        },
        None => Seq::empty(),
    }
}

/// An action that would change the screen or the machine: anything with a type
/// other than `screenshot` and `wait`.
pub open spec fn is_screen_action(a: JsonV) -> bool {
    let t = action_type_spec(a);
    t.len() > 0 && t != "screenshot"@ && t != "wait"@
}

pub open spec fn any_screen_action(actions: Seq<JsonV>) -> bool {
    exists|i: int| 0 <= i < actions.len() && is_screen_action(#[trigger] actions[i])
}

fn screen_action(a: &Json) -> (b: bool)
    ensures
        b == is_screen_action(a@),
{
    let t = match a.get("type") {
        Some(t) => match t.as_str() {
            Some(ts) => ts.clone(),
            None => String::new(),
        },
        None => String::new(),
    };
    t.unicode_len() > 0 && !str_eq(t.as_str(), "screenshot") && !str_eq(t.as_str(), "wait")
}

/// Whether any requested action goes beyond looking at the screen.
pub fn has_blocked_action(actions: &Vec<Json>) -> (b: bool)
    ensures
        b == any_screen_action(view_items(actions@)),
{
    proof {
        lemma_view_items(actions@);
    }
    let mut i: usize = 0;
    while i < actions.len()
        invariant
            i <= actions@.len(),
            view_items(actions@).len() == actions@.len(),
            forall|k: int|
                0 <= k < actions@.len() ==> #[trigger] view_items(actions@)[k] == actions@[k]@,
            forall|k: int| 0 <= k < i ==> !is_screen_action(#[trigger] view_items(actions@)[k]),
        decreases actions.len() - i,
    {
        if screen_action(&actions[i]) {
            assert(is_screen_action(view_items(actions@)[i as int]));
            return true;
        }
        i = i + 1;
    }
    false
}

/// What one round of the observation loop leads to.
pub enum RoundStep {
    /// The reply carried a decision.
    Decided(Decision),
    /// The model asked for a screen action; the assistant waits instead.
    Blocked(Decision),
    /// The model asked for a screenshot for this call id.
    SendScreenshot(String),
    /// Neither a decision nor a computer call: give up.
    NoCall,
}

pub enum RoundStepV {
    Decided(DecisionV),
    Blocked(DecisionV),
    SendScreenshot(Seq<char>),
    NoCall,
}

impl View for RoundStep {
    type V = RoundStepV;

    open spec fn view(&self) -> RoundStepV {
        match self {
            RoundStep::Decided(d) => RoundStepV::Decided(d@),
            RoundStep::Blocked(d) => RoundStepV::Blocked(d@),
            RoundStep::SendScreenshot(id) => RoundStepV::SendScreenshot(id@),
            RoundStep::NoCall => RoundStepV::NoCall,
        }
    }
}

pub open spec fn round_spec(response: JsonV, parsed: Option<DecisionV>) -> RoundStepV {
    match parsed {
        Some(d) => RoundStepV::Decided(DecisionV { source: "computer_use"@, ..d }),
        None => match computer_call_spec(response) {
            None => RoundStepV::NoCall,
            Some((id, actions)) => if any_screen_action(actions) {
                RoundStepV::Blocked(blocked_decision_spec())
            } else {
                RoundStepV::SendScreenshot(id)
            },
        },
    }
}

/// One round of the observation loop. `parsed` is the decision read from the
/// reply's decision text, if any.
pub fn computer_use_round(response: &Json, parsed: Option<Decision>) -> (r: RoundStep)
    ensures
        r@ == round_spec(
            response@,
            match parsed {
                Some(d) => Some(d@),
                None => None,
            },
        ),
{
    match parsed {
        Some(d) => RoundStep::Decided(with_decision_source(d, "computer_use")),
        None => match find_computer_call(response) {
            None => RoundStep::NoCall,
            Some((id, actions)) => if has_blocked_action(&actions) {
                RoundStep::Blocked(blocked_action_decision())
            } else {
                RoundStep::SendScreenshot(id)
            },
        },
    }
}

/// What executing a decision amounts to.
pub enum ExecutionPlan {
    /// Nothing runs and nothing is reported.
    Nothing,
    /// Run this fallback command.
    RunFallback(String),
    /// Nothing runs; this note is reported.
    Report(String),
}

pub enum ExecutionPlanV {
    Nothing,
    RunFallback(Seq<char>),
    Report(Seq<char>),
}

impl View for ExecutionPlan {
    type V = ExecutionPlanV;

    open spec fn view(&self) -> ExecutionPlanV {
        match self {
            ExecutionPlan::Nothing => ExecutionPlanV::Nothing,
            ExecutionPlan::RunFallback(c) => ExecutionPlanV::RunFallback(c@),
            ExecutionPlan::Report(m) => ExecutionPlanV::Report(m@),
        }
    }
}

pub open spec fn no_fallback_note() -> Seq<char> {
    "resume recommended; no fallback command configured, nothing executed"@
}

/// Only `--execute` without `--dry-run` lets anything run, and only a
/// `resume` decision with a configured fallback command runs it.
pub open spec fn plan_spec(execute: bool, dry_run: bool, fallback: Option<Seq<char>>, d: Seq<char>) -> ExecutionPlanV {
    if dry_run || !execute {
        ExecutionPlanV::Nothing
    } else if d == "resume"@ {
        match fallback {
            Some(c) => ExecutionPlanV::RunFallback(c),
            None => ExecutionPlanV::Report(no_fallback_note()),
        }
    } else if d == "wait"@ || d == "noop"@ {
        ExecutionPlanV::Nothing
    } else {
        ExecutionPlanV::Report("unknown decision ignored: "@ + d)
    }
}

/// What executing `decision` under `cfg` amounts to.
pub fn plan_execution(cfg: &Config, decision: &Decision) -> (p: ExecutionPlan)
    ensures
        p@ == plan_spec(cfg.execute, cfg.dry_run, opt_view(cfg.exec_fallback), decision.decision@),
{
    if cfg.dry_run || !cfg.execute {
        return ExecutionPlan::Nothing;
    }
    let d = decision.decision.as_str();
    if str_eq(d, "resume") {
        match &cfg.exec_fallback {
            Some(c) => ExecutionPlan::RunFallback(c.clone()),
            None => ExecutionPlan::Report(
                String::from_str("resume recommended; no fallback command configured, nothing executed"),
            ),
        }
    } else if str_eq(d, "wait") || str_eq(d, "noop") {
        ExecutionPlan::Nothing
    } else {
        ExecutionPlan::Report(String::from_str("unknown decision ignored: ").concat(d))
    }
}


/// The first step of a run.
pub enum Start {
    /// Decide at once, without capturing the screen or calling the model.
    Decided(Decision),
    /// Capture the screen for the model.
    Capture,
}

/// With `--no-api` (the default) nothing is captured and the decision is the
/// local `wait` fallback; otherwise the screen is captured.
pub fn start_run(no_api: bool) -> (r: Start)
    ensures
        no_api <==> r is Decided,
        r matches Start::Decided(d) ==> d@ == fallback_decision_spec(
            "--no-api was set; no screenshot was sent to OpenAI"@,
        ),
{
    if no_api {
        Start::Decided(fallback_decision("--no-api was set; no screenshot was sent to OpenAI"))
    } else {
        Start::Capture
    }
}

/// The decision when no screen capture could be made.
pub fn capture_failed_decision() -> (d: Decision)
    ensures
        d@ == fallback_decision_spec("screen capture failed; manual inspection required"@),
{
    fallback_decision("screen capture failed; manual inspection required")
}

/// The decision once the model was consulted: its decision, or the local
/// `wait` fallback naming the error.
pub fn model_outcome(result: Result<Decision, String>) -> (d: Decision)
    ensures
        match result {
            Ok(m) => d@ == m@,
            Err(e) => d@ == fallback_decision_spec("Computer Use unavailable or failed: "@ + e@),
        },
{
    match result {
        Ok(d) => d,
        Err(e) => {
            let reason = String::from_str("Computer Use unavailable or failed: ").concat(e.as_str());
            fallback_decision(reason.as_str())
        },
    }
}

/// What is recorded as run: the reports of the execution, or its error.
pub fn execution_record(result: Result<Vec<String>, String>) -> (r: Vec<String>)
    ensures
        match result {
            Ok(v) => r@ == v@,
            Err(e) => r@.len() == 1 && r@[0]@ == "execute error: "@ + e@,
        },
{
    match result {
        Ok(v) => v,
        Err(e) => {
            let mut r: Vec<String> = Vec::new();
            r.push(String::from_str("execute error: ").concat(e.as_str()));
            r
        },
    }
}

} // verus!
