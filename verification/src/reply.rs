//! Reading the model's replies: telemetry strings, computer calls and the
//! decision text.

use vstd::prelude::*;
use crate::json::{
    get_spec, lemma_view_items, lemma_view_members, str_spec, view_items, view_json, view_members, Json,
    JsonV,
};
use crate::text::{
    char_width_of, chars_of, contains, contains_spec, str_eq, lemma_utf8_len_take_step, lemma_utf8_len_take_strict, string_of,
    utf8_len,
};

verus! {

/// The views of a list of keys.
pub open spec fn keys_view(path: Seq<&str>) -> Seq<Seq<char>> {
    path.map_values(|k: &str| k@)
}

/// Follows `path` through nested objects; a missing step yields `null`.
pub open spec fn walk(v: JsonV, path: Seq<Seq<char>>) -> JsonV
    decreases path.len(),
{
    if path.len() == 0 {
        v
    } else {
        let next = match get_spec(v, path[0]) {
            Some(x) => x,
            None => JsonV::Null,
        };
        walk(next, path.drop_first())
    }
}

/// Every line break replaced by a space.
pub open spec fn flatten_lines(s: Seq<char>) -> Seq<char> {
    s.map_values(|c: char| if c == '\n' { ' ' } else { c })
}

/// The string found at `path`, or the empty string, on one line.
pub open spec fn text_at(v: JsonV, path: Seq<Seq<char>>) -> Seq<char> {
    match str_spec(walk(v, path)) {
        Some(s) => flatten_lines(s),
        None => Seq::empty(),
    }
}

/// Longest telemetry string, in bytes, before it is cut.
pub open spec fn telemetry_limit() -> nat {
    180
}

/// The cut at byte `limit` falls on a character boundary (or no cut is made).
pub open spec fn cut_ok(s: Seq<char>, limit: nat) -> bool {
    utf8_len(s) <= limit || exists|k: int| 0 <= k <= s.len() && utf8_len(s.take(k)) == limit
}

/// A long text cut to its first `telemetry_limit()` bytes, followed by `...`.
pub open spec fn shorten(s: Seq<char>) -> Seq<char> {
    if utf8_len(s) > telemetry_limit() {
        let k = choose|k: int| 0 <= k <= s.len() && utf8_len(s.take(k)) == telemetry_limit();
        s.take(k) + seq!['.', '.', '.']
    } else {
        s
    }
}

/// The text at `path` in the form the prompt shows it.
pub open spec fn short_text_at(v: JsonV, path: Seq<Seq<char>>) -> Seq<char> {
    shorten(text_at(v, path))
}

/// The value at `path` (with `null` for a missing step).
pub fn value_at<'a>(value: &'a Json, path: &[&str], null: &'a Json) -> (r: &'a Json)
    requires
        null@ == JsonV::Null,
    ensures
        r@ == walk(value@, keys_view(path@)),
{
    let mut cursor: &Json = value;
    let mut i: usize = 0;
    assert(keys_view(path@).skip(0) =~= keys_view(path@));
    while i < path.len()
        invariant
            i <= path@.len(),
            null@ == JsonV::Null,
            walk(value@, keys_view(path@)) == walk(cursor@, keys_view(path@).skip(i as int)),
        decreases path.len() - i,
    {
        let ghost rest = keys_view(path@).skip(i as int);
        assert(rest[0] == path@[i as int]@);
        assert(rest.drop_first() =~= keys_view(path@).skip(i + 1));
        cursor = match cursor.get(path[i]) {
            Some(x) => x,
            None => null,
        };
        i = i + 1;
    }
    assert(keys_view(path@).skip(i as int) =~= Seq::<Seq<char>>::empty());
    cursor
}

fn flatten_lines_exec(v: &Vec<char>) -> (r: Vec<char>)
    ensures
        r@ == flatten_lines(v@),
{
    let mut r: Vec<char> = Vec::new();
    let mut i: usize = 0;
    while i < v.len()
        invariant
            i <= v@.len(),
            r@ == flatten_lines(v@.take(i as int)),
        decreases v.len() - i,
    {
        let c = v[i];
        r.push(if c == '\n' { ' ' } else { c });
        i = i + 1;
        assert(r@ =~= flatten_lines(v@.take(i as int)));
    }
    assert(v@.take(v@.len() as int) =~= v@);
    r
}

fn text_at_exec(value: &Json, path: &[&str]) -> (r: Vec<char>)
    ensures
        r@ == text_at(value@, keys_view(path@)),
{
    let null = Json::Null;
    let cursor = value_at(value, path, &null);
    match cursor.as_str() {
        Some(s) => {
            let v = chars_of(s.as_str());
            flatten_lines_exec(&v)
        },
        None => Vec::new(),
    }
}

/// Scans the first bytes of `v`: returns how many characters are read before
/// the byte count reaches `limit`, and that byte count.
fn scan_bytes(v: &Vec<char>, limit: usize) -> (r: (usize, usize))
    requires
        limit <= 1000,
    ensures
        r.0 <= v@.len(),
        r.1 == utf8_len(v@.take(r.0 as int)),
        r.0 < v@.len() ==> r.1 >= limit,
        r.0 > 0 ==> utf8_len(v@.take(r.0 - 1)) < limit,
{
    let mut total: usize = 0;
    let mut i: usize = 0;
    while i < v.len() && total < limit
        invariant
            i <= v@.len(),
            total == utf8_len(v@.take(i as int)),
            total < limit + 4,
            limit <= 1000,
            i > 0 ==> utf8_len(v@.take(i - 1)) < limit,
        decreases v.len() - i,
    {
        proof {
            lemma_utf8_len_take_step(v@, i as int);
        }
        total = total + char_width_of(v[i]);
        i = i + 1;
    }
    (i, total)
}

proof fn lemma_scan_decides(s: Seq<char>, i: int, total: nat, limit: nat)
    requires
        0 <= i <= s.len(),
        total == utf8_len(s.take(i)),
        i < s.len() ==> total >= limit,
        i > 0 ==> utf8_len(s.take(i - 1)) < limit,
    ensures
        cut_ok(s, limit) <==> (total <= limit),
        total == limit && i < s.len() ==> utf8_len(s) > limit,
        total < limit ==> utf8_len(s) < limit,
        total == limit && i == s.len() ==> utf8_len(s) == limit,
        total > limit ==> utf8_len(s) > limit,
{
    assert(s.take(s.len() as int) =~= s);
    if i < s.len() {
        lemma_utf8_len_take_strict(s, i, s.len() as int);
    }
    if total <= limit {
        if total == limit {
            assert(utf8_len(s.take(i)) == limit);
        }
    } else {
        assert(i > 0);
        if i < s.len() {
            lemma_utf8_len_take_strict(s, i, s.len() as int);
        }
        assert forall|k: int| 0 <= k <= s.len() implies utf8_len(s.take(k)) != limit by {
            if k < i - 1 {
                lemma_utf8_len_take_strict(s, k, i - 1);
            } else if k > i {
                lemma_utf8_len_take_strict(s, i, k);
            }
        }
    }
}

/// Whether the telemetry string at `path` can be cut without splitting a character.
pub fn telemetry_cut_ok(value: &Json, path: &[&str]) -> (b: bool)
    ensures
        b == cut_ok(text_at(value@, keys_view(path@)), telemetry_limit()),
{
    let v = text_at_exec(value, path);
    let (i, total) = scan_bytes(&v, 180);
    proof {
        lemma_scan_decides(v@, i as int, total as nat, 180);
    }
    total <= 180
}

/// The string at `path` (empty when absent or not a string), on one line, cut
/// to its first 180 bytes followed by `...` when longer.
pub fn short_json_string(value: &Json, path: &[&str]) -> (r: String)
    requires
        cut_ok(text_at(value@, keys_view(path@)), telemetry_limit()),
    ensures
        r@ == short_text_at(value@, keys_view(path@)),
{
    let v = text_at_exec(value, path);
    let (i, total) = scan_bytes(&v, 180);
    proof {
        lemma_scan_decides(v@, i as int, total as nat, 180);
    }
    if total == 180 && i < v.len() {
        let mut out: Vec<char> = Vec::new();
        let mut j: usize = 0;
        while j < i
            invariant
                j <= i <= v@.len(),
                out@ == v@.take(j as int),
            decreases i - j,
        {
            out.push(v[j]);
            j = j + 1;
            assert(out@ =~= v@.take(j as int));
        }
        out.push('.');
        out.push('.');
        out.push('.');
        proof {
            let s = v@;
            let k = choose|k: int| 0 <= k <= s.len() && utf8_len(s.take(k)) == telemetry_limit();
            if k < i {
                lemma_utf8_len_take_strict(s, k, i as int);
            } else if k > i {
                lemma_utf8_len_take_strict(s, i as int, k);
            }
            assert(k == i);
            assert(out@ =~= s.take(i as int) + seq!['.', '.', '.']);
        }
        string_of(&out)
    } else {
        string_of(&v)
    }
}


/// The views of a list of strings.
pub open spec fn strings_view(s: Seq<String>) -> Seq<Seq<char>> {
    s.map_values(|x: String| x@)
}

/// The text an object carries itself: its `text` member when its `type` is
/// `output_text` or `text` and `text` is a string.
pub open spec fn own_text(v: JsonV) -> Seq<Seq<char>> {
    match get_spec(v, "type"@) {
        Some(t) => match str_spec(t) {
            Some(ts) => if ts == "output_text"@ || ts == "text"@ {
                match get_spec(v, "text"@) {
                    Some(x) => match str_spec(x) {
                        Some(xs) => seq![xs],
                        None => Seq::empty(),
                    },
                    None => Seq::empty(),
                }
            } else {
                Seq::empty()
            },
            None => Seq::empty(),
        },
        None => Seq::empty(),
    }
}

/// Texts gathered from a list of values, in order.
pub open spec fn texts_items(s: Seq<JsonV>) -> Seq<Seq<char>>
    decreases s,
{
    if s.len() == 0 {
        Seq::empty()
    } else {
        texts_items(s.drop_last()) + texts(s.last())
    }
}

/// Texts gathered from the members of an object, in member order.
pub open spec fn texts_members(m: Seq<(Seq<char>, JsonV)>) -> Seq<Seq<char>>
    decreases m,
{
    if m.len() == 0 {
        Seq::empty()
    } else {
        texts_members(m.drop_last()) + texts(m.last().1)
    }
}

/// Every candidate decision text in a reply, depth first: `output_text`/`text`
/// parts, and bare strings that contain `"decision"` (with the quotes).
pub open spec fn texts(v: JsonV) -> Seq<Seq<char>>
    decreases v,
{
    match v {
        JsonV::Object(m) => own_text(v) + texts_members(m),
        JsonV::Array(a) => texts_items(a),
        JsonV::Str(s) => if contains_spec(s, "\"decision\""@) {
            seq![s]
        } else {
            Seq::empty()
        },
        _ => Seq::empty(),
    }
}

fn str_is(x: Option<&Json>, lit: &str) -> (b: bool)
    ensures
        b == (x matches Some(j) && str_spec(j@) == Some(lit@)),
{
    match x {
        Some(j) => match j.as_str() {
            Some(s) => str_eq(s.as_str(), lit),
            None => false,
        },
        None => false,
    }
}

/// Appends every candidate decision text of `value` to `out`.
pub fn collect_text(value: &Json, out: &mut Vec<String>)
    ensures
        strings_view(final(out)@) == strings_view(old(out)@) + texts(value@),
    decreases value,
{
    match value {
        Json::Object(m) => {
            let ghost start = strings_view(out@);
            let is_text_type = str_is(value.get("type"), "output_text") || str_is(
                value.get("type"),
                "text",
            );
            if is_text_type {
                match value.get("text") {
                    Some(t) => match t.as_str() {
                        Some(ts) => {
                            out.push(ts.clone());
                        },
                        None => {},
                    },
                    None => {},
                }
            }
            assert(strings_view(out@) =~= start + own_text(value@));
            proof {
                lemma_view_members(m@);
            }
            let ghost vm = view_members(m@);
            let mut i: usize = 0;
            assert(vm.take(0) =~= Seq::<(Seq<char>, JsonV)>::empty());
            while i < m.len()
                invariant
                    i <= m@.len(),
                    *value == Json::Object(*m),
                    vm == view_members(m@),
                    vm.len() == m@.len(),
                    forall|k: int|
                        0 <= k < m@.len() ==> #[trigger] vm[k] == (m@[k].0@, view_json(m@[k].1)),
                    strings_view(out@) == start + own_text(value@) + texts_members(
                        vm.take(i as int),
                    ),
                decreases m.len() - i,
            {
                assert(decreases_to!(*value => (*value)->Object_0));
                assert(decreases_to!(*m => m@));
                assert(decreases_to!(m@ => m@[i as int]));
                assert(decreases_to!(m@[i as int] => m@[i as int].1));
                collect_text(&m[i].1, out);
                assert(vm.take(i + 1).drop_last() =~= vm.take(i as int));
                assert(vm.take(i + 1).last() == vm[i as int]);
                i = i + 1;
            }
            assert(vm.take(m@.len() as int) =~= vm);
        },
        Json::Array(a) => {
            let ghost start = strings_view(out@);
            proof {
                lemma_view_items(a@);
            }
            let ghost va = view_items(a@);
            let mut i: usize = 0;
            assert(va.take(0) =~= Seq::<JsonV>::empty());
            assert(strings_view(out@) =~= start + texts_items(va.take(0)));
            while i < a.len()
                invariant
                    i <= a@.len(),
                    *value == Json::Array(*a),
                    va == view_items(a@),
                    va.len() == a@.len(),
                    forall|k: int| 0 <= k < a@.len() ==> #[trigger] va[k] == view_json(a@[k]),
                    strings_view(out@) == start + texts_items(va.take(i as int)),
                decreases a.len() - i,
            {
                assert(decreases_to!(*value => (*value)->Array_0));
                assert(decreases_to!(*a => a@));
                assert(decreases_to!(a@ => a@[i as int]));
                collect_text(&a[i], out);
                assert(va.take(i + 1).drop_last() =~= va.take(i as int));
                assert(va.take(i + 1).last() == va[i as int]);
                i = i + 1;
            }
            assert(va.take(a@.len() as int) =~= va);
        },
        Json::Str(s) => {
            if contains(s.as_str(), "\"decision\"") {
                out.push(s.clone());
                assert(strings_view(out@) =~= strings_view(old(out)@) + texts(value@));
            } else {
                assert(strings_view(out@) =~= strings_view(old(out)@) + texts(value@));
            }
        },
        _ => {
            assert(strings_view(out@) =~= strings_view(old(out)@) + texts(value@));
        },
    }
}


/// The first of `ts` at or after `i` that contains `decision`.
pub open spec fn first_mentioning_from(ts: Seq<Seq<char>>, i: int) -> Option<Seq<char>>
    decreases ts.len() - i,
{
    if i < 0 || i >= ts.len() {
        None
    } else if contains_spec(ts[i], "decision"@) {
        Some(ts[i])
    } else {
        first_mentioning_from(ts, i + 1)
    }
}

/// The decision text of a reply: the first collected text that mentions `decision`.
pub open spec fn decision_text_spec(v: JsonV) -> Option<Seq<char>> {
    first_mentioning_from(texts(v), 0)
}

/// The first collected text of `value` that mentions `decision`.
pub fn extract_decision_text(value: &Json) -> (r: Option<String>)
    ensures
        match r {
            Some(t) => decision_text_spec(value@) == Some(t@),
            None => decision_text_spec(value@) is None,
        },
{
    let mut texts_found: Vec<String> = Vec::new();
    collect_text(value, &mut texts_found);
    assert(strings_view(texts_found@) =~= texts(value@));
    let ghost ts = texts(value@);
    let mut i: usize = 0;
    while i < texts_found.len()
        invariant
            i <= texts_found@.len(),
            ts == strings_view(texts_found@),
            ts == texts(value@),
            ts.len() == texts_found@.len(),
            first_mentioning_from(ts, 0) == first_mentioning_from(ts, i as int),
        decreases texts_found.len() - i,
    {
        assert(ts[i as int] == texts_found@[i as int]@);
        if contains(texts_found[i].as_str(), "decision") {
            return Some(texts_found[i].clone());
        }
        i = i + 1;
    }
    None
}

/// The call id of a computer call item: `call_id` when present, else `id`,
/// and only when that member is a string.
pub open spec fn call_id_of(item: JsonV) -> Option<Seq<char>> {
    let idv = match get_spec(item, "call_id"@) {
        Some(x) => Some(x),
        None => get_spec(item, "id"@),
    };
    match idv {
        Some(x) => str_spec(x),
        None => None,
    }
}

/// The actions requested by a computer call item: the `actions` array, else
/// the single `action`, else none.
pub open spec fn actions_of(item: JsonV) -> Seq<JsonV> {
    match get_spec(item, "actions"@) {
        Some(JsonV::Array(a)) => a,
        _ => match get_spec(item, "action"@) {
            Some(a) => seq![a],
            None => Seq::empty(),
        },
    }
}

pub open spec fn is_computer_call(item: JsonV) -> bool {
    match get_spec(item, "type"@) {
        Some(t) => str_spec(t) == Some("computer_call"@),
        None => false,
    }
}

/// The first computer call among `items` at or after `i`; a first computer call
/// without a string id ends the search with nothing.
pub open spec fn call_from(items: Seq<JsonV>, i: int) -> Option<(Seq<char>, Seq<JsonV>)>
    decreases items.len() - i,
{
    if i < 0 || i >= items.len() {
        None
    } else if is_computer_call(items[i]) {
        match call_id_of(items[i]) {
            Some(id) => Some((id, actions_of(items[i]))),
            None => None,
        }
    } else {
        call_from(items, i + 1)
    }
}

/// The first computer call in the `output` array of a reply.
pub open spec fn computer_call_spec(v: JsonV) -> Option<(Seq<char>, Seq<JsonV>)> {
    match get_spec(v, "output"@) {
        Some(JsonV::Array(items)) => call_from(items, 0),
        _ => None,
    }
}

fn actions_exec(item: &Json) -> (r: Vec<Json>)
    ensures
        view_items(r@) == actions_of(item@),
{
    match item.get("actions") {
        Some(a) => match a.as_array() {
            Some(_) => {
                let c = a.duplicate();
                match c {
                    Json::Array(v) => {
                        return v;
                    },
                    _ => {},
                }
            },
            None => {},
        },
        None => {},
    }
    match item.get("action") {
        Some(a) => {
            let c = a.duplicate();
            let mut v: Vec<Json> = Vec::new();
            v.push(c);
            proof {
                lemma_view_items(v@);
                assert(view_items(v@) =~= seq![a@]);
            }
            v
        },
        None => {
            let v: Vec<Json> = Vec::new();
            assert(view_items(v@) =~= Seq::<JsonV>::empty());
            v
        },
    }
}

/// The first computer call of a reply: its call id and the actions it asks for.
pub fn find_computer_call(value: &Json) -> (r: Option<(String, Vec<Json>)>)
    ensures
        match r {
            Some((id, actions)) => computer_call_spec(value@) == Some((id@, view_items(actions@))),
            None => computer_call_spec(value@) is None,
        },
{
    let output = match value.get("output") {
        Some(o) => o,
        None => {
            return None;
        },
    };
    let items = match output.as_array() {
        Some(a) => a,
        None => {
            return None;
        },
    };
    proof {
        lemma_view_items(items@);
    }
    let ghost vi = view_items(items@);
    let mut i: usize = 0;
    while i < items.len()
        invariant
            i <= items@.len(),
            vi.len() == items@.len(),
            forall|k: int| 0 <= k < items@.len() ==> #[trigger] vi[k] == view_json(items@[k]),
            computer_call_spec(value@) == call_from(vi, i as int),
        decreases items.len() - i,
    {
        let item = &items[i];
        assert(item@ == vi[i as int]);
        if str_is(item.get("type"), "computer_call") {
            let idv = match item.get("call_id") {
                Some(x) => Some(x),
                None => item.get("id"),
            };
            let id = match idv {
                Some(x) => match x.as_str() {
                    Some(s) => s.clone(),
                    None => {
                        return None;
                    },
                },
                None => {
                    return None;
                },
            };
            let actions = actions_exec(item);
            return Some((id, actions));
        }
        i = i + 1;
    }
    None
}

} // verus!
