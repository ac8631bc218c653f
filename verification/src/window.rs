//! Logic of the Windows capture helper: what kind of window is in front,
//! which text may be typed, and how captured pixels are stored.

use vstd::prelude::*;
use crate::number::{decimal, decimal_string, signed_decimal, signed_decimal_string};
use crate::text::{
    chars_of, contains_chars, contains_spec, has_char, contains_char, lower_spec, string_of,
    str_eq, to_ascii_lower, trim, trim_spec, utf8_len, utf8_len_exceeds,
};

verus! {

/// The kind of the foreground window. Terminal emulators are told apart from
/// shells: WezTerm and Windows Terminal win over any shell name in the title.
pub open spec fn classify_spec(process_name: Seq<char>, title: Seq<char>, class_name: Seq<char>) -> Seq<char> {
    let p = lower_spec(process_name);
    let t = lower_spec(title);
    let c = lower_spec(class_name);
    if contains_spec(p, "wezterm"@) || contains_spec(t, "wezterm"@) {
        "wezterm"@
    } else if contains_spec(p, "windowsterminal"@) || contains_spec(c, "cascadia"@) {
        "windows-terminal"@
    } else if p == "powershell.exe"@ || p == "pwsh.exe"@ || contains_spec(t, "powershell"@)
        || contains_spec(c, "powershell"@) {
        "powershell"@
    } else if p == "cmd.exe"@ || contains_spec(t, "command prompt"@) {
        "cmd"@
    } else {
        "other"@
    }
}

fn has(v: &Vec<char>, lit: &str) -> (b: bool)
    ensures
        b == contains_spec(v@, lit@),
{
    let p = chars_of(lit);
    contains_chars(v, &p)
}

fn is(v: &Vec<char>, lit: &str) -> (b: bool)
    ensures
        b == (v@ == lit@),
{
    let s = string_of(v);
    str_eq(s.as_str(), lit)
}

/// The kind of a window from its process name, title and class name.
pub fn classify_window(process_name: &str, title: &str, class_name: &str) -> (k: String)
    ensures
        k@ == classify_spec(process_name@, title@, class_name@),
{
    let p = to_ascii_lower(&chars_of(process_name));
    let t = to_ascii_lower(&chars_of(title));
    let c = to_ascii_lower(&chars_of(class_name));
    if has(&p, "wezterm") || has(&t, "wezterm") {
        String::from_str("wezterm")
    } else if has(&p, "windowsterminal") || has(&c, "cascadia") {
        String::from_str("windows-terminal")
    } else if is(&p, "powershell.exe") || is(&p, "pwsh.exe") || has(&t, "powershell") || has(
        &c,
        "powershell",
    ) {
        String::from_str("powershell")
    } else if is(&p, "cmd.exe") || has(&t, "command prompt") {
        String::from_str("cmd")
    } else {
        String::from_str("other")
    }
}

/// The last path separator (`\` or `/`) below `hi`.
pub open spec fn last_sep_below(s: Seq<char>, hi: int) -> Option<int>
    decreases hi,
{
    if hi <= 0 || hi > s.len() {
        None
    } else if s[hi - 1] == '\\' || s[hi - 1] == '/' {
        Some(hi - 1)
    } else {
        last_sep_below(s, hi - 1)
    }
}

/// The file name of a process image path: the text after the last `\` or `/`.
pub open spec fn process_name_spec(path: Seq<char>) -> Seq<char> {
    match last_sep_below(path, path.len() as int) {
        Some(i) => path.skip(i + 1),
        None => path,
    }
}

pub fn process_name_from_path(path: &str) -> (r: String)
    ensures
        r@ == process_name_spec(path@),
{
    let v = chars_of(path);
    let mut i: usize = v.len();
    while i > 0
        invariant
            i <= v@.len(),
            last_sep_below(v@, v@.len() as int) == last_sep_below(v@, i as int),
        ensures
            match last_sep_below(v@, v@.len() as int) {
                Some(j) => i > 0 && j == i - 1,
                None => i == 0,
            },
        decreases i,
    {
        if v[i - 1] == '\\' || v[i - 1] == '/' {
            break;
        }
        i = i - 1;
    }
    let mut out: Vec<char> = Vec::new();
    let mut j = i;
    while j < v.len()
        invariant
            i <= j <= v@.len(),
            out@ == v@.subrange(i as int, j as int),
        decreases v.len() - j,
    {
        out.push(v[j]);
        j = j + 1;
        assert(out@ =~= v@.subrange(i as int, j as int));
    }
    assert(v@.subrange(i as int, v@.len() as int) =~= v@.skip(i as int));
    assert(v@.skip(0) =~= v@);
    string_of(&out)
}

/// Text that may be typed into the foreground window: trimmed, not empty, at
/// most 80 bytes, on one line.
pub open spec fn type_text_spec(text: Seq<char>) -> Result<Seq<char>, Seq<char>> {
    let t = trim_spec(text);
    if t.len() == 0 || utf8_len(t) > 80 || has_char(t, '\n') || has_char(t, '\r') {
        Err("refusing unsafe --type text"@)
    } else {
        Ok(t)
    }
}

/// Checks the text of a `--type` request and returns what would be typed.
pub fn check_type_text(text: &str) -> (r: Result<String, String>)
    ensures
        match r {
            Ok(t) => type_text_spec(text@) == Ok::<Seq<char>, Seq<char>>(t@),
            Err(e) => type_text_spec(text@) == Err::<Seq<char>, Seq<char>>(e@),
        },
{
    let t = trim(text);
    let tv = chars_of(t.as_str());
    if tv.len() == 0 || utf8_len_exceeds(&tv, 80) || contains_char(&tv, '\n') || contains_char(&tv, '\r') {
        Err(String::from_str("refusing unsafe --type text"))
    } else {
        Ok(t)
    }
}

/// Whether the foreground window is still the one the caller expected.
pub fn expected_window_matches(expected: &str, hwnd: usize) -> (b: bool)
    ensures
        b == (trim_spec(expected@) == decimal(hwnd as nat)),
{
    let t = trim(expected);
    let h = decimal_string(hwnd as u128);
    str_eq(t.as_str(), h.as_str())
}

/// The error when the foreground window changed before typing.
pub fn window_changed_error(expected: &str, hwnd: usize) -> (s: String)
    ensures
        s@ == "foreground window changed before typing: expected_hwnd="@ + trim_spec(expected@)
            + " actual_hwnd="@ + decimal(hwnd as nat),
{
    let t = trim(expected);
    String::from_str("foreground window changed before typing: expected_hwnd=").concat(t.as_str()).concat(
        " actual_hwnd=",
    ).concat(decimal_string(hwnd as u128).as_str())
}

/// The error for a capture region with no area, if it has none.
pub open spec fn region_error_spec(what: Seq<char>, width: int, height: int) -> Option<Seq<char>> {
    if width <= 0 || height <= 0 {
        Some("invalid "@ + what + " size "@ + signed_decimal(width) + "x"@ + signed_decimal(height))
    } else {
        None
    }
}

/// `what` is `virtual screen` or `foreground window`.
pub fn region_error(what: &str, width: i32, height: i32) -> (r: Option<String>)
    ensures
        match r {
            Some(e) => region_error_spec(what@, width as int, height as int) == Some(e@),
            None => region_error_spec(what@, width as int, height as int) is None,
        },
{
    if width <= 0 || height <= 0 {
        Some(String::from_str("invalid ").concat(what).concat(" size ").concat(
            signed_decimal_string(width as i64).as_str(),
        ).concat("x").concat(signed_decimal_string(height as i64).as_str()))
    } else {
        None
    }
}

/// The error when both the virtual screen and the foreground window failed.
pub fn both_captures_failed(screen_err: &str, window_err: &str) -> (s: String)
    ensures
        s@ == screen_err@ + "; foreground window capture failed: "@ + window_err@,
{
    String::from_str(screen_err).concat("; foreground window capture failed: ").concat(window_err)
}

/// Why the foreground window was captured instead of the screen.
pub fn screen_fallback_reason(screen_err: &str) -> (s: String)
    ensures
        s@ == "virtual screen capture failed: "@ + screen_err@,
{
    String::from_str("virtual screen capture failed: ").concat(screen_err)
}

/// The stored pixel: blue and red swapped in every whole group of four bytes,
/// alpha set to opaque; a trailing partial group is left as it was.
pub open spec fn rgba_byte(old: Seq<u8>, i: int) -> u8 {
    let whole = old.len() - old.len() % 4;
    if i >= whole {
        old[i]
    } else if i % 4 == 0 {
        old[i + 2]
    } else if i % 4 == 2 {
        old[i - 2]
    } else if i % 4 == 3 {
        255
    } else {
        old[i]
    }
}

/// Turns BGRA pixels from the screen into opaque RGBA pixels, in place.
pub fn bgra_to_rgba(pixels: &mut Vec<u8>)
    ensures
        final(pixels)@.len() == old(pixels)@.len(),
        forall|i: int| 0 <= i < old(pixels)@.len() ==> #[trigger] final(pixels)@[i] == rgba_byte(old(pixels)@, i),
{
    let n = pixels.len();
    let whole = n - n % 4;
    let mut i: usize = 0;
    while i < whole
        invariant
            whole == n - n % 4,
            i <= whole,
            i % 4 == 0,
            pixels@.len() == n,
            n == old(pixels)@.len(),
            forall|k: int| 0 <= k < i ==> #[trigger] pixels@[k] == rgba_byte(old(pixels)@, k),
            forall|k: int| i <= k < n ==> #[trigger] pixels@[k] == old(pixels)@[k],
        decreases whole - i,
    {
        let b = pixels[i];
        let r = pixels[i + 2];
        pixels.set(i, r);
        pixels.set(i + 2, b);
        pixels.set(i + 3, 255);
        proof {
            assert forall|k: int| i <= k < i + 4 implies #[trigger] pixels@[k] == rgba_byte(old(pixels)@, k) by {
                assert(k % 4 == k - i);
            }
        }
        i = i + 4;
    }
}

} // verus!
