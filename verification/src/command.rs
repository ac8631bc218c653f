//! Planning the external commands the assistant runs, and reading their results.

use vstd::prelude::*;
use crate::args::opt_view;
use crate::number::{decimal, signed_decimal, decimal_string, signed_decimal_string};
use crate::text::{
    chars_of, contains_char, has_char, is_ws, string_of, to_ascii_lower_char, ascii_lower, trim,
    trim_spec, str_eq, rfind_char, rfind_below, split_chars, split_spec, lower_spec, to_ascii_lower,
};

verus! {

/// A program and its arguments.
pub struct CommandPlan {
    pub program: String,
    pub args: Vec<String>,
}

pub struct CommandPlanV {
    pub program: Seq<char>,
    pub args: Seq<Seq<char>>,
}

pub open spec fn strings_view(s: Seq<String>) -> Seq<Seq<char>> {
    s.map_values(|x: String| x@)
}

impl View for CommandPlan {
    type V = CommandPlanV;

    open spec fn view(&self) -> CommandPlanV {
        CommandPlanV { program: self.program@, args: strings_view(self.args@) }
    }
}

fn copy_strings(v: &Vec<String>) -> (r: Vec<String>)
    ensures
        strings_view(r@) == strings_view(v@),
{
    let mut r: Vec<String> = Vec::new();
    let mut i: usize = 0;
    while i < v.len()
        invariant
            i <= v@.len(),
            strings_view(r@) == strings_view(v@.take(i as int)),
        decreases v.len() - i,
    {
        let c = v[i].clone();
        assert(c@ == v@[i as int]@);
        let ghost before = r@;
        r.push(c);
        assert(strings_view(before) == strings_view(v@.take(i as int)));
        assert forall|k: int| 0 <= k < i implies #[trigger] r@[k]@ == v@[k]@ by {
            assert(strings_view(before)[k] == strings_view(v@.take(i as int))[k]);
        }
        i = i + 1;
        assert(strings_view(r@) =~= strings_view(v@.take(i as int)));
    }
    assert(v@.take(v@.len() as int) =~= v@);
    r
}

/// `cmd args…`, or, when the `timeout` program is available,
/// `timeout <seconds>s cmd args…`.
pub open spec fn timeout_plan_spec(
    cmd: Seq<char>,
    args: Seq<Seq<char>>,
    seconds: nat,
    timeout_available: bool,
) -> CommandPlanV {
    if !timeout_available {
        CommandPlanV { program: cmd, args }
    } else {
        CommandPlanV { program: "timeout"@, args: seq![decimal(seconds) + "s"@, cmd] + args }
    }
}

fn timeout_plan(cmd: &str, args: &Vec<String>, seconds: u64, timeout_available: bool) -> (p: CommandPlan)
    ensures
        p@ == timeout_plan_spec(cmd@, strings_view(args@), seconds as nat, timeout_available),
{
    if !timeout_available {
        return CommandPlan { program: String::from_str(cmd), args: copy_strings(args) };
    }
    let mut all: Vec<String> = Vec::new();
    all.push(decimal_string(seconds as u128).concat("s"));
    all.push(String::from_str(cmd));
    assert(strings_view(all@) =~= seq![decimal(seconds as nat) + "s"@, cmd@]);
    let rest = copy_strings(args);
    let ghost before = all@;
    let mut rest = rest;
    all.append(&mut rest);
    assert(strings_view(all@) =~= strings_view(before) + strings_view(args@));
    CommandPlan { program: String::from_str("timeout"), args: all }
}

/// The command that captures output of `cmd args…` under a time limit.
pub fn run_capture_timeout(cmd: &str, args: &Vec<String>, seconds: u64, timeout_available: bool) -> (p: CommandPlan)
    ensures
        p@ == timeout_plan_spec(cmd@, strings_view(args@), seconds as nat, timeout_available),
{
    timeout_plan(cmd, args, seconds, timeout_available)
}

/// The command whose exit status is checked, under a time limit.
pub fn run_status_timeout(cmd: &str, args: &Vec<String>, seconds: u64, timeout_available: bool) -> (p: CommandPlan)
    ensures
        p@ == timeout_plan_spec(cmd@, strings_view(args@), seconds as nat, timeout_available),
{
    timeout_plan(cmd, args, seconds, timeout_available)
}

/// The text of bytes decoded as UTF-8, each invalid sequence replaced by U+FFFD.
pub uninterp spec fn utf8_lossy_spec(bytes: Seq<u8>) -> Seq<char>;

/// Calls `String::from_utf8_lossy` and takes the owned text. Claimed: the text
/// is `utf8_lossy_spec` of the bytes, and for valid UTF-8 it is the decoded text.
#[verifier::external_body]
fn utf8_lossy(bytes: &[u8]) -> (s: String)
    ensures
        s@ == utf8_lossy_spec(bytes@),
        vstd::utf8::valid_utf8(bytes@) ==> s@ == vstd::utf8::decode_utf8(bytes@),
{
    String::from_utf8_lossy(bytes).into_owned()
}

/// `{:?}` of an optional exit code.
pub open spec fn exit_code_debug(code: Option<i32>) -> Seq<char> {
    match code {
        Some(c) => "Some("@ + signed_decimal(c as int) + ")"@,
        None => "None"@,
    }
}

fn exit_code_debug_exec(code: Option<i32>) -> (s: String)
    ensures
        s@ == exit_code_debug(code),
{
    match code {
        Some(c) => String::from_str("Some(").concat(signed_decimal_string(c as i64).as_str()).concat(")"),
        None => String::from_str("None"),
    }
}

/// The captured text: standard output, then (when it holds more than
/// whitespace) standard error, on a new line when there was output.
pub open spec fn combined_output(out: Seq<char>, err: Seq<char>) -> Seq<char> {
    if trim_spec(err).len() == 0 {
        out
    } else if out.len() == 0 {
        err
    } else {
        out + "\n"@ + err
    }
}

/// What a captured command yields: its text when it succeeded, else an error
/// naming the command, its exit code and its trimmed text.
pub open spec fn capture_result_spec(
    cmd: Seq<char>,
    stdout: Seq<u8>,
    stderr: Seq<u8>,
    success: bool,
    code: Option<i32>,
) -> Result<Seq<char>, Seq<char>> {
    let text = combined_output(utf8_lossy_spec(stdout), utf8_lossy_spec(stderr));
    if success {
        Ok(text)
    } else {
        Err(cmd + " exit "@ + exit_code_debug(code) + ": "@ + trim_spec(text))
    }
}

pub open spec fn result_view(r: Result<String, String>) -> Result<Seq<char>, Seq<char>> {
    match r {
        Ok(s) => Ok(s@),
        Err(e) => Err(e@),
    }
}

/// The outcome of a command whose output was captured.
pub fn capture_result(cmd: &str, stdout: &[u8], stderr: &[u8], success: bool, code: Option<i32>) -> (r: Result<String, String>)
    ensures
        result_view(r) == capture_result_spec(cmd@, stdout@, stderr@, success, code),
{
    let out = utf8_lossy(stdout);
    let err = utf8_lossy(stderr);
    let err_trimmed = trim(err.as_str());
    let text = if err_trimmed.unicode_len() == 0 {
        out
    } else if out.unicode_len() == 0 {
        err
    } else {
        out.concat("\n").concat(err.as_str())
    };
    if success {
        Ok(text)
    } else {
        let t = trim(text.as_str());
        Err(String::from_str(cmd).concat(" exit ").concat(exit_code_debug_exec(code).as_str()).concat(": ").concat(t.as_str()))
    }
}

/// The exit status shown when a command succeeded: its code, or 0 without one.
/// When it failed: its code, or `unknown`.
pub open spec fn exit_outcome_spec(label: Seq<char>, success: bool, code: Option<i32>) -> Result<Seq<char>, Seq<char>> {
    if success {
        Ok(label + " command completed status="@ + signed_decimal(match code {
            Some(c) => c as int,
            None => 0,
        }))
    } else {
        Err(label + " command failed status="@ + match code {
            Some(c) => signed_decimal(c as int),
            None => "unknown"@,
        })
    }
}

/// The report of a preflight (`label` = `preflight`) or fallback (`fallback`) command.
pub fn exit_outcome(label: &str, success: bool, code: Option<i32>) -> (r: Result<String, String>)
    ensures
        result_view(r) == exit_outcome_spec(label@, success, code),
{
    if success {
        let c: i32 = match code {
            Some(c) => c,
            None => 0,
        };
        Ok(String::from_str(label).concat(" command completed status=").concat(signed_decimal_string(c as i64).as_str()))
    } else {
        let c = match code {
            Some(c) => signed_decimal_string(c as i64),
            None => String::from_str("unknown"),
        };
        Err(String::from_str(label).concat(" command failed status=").concat(c.as_str()))
    }
}

/// The shell that runs a configured command: `%ComSpec% /D /S /C command` on
/// Windows (default `cmd.exe`), `$SHELL -lc command` elsewhere (default `sh`).
pub open spec fn shell_plan_spec(command: Seq<char>, windows: bool, comspec: Option<Seq<char>>, shell: Option<Seq<char>>) -> CommandPlanV {
    if windows {
        CommandPlanV {
            program: match comspec {
                Some(c) => c,
                None => "cmd.exe"@,
            },
            args: seq!["/D"@, "/S"@, "/C"@, command],
        }
    } else {
        CommandPlanV {
            program: match shell {
                Some(s) => s,
                None => "sh"@,
            },
            args: seq!["-lc"@, command],
        }
    }
}

/// How a configured command line is run.
pub fn shell_command(command: &str, windows: bool, comspec: &Option<String>, shell: &Option<String>) -> (p: CommandPlan)
    ensures
        p@ == shell_plan_spec(command@, windows, opt_view(*comspec), opt_view(*shell)),
{
    if windows {
        let program = match comspec {
            Some(c) => c.clone(),
            None => String::from_str("cmd.exe"),
        };
        let args = vec![String::from_str("/D"), String::from_str("/S"), String::from_str("/C"), String::from_str(command)];
        assert(strings_view(args@) =~= seq!["/D"@, "/S"@, "/C"@, command@]);
        CommandPlan { program, args }
    } else {
        let program = match shell {
            Some(s) => s.clone(),
            None => String::from_str("sh"),
        };
        let args = vec![String::from_str("-lc"), String::from_str(command)];
        assert(strings_view(args@) =~= seq!["-lc"@, command@]);
        CommandPlan { program, args }
    }
}


/// The executable extensions tried on Windows: `PATHEXT` (default
/// `.EXE;.CMD;.BAT;.COM`) split at `;` and lower-cased.
pub open spec fn pathext_spec(var: Option<Seq<char>>) -> Seq<Seq<char>> {
    let v = match var {
        Some(x) => x,
        None => ".EXE;.CMD;.BAT;.COM"@,
    };
    lowered(split_spec(v, ';'))
}

/// Each text lower-cased.
pub open spec fn lowered(s: Seq<Seq<char>>) -> Seq<Seq<char>> {
    s.map_values(|p: Seq<char>| lower_spec(p))
}

/// The name with each extension appended, in `dir`.
pub open spec fn with_exts(dir: Seq<char>, cmd: Seq<char>, exts: Seq<Seq<char>>) -> Seq<(Seq<char>, Seq<char>)> {
    exts.map_values(|e: Seq<char>| (dir, cmd + e))
}

pub fn pathext_list(var: &Option<String>) -> (r: Vec<String>)
    ensures
        strings_view(r@) == pathext_spec(opt_view(*var)),
{
    let v = match var {
        Some(x) => chars_of(x.as_str()),
        None => chars_of(".EXE;.CMD;.BAT;.COM"),
    };
    let pieces = split_chars(&v, ';');
    let ghost sp = split_spec(v@, ';');
    let mut r: Vec<String> = Vec::new();
    let mut i: usize = 0;
    while i < pieces.len()
        invariant
            i <= pieces@.len(),
            pieces@.len() == sp.len(),
            forall|k: int| 0 <= k < pieces@.len() ==> #[trigger] pieces@[k]@ == sp[k],
            strings_view(r@) == lowered(sp.take(i as int)),
            r@.len() == i,
        decreases pieces.len() - i,
    {
        let low = to_ascii_lower(&pieces[i]);
        let ghost before = r@;
        let x = string_of(&low);
        r.push(x);
        let ghost target = lowered(sp.take(i + 1));
        assert forall|k: int| 0 <= k < i + 1 implies #[trigger] strings_view(r@)[k] == target[k] by {
            if k < i {
                assert(strings_view(before)[k] == lowered(sp.take(i as int))[k]);
            }
        }
        i = i + 1;
        assert(strings_view(r@) =~= lowered(sp.take(i as int)));
    }
    assert(sp.take(sp.len() as int) =~= sp);
    r
}

/// `Path::extension` is set for a bare name: there is a `.` after the first
/// character (and the name is not `..`).
pub open spec fn has_extension_spec(name: Seq<char>) -> bool {
    name != ".."@ && match rfind_below(name, '.', name.len() as int) {
        Some(i) => i > 0,
        None => false,
    }
}

pub fn has_extension(name: &str) -> (b: bool)
    ensures
        b == has_extension_spec(name@),
{
    if str_eq(name, "..") {
        return false;
    }
    let v = chars_of(name);
    match rfind_char(&v, '.') {
        Some(i) => i > 0,
        None => false,
    }
}

/// Where to look for a program.
pub enum CommandLookup {
    /// The name holds a path separator: check that this path exists.
    Path(String),
    /// Check, in order, whether any `(directory, file name)` is a file.
    Search(Vec<(String, String)>),
}

pub enum CommandLookupV {
    Path(Seq<char>),
    Search(Seq<(Seq<char>, Seq<char>)>),
}

pub open spec fn pairs_view(s: Seq<(String, String)>) -> Seq<(Seq<char>, Seq<char>)> {
    s.map_values(|p: (String, String)| (p.0@, p.1@))
}

impl View for CommandLookup {
    type V = CommandLookupV;

    open spec fn view(&self) -> CommandLookupV {
        match self {
            CommandLookup::Path(p) => CommandLookupV::Path(p@),
            CommandLookup::Search(c) => CommandLookupV::Search(pairs_view(c@)),
        }
    }
}

/// The candidates in one directory: the name itself, then, on Windows and
/// for a name without extension, the name with each extension.
pub open spec fn dir_candidates(dir: Seq<char>, cmd: Seq<char>, windows: bool, exts: Seq<Seq<char>>) -> Seq<(Seq<char>, Seq<char>)> {
    seq![(dir, cmd)] + if windows && !has_extension_spec(cmd) {
        with_exts(dir, cmd, exts)
    } else {
        Seq::empty()
    }
}

pub open spec fn search_candidates(dirs: Seq<Seq<char>>, cmd: Seq<char>, windows: bool, exts: Seq<Seq<char>>) -> Seq<(Seq<char>, Seq<char>)>
    decreases dirs.len(),
{
    if dirs.len() == 0 {
        Seq::empty()
    } else {
        search_candidates(dirs.drop_last(), cmd, windows, exts) + dir_candidates(dirs.last(), cmd, windows, exts)
    }
}

/// `which`-style lookup of `cmd` along the directories of `PATH`.
pub open spec fn lookup_spec(cmd: Seq<char>, dirs: Seq<Seq<char>>, windows: bool, exts: Seq<Seq<char>>) -> CommandLookupV {
    if has_char(cmd, '/') || has_char(cmd, '\\') {
        CommandLookupV::Path(cmd)
    } else {
        CommandLookupV::Search(search_candidates(dirs, cmd, windows, exts))
    }
}

/// Where to look for `cmd`; `dirs` are the directories of `PATH`, `exts` the
/// list from [`pathext_list`].
pub fn command_lookup(cmd: &str, dirs: &Vec<String>, windows: bool, exts: &Vec<String>) -> (r: CommandLookup)
    ensures
        r@ == lookup_spec(cmd@, strings_view(dirs@), windows, strings_view(exts@)),
{
    let cv = chars_of(cmd);
    if contains_char(&cv, '/') || contains_char(&cv, '\\') {
        return CommandLookup::Path(String::from_str(cmd));
    }
    let with_ext = windows && !has_extension(cmd);
    let ghost dv = strings_view(dirs@);
    let ghost ev = strings_view(exts@);
    let mut out: Vec<(String, String)> = Vec::new();
    let mut i: usize = 0;
    assert(dv.take(0) =~= Seq::<Seq<char>>::empty());
    while i < dirs.len()
        invariant
            i <= dirs@.len(),
            dv == strings_view(dirs@),
            ev == strings_view(exts@),
            with_ext == (windows && !has_extension_spec(cmd@)),
            pairs_view(out@) == search_candidates(dv.take(i as int), cmd@, windows, ev),
            out@.len() == pairs_view(out@).len(),
        decreases dirs.len() - i,
    {
        let ghost before = pairs_view(out@);
        let d0 = dirs[i].clone();
        assert(d0@ == dv[i as int]);
        out.push((d0, String::from_str(cmd)));
        assert(pairs_view(out@) =~= before + seq![(dv[i as int], cmd@)]);
        if with_ext {
            let mut j: usize = 0;
            while j < exts.len()
                invariant
                    i < dirs@.len(),
                    j <= exts@.len(),
                    dv == strings_view(dirs@),
                    ev == strings_view(exts@),
                    out@.len() == before.len() + 1 + j,
                    pairs_view(out@) == before + seq![(dv[i as int], cmd@)] + with_exts(dv[i as int], cmd@, ev.take(j as int)),
                decreases exts.len() - j,
            {
                let name = String::from_str(cmd).concat(exts[j].as_str());
                let ghost prev = out@;
                let d = dirs[i].clone();
                assert(d@ == dv[i as int]);
                assert(exts@[j as int]@ == ev[j as int]);
                out.push((d, name));
                let ghost target = before + seq![(dv[i as int], cmd@)] + with_exts(dv[i as int], cmd@, ev.take(j + 1));
                assert forall|k: int| 0 <= k < prev.len() implies #[trigger] pairs_view(out@)[k] == target[k] by {
                    assert(pairs_view(prev)[k] == (before + seq![(dv[i as int], cmd@)] + with_exts(dv[i as int], cmd@, ev.take(j as int)))[k]);
                }
                assert(pairs_view(out@) =~= target);
                j = j + 1;
                assert(pairs_view(out@) =~= before + seq![(dv[i as int], cmd@)] + with_exts(dv[i as int], cmd@, ev.take(j as int)));
            }
            assert(ev.take(ev.len() as int) =~= ev);
        }
        proof {
            assert(dv.take(i + 1).drop_last() =~= dv.take(i as int));
            assert(dv.take(i + 1).last() == dv[i as int]);
            assert(pairs_view(out@) =~= search_candidates(dv.take(i as int), cmd@, windows, ev) + dir_candidates(dv[i as int], cmd@, windows, ev));
        }
        i = i + 1;
    }
    assert(dv.take(dv.len() as int) =~= dv);
    CommandLookup::Search(out)
}

} // verus!
