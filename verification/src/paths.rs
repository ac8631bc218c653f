//! File locations: WSL to Windows path conversion, capture file names, the
//! state directory, and the screen capture commands.

use vstd::prelude::*;
use crate::args::opt_view;
use crate::command::{result_view, run_status_timeout, strings_view, timeout_plan_spec, CommandPlan, CommandPlanV};
use crate::json::{lemma_view_members, view_members, Json, JsonV};
use crate::number::{decimal, decimal_string};
use crate::text::{
    ascii_upper, char_width, char_width_of, chars_of, contains_char, find_char, find_from,
    has_char, matches_at, occurs_at, str_eq, string_of, to_ascii_upper_char, trim, trim_spec,
};

verus! {

pub open spec fn mnt_prefix() -> Seq<char> {
    seq!['/', 'm', 'n', 't', '/']
}

/// Every `/` replaced by `\`.
pub open spec fn backslashed(s: Seq<char>) -> Seq<char> {
    s.map_values(|c: char| if c == '/' { '\\' } else { c })
}

/// `/mnt/<d>/rest` as `D:\rest` when the drive `<d>` is one single-byte character.
pub open spec fn mnt_to_windows_spec(s: Seq<char>) -> Option<Seq<char>> {
    if occurs_at(s, mnt_prefix(), 0) {
        let rest = s.skip(5);
        let drive = match find_from(rest, '/', 0) {
            Some(i) => rest.take(i),
            None => rest,
        };
        let tail = match find_from(rest, '/', 0) {
            Some(i) => rest.skip(i + 1),
            None => Seq::empty(),
        };
        if drive.len() == 1 && char_width(drive[0]) == 1 {
            Some(seq![ascii_upper(drive[0]), ':', '\\'] + backslashed(tail))
        } else {
            None
        }
    } else {
        None
    }
}

/// How a path reaches Windows.
pub enum WindowsPath {
    /// A `/mnt/<drive>/…` path, converted directly.
    Converted(String),
    /// Anything else: ask `wslpath -w`.
    ViaWslpath,
}

fn backslashed_exec(v: &Vec<char>, from: usize) -> (r: Vec<char>)
    requires
        from <= v@.len(),
    ensures
        r@ == backslashed(v@.skip(from as int)),
{
    let mut r: Vec<char> = Vec::new();
    let mut i = from;
    while i < v.len()
        invariant
            from <= i <= v@.len(),
            r@ == backslashed(v@.subrange(from as int, i as int)),
        decreases v.len() - i,
    {
        let c = v[i];
        r.push(if c == '/' { '\\' } else { c });
        i = i + 1;
        assert(r@ =~= backslashed(v@.subrange(from as int, i as int)));
    }
    assert(v@.subrange(from as int, v@.len() as int) =~= v@.skip(from as int));
    r
}

/// The Windows form of `path` when it lies under `/mnt/<drive>/`.
pub fn path_to_windows(path: &str) -> (r: WindowsPath)
    ensures
        match r {
            WindowsPath::Converted(w) => mnt_to_windows_spec(path@) == Some(w@),
            WindowsPath::ViaWslpath => mnt_to_windows_spec(path@) is None,
        },
{
    let v = chars_of(path);
    let prefix = vec!['/', 'm', 'n', 't', '/'];
    assert(prefix@ =~= mnt_prefix());
    if !matches_at(&v, &prefix, 0) {
        return WindowsPath::ViaWslpath;
    }
    let mut rest: Vec<char> = Vec::new();
    let mut i: usize = 5;
    while i < v.len()
        invariant
            5 <= i <= v@.len(),
            rest@ == v@.subrange(5, i as int),
        decreases v.len() - i,
    {
        rest.push(v[i]);
        i = i + 1;
        assert(rest@ =~= v@.subrange(5, i as int));
    }
    assert(rest@ =~= v@.skip(5));
    let slash = find_char(&rest, '/');
    let drive_len = match slash {
        Some(j) => j,
        None => rest.len(),
    };
    if drive_len != 1 || char_width_of(rest[0]) != 1 {
        return WindowsPath::ViaWslpath;
    }
    let mut tail = match slash {
        Some(j) => backslashed_exec(&rest, j + 1),
        None => {
            let e: Vec<char> = Vec::new();
            assert(e@ =~= backslashed(Seq::<char>::empty()));
            e
        },
    };
    let mut out: Vec<char> = Vec::new();
    out.push(to_ascii_upper_char(rest[0]));
    out.push(':');
    out.push('\\');
    out.append(&mut tail);
    proof {
        match slash {
            Some(j) => {
                assert(rest@.take(j as int)[0] == rest@[0]);
            },
            None => {},
        }
    }
    WindowsPath::Converted(string_of(&out))
}


/// `wslpath -w <path>`: the Windows form of a Linux path.
pub open spec fn wslpath_windows_plan_spec(path: Seq<char>) -> CommandPlanV {
    CommandPlanV { program: "wslpath"@, args: seq!["-w"@, path] }
}

pub fn wslpath_windows_command(path: &str) -> (p: CommandPlan)
    ensures
        p@ == wslpath_windows_plan_spec(path@),
{
    let args = vec![String::from_str("-w"), String::from_str(path)];
    assert(strings_view(args@) =~= seq!["-w"@, path@]);
    CommandPlan { program: String::from_str("wslpath"), args }
}

/// A path printed by `wslpath`: the trimmed output, when the command succeeded.
pub open spec fn trimmed_output_spec(r: Result<Seq<char>, Seq<char>>) -> Option<Seq<char>> {
    match r {
        Ok(out) => Some(trim_spec(out)),
        Err(_) => None,
    }
}

/// The Windows path that `wslpath -w` printed.
pub fn wslpath_windows(result: &Result<String, String>) -> (r: Option<String>)
    ensures
        opt_view(r) == trimmed_output_spec(result_view(*result)),
{
    match result {
        Ok(out) => Some(trim(out.as_str())),
        Err(_) => None,
    }
}

/// `cmd.exe /C echo %TEMP%`.
pub open spec fn echo_temp_plan_spec() -> CommandPlanV {
    CommandPlanV { program: "cmd.exe"@, args: seq!["/C"@, "echo"@, "%TEMP%"@] }
}

pub fn windows_temp_echo_command() -> (p: CommandPlan)
    ensures
        p@ == echo_temp_plan_spec(),
{
    let args = vec![String::from_str("/C"), String::from_str("echo"), String::from_str("%TEMP%")];
    assert(strings_view(args@) =~= seq!["/C"@, "echo"@, "%TEMP%"@]);
    CommandPlan { program: String::from_str("cmd.exe"), args }
}

/// After `echo %TEMP%`: the `wslpath -u` call that turns the printed Windows
/// directory into a WSL path, unless nothing usable was printed (an empty line,
/// or a variable that was not expanded).
pub open spec fn temp_from_cmd_spec(echo: Result<Seq<char>, Seq<char>>) -> Option<CommandPlanV> {
    match echo {
        Ok(out) => {
            let win = trim_spec(out);
            if win.len() == 0 || has_char(win, '%') {
                None
            } else {
                Some(CommandPlanV { program: "wslpath"@, args: seq!["-u"@, win] })
            }
        },
        Err(_) => None,
    }
}

/// The step after `cmd.exe /C echo %TEMP%` (run only when `cmd.exe` exists);
/// the output of the returned command is read with [`wslpath_windows`].
pub fn windows_temp_from_cmd(echo: &Result<String, String>) -> (r: Option<CommandPlan>)
    ensures
        match r {
            Some(p) => temp_from_cmd_spec(result_view(*echo)) == Some(p@),
            None => temp_from_cmd_spec(result_view(*echo)) is None,
        },
{
    match echo {
        Ok(out) => {
            let win = trim(out.as_str());
            let wv = chars_of(win.as_str());
            if wv.len() == 0 || contains_char(&wv, '%') {
                None
            } else {
                let args = vec![String::from_str("-u"), win];
                assert(strings_view(args@) =~= seq!["-u"@, wv@]);
                Some(CommandPlan { program: String::from_str("wslpath"), args })
            }
        },
        Err(_) => None,
    }
}

/// `codex-cua-screen-<pid>-<ms>.png`.
pub open spec fn capture_file_name_spec(pid: nat, ms: nat) -> Seq<char> {
    "codex-cua-screen-"@ + decimal(pid) + "-"@ + decimal(ms) + ".png"@
}

pub fn capture_file_name(pid: u32, ms: u128) -> (s: String)
    ensures
        s@ == capture_file_name_spec(pid as nat, ms as nat),
{
    String::from_str("codex-cua-screen-").concat(decimal_string(pid as u128).as_str()).concat("-").concat(
        decimal_string(ms).as_str(),
    ).concat(".png")
}

/// Directories tried, in order, for a capture readable from Windows.
pub open spec fn capture_dirs_spec(env_dir: Option<Seq<char>>, from_cmd: Option<Seq<char>>, temp_dir: Seq<char>) -> Seq<Seq<char>> {
    (match env_dir {
        Some(d) => seq![d],
        None => Seq::empty(),
    }) + (match from_cmd {
        Some(d) => seq![d],
        None => Seq::empty(),
    }) + seq![temp_dir, "/mnt/c/Windows/Temp"@]
}

/// The directories to try: `CODEX_CUA_WINDOWS_TEMP_WSL`, the Windows `%TEMP%`
/// seen from WSL, the process temporary directory, then `/mnt/c/Windows/Temp`.
pub fn capture_dir_candidates(env_dir: &Option<String>, from_cmd: &Option<String>, temp_dir: &str) -> (r: Vec<String>)
    ensures
        strings_view(r@) == capture_dirs_spec(opt_view(*env_dir), opt_view(*from_cmd), temp_dir@),
{
    let mut r: Vec<String> = Vec::new();
    match env_dir {
        Some(d) => r.push(d.clone()),
        None => {},
    }
    match from_cmd {
        Some(d) => r.push(d.clone()),
        None => {},
    }
    r.push(String::from_str(temp_dir));
    r.push(String::from_str("/mnt/c/Windows/Temp"));
    assert(strings_view(r@) =~= capture_dirs_spec(opt_view(*env_dir), opt_view(*from_cmd), temp_dir@));
    r
}

/// The log directory, as path components to join: `CODEX_CUA_STATE_DIR`
/// when set, else `.codex-cua-resume-assist` under `HOME`, `USERPROFILE` or `.`.
pub open spec fn state_dir_spec(state_dir: Option<Seq<char>>, home: Option<Seq<char>>, userprofile: Option<Seq<char>>) -> Seq<Seq<char>> {
    match state_dir {
        Some(d) => seq![d],
        None => seq![
            match home {
                Some(h) => h,
                None => match userprofile {
                    Some(u) => u,
                    None => "."@,
                },
            },
            ".codex-cua-resume-assist"@,
        ],
    }
}

pub fn state_dir(state_dir_var: &Option<String>, home: &Option<String>, userprofile: &Option<String>) -> (r: Vec<String>)
    ensures
        strings_view(r@) == state_dir_spec(opt_view(*state_dir_var), opt_view(*home), opt_view(*userprofile)),
{
    let r = match state_dir_var {
        Some(d) => vec![d.clone()],
        None => {
            let base = match home {
                Some(h) => h.clone(),
                None => match userprofile {
                    Some(u) => u.clone(),
                    None => String::from_str("."),
                },
            };
            vec![base, String::from_str(".codex-cua-resume-assist")]
        },
    };
    assert(strings_view(r@) =~= state_dir_spec(opt_view(*state_dir_var), opt_view(*home), opt_view(*userprofile)));
    r
}

/// The PowerShell capture runs only when `CODEX_CUA_ENABLE_POWERSHELL_CAPTURE` is `1`.
pub fn powershell_capture_enabled(var: &Option<String>) -> (b: bool)
    ensures
        b == (opt_view(*var) == Some("1"@)),
{
    match var {
        Some(v) => str_eq(v.as_str(), "1"),
        None => false,
    }
}

/// Every `'` doubled, as in a single-quoted PowerShell string.
pub open spec fn ps_quote_spec(s: Seq<char>) -> Seq<char>
    decreases s.len(),
{
    if s.len() == 0 {
        Seq::empty()
    } else {
        ps_quote_spec(s.drop_last()) + if s.last() == '\'' {
            seq!['\'', '\'']
        } else {
            seq![s.last()]
        }
    }
}

fn ps_quote(v: &Vec<char>) -> (r: Vec<char>)
    ensures
        r@ == ps_quote_spec(v@),
{
    let mut r: Vec<char> = Vec::new();
    let mut i: usize = 0;
    while i < v.len()
        invariant
            i <= v@.len(),
            r@ == ps_quote_spec(v@.take(i as int)),
        decreases v.len() - i,
    {
        let c = v[i];
        r.push(c);
        if c == '\'' {
            r.push('\'');
        }
        proof {
            assert(v@.take(i + 1).drop_last() =~= v@.take(i as int));
        }
        i = i + 1;
        assert(r@ =~= ps_quote_spec(v@.take(i as int)));
    }
    assert(v@.take(v@.len() as int) =~= v@);
    r
}

pub open spec fn ps_script_head() -> Seq<char> {
    "\nAdd-Type -AssemblyName System.Windows.Forms,System.Drawing\n$bounds = [System.Windows.Forms.Screen]::PrimaryScreen.Bounds\n$bmp = New-Object System.Drawing.Bitmap $bounds.Width, $bounds.Height\n$g = [System.Drawing.Graphics]::FromImage($bmp)\n$g.CopyFromScreen($bounds.Location, [System.Drawing.Point]::Empty, $bounds.Size)\n$bmp.Save('"@
}

pub open spec fn ps_script_tail() -> Seq<char> {
    "', [System.Drawing.Imaging.ImageFormat]::Png)\n$g.Dispose()\n$bmp.Dispose()\n"@
}

/// The PowerShell script that saves the primary screen as a PNG at `win_path`.
pub open spec fn ps_script_spec(win_path: Seq<char>) -> Seq<char> {
    ps_script_head() + ps_quote_spec(win_path) + ps_script_tail()
}

pub fn powershell_capture_script(win_path: &str) -> (s: String)
    ensures
        s@ == ps_script_spec(win_path@),
{
    let v = chars_of(win_path);
    let q = string_of(&ps_quote(&v));
    String::from_str(
        "\nAdd-Type -AssemblyName System.Windows.Forms,System.Drawing\n$bounds = [System.Windows.Forms.Screen]::PrimaryScreen.Bounds\n$bmp = New-Object System.Drawing.Bitmap $bounds.Width, $bounds.Height\n$g = [System.Drawing.Graphics]::FromImage($bmp)\n$g.CopyFromScreen($bounds.Location, [System.Drawing.Point]::Empty, $bounds.Size)\n$bmp.Save('",
    ).concat(q.as_str()).concat("', [System.Drawing.Imaging.ImageFormat]::Png)\n$g.Dispose()\n$bmp.Dispose()\n")
}

/// `powershell.exe -NoProfile -NonInteractive -ExecutionPolicy Bypass -Command <script>`
/// under the capture time limit.
pub open spec fn powershell_plan_spec(script: Seq<char>, seconds: nat, timeout_available: bool) -> CommandPlanV {
    timeout_plan_spec(
        "powershell.exe"@,
        seq!["-NoProfile"@, "-NonInteractive"@, "-ExecutionPolicy"@, "Bypass"@, "-Command"@, script],
        seconds,
        timeout_available,
    )
}

pub fn powershell_capture_command(script: &str, seconds: u64, timeout_available: bool) -> (p: CommandPlan)
    ensures
        p@ == powershell_plan_spec(script@, seconds as nat, timeout_available),
{
    let args = vec![
        String::from_str("-NoProfile"),
        String::from_str("-NonInteractive"),
        String::from_str("-ExecutionPolicy"),
        String::from_str("Bypass"),
        String::from_str("-Command"),
        String::from_str(script),
    ];
    assert(strings_view(args@) =~= seq!["-NoProfile"@, "-NonInteractive"@, "-ExecutionPolicy"@, "Bypass"@, "-Command"@, script@]);
    run_status_timeout("powershell.exe", &args, seconds, timeout_available)
}

/// The screenshot tools tried after PowerShell, in order: `screencapture -x`
/// (macOS only), `gnome-screenshot -f`, `grim`, `scrot`, `import -window root`.
pub open spec fn capture_tools_spec(path: Seq<char>, macos: bool) -> Seq<CommandPlanV> {
    (if macos {
        seq![CommandPlanV { program: "screencapture"@, args: seq!["-x"@, path] }]
    } else {
        Seq::empty()
    }) + seq![
        CommandPlanV { program: "gnome-screenshot"@, args: seq!["-f"@, path] },
        CommandPlanV { program: "grim"@, args: seq![path] },
        CommandPlanV { program: "scrot"@, args: seq![path] },
        CommandPlanV { program: "import"@, args: seq!["-window"@, "root"@, path] },
    ]
}

pub open spec fn plans_view(s: Seq<CommandPlan>) -> Seq<CommandPlanV> {
    s.map_values(|p: CommandPlan| p@)
}

fn plan(program: &str, args: Vec<String>) -> (p: CommandPlan)
    ensures
        p@ == (CommandPlanV { program: program@, args: strings_view(args@) }),
{
    CommandPlan { program: String::from_str(program), args }
}

/// The screenshot commands to try for a capture saved at `path` (each is run
/// only when its program exists, and under the capture time limit).
pub fn capture_tool_commands(path: &str, macos: bool) -> (r: Vec<CommandPlan>)
    ensures
        plans_view(r@) == capture_tools_spec(path@, macos),
{
    let mut r: Vec<CommandPlan> = Vec::new();
    if macos {
        let a = vec![String::from_str("-x"), String::from_str(path)];
        assert(strings_view(a@) =~= seq!["-x"@, path@]);
        r.push(plan("screencapture", a));
    }
    let a1 = vec![String::from_str("-f"), String::from_str(path)];
    assert(strings_view(a1@) =~= seq!["-f"@, path@]);
    let a2 = vec![String::from_str(path)];
    assert(strings_view(a2@) =~= seq![path@]);
    let a3 = vec![String::from_str(path)];
    assert(strings_view(a3@) =~= seq![path@]);
    let a4 = vec![String::from_str("-window"), String::from_str("root"), String::from_str(path)];
    assert(strings_view(a4@) =~= seq!["-window"@, "root"@, path@]);
    r.push(plan("gnome-screenshot", a1));
    r.push(plan("grim", a2));
    r.push(plan("scrot", a3));
    r.push(plan("import", a4));
    assert(plans_view(r@) =~= capture_tools_spec(path@, macos));
    r
}

/// The error reported when no capture method worked.
pub open spec fn capture_failed_message() -> Seq<char> {
    "could not capture screen with Win32 helper, PowerShell, screencapture, gnome-screenshot, grim, scrot, or import"@
}

pub fn capture_failed_error() -> (s: String)
    ensures
        s@ == capture_failed_message(),
{
    String::from_str("could not capture screen with Win32 helper, PowerShell, screencapture, gnome-screenshot, grim, scrot, or import")
}

/// The error for a `--screenshot` file that does not exist.
pub fn missing_screenshot_error(display: &str) -> (s: String)
    ensures
        s@ == "screenshot does not exist: "@ + display@,
{
    String::from_str("screenshot does not exist: ").concat(display)
}

/// Capture metadata when the screenshot did not come from the Windows helper.
pub open spec fn capture_meta_spec(source: Seq<char>, screenshot: Seq<char>, kind: Seq<char>) -> JsonV {
    JsonV::Object(
        seq![
            ("ok"@, JsonV::Bool(true)),
            ("source"@, JsonV::Str(source)),
            ("screenshot"@, JsonV::Str(screenshot)),
            ("active_window"@, JsonV::Object(seq![("kind"@, JsonV::Str(kind))])),
        ],
    )
}

fn capture_meta(source: &str, screenshot: &str, kind: &str) -> (j: Json)
    ensures
        j@ == capture_meta_spec(source@, screenshot@, kind@),
{
    let inner = vec![(String::from_str("kind"), Json::Str(String::from_str(kind)))];
    proof {
        lemma_view_members(inner@);
        assert(view_members(inner@) =~= seq![("kind"@, JsonV::Str(kind@))]);
    }
    let m = vec![
        (String::from_str("ok"), Json::Bool(true)),
        (String::from_str("source"), Json::Str(String::from_str(source))),
        (String::from_str("screenshot"), Json::Str(String::from_str(screenshot))),
        (String::from_str("active_window"), Json::Object(inner)),
    ];
    proof {
        lemma_view_members(m@);
        assert(view_members(m@) =~= seq![
            ("ok"@, JsonV::Bool(true)),
            ("source"@, JsonV::Str(source@)),
            ("screenshot"@, JsonV::Str(screenshot@)),
            ("active_window"@, JsonV::Object(seq![("kind"@, JsonV::Str(kind@))])),
        ]);
    }
    Json::Object(m)
}

/// Metadata of a screenshot given with `--screenshot`.
pub fn provided_capture_meta(screenshot: &str) -> (j: Json)
    ensures
        j@ == capture_meta_spec("provided"@, screenshot@, "provided"@),
{
    capture_meta("provided", screenshot, "provided")
}

/// Metadata of a screenshot taken by a fallback tool.
pub fn fallback_capture_meta(screenshot: &str) -> (j: Json)
    ensures
        j@ == capture_meta_spec("fallback"@, screenshot@, "unknown"@),
{
    capture_meta("fallback", screenshot, "unknown")
}

} // verus!
