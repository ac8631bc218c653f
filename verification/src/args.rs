//! Command-line and environment settings.

use vstd::prelude::*;
use crate::number::{parse_u32, parse_u64, parse_unsigned_spec};
use crate::text::{str_eq, trim, trim_spec};

verus! {

/// Run settings.
pub struct Config {
    pub execute: bool,
    pub no_api: bool,
    pub dry_run: bool,
    pub model: String,
    pub screenshot: Option<String>,
    pub max_rounds: u32,
    pub exec_fallback: Option<String>,
    pub preflight_command: Option<String>,
    pub fallback_prompt_file: Option<String>,
    pub fallback_prompt_stdin: bool,
    pub lock_file: Option<String>,
    pub lock_ttl_sec: u64,
}

/// The mathematical model of [`Config`].
pub struct ConfigV {
    pub execute: bool,
    pub no_api: bool,
    pub dry_run: bool,
    pub model: Seq<char>,
    pub screenshot: Option<Seq<char>>,
    pub max_rounds: nat,
    pub exec_fallback: Option<Seq<char>>,
    pub preflight_command: Option<Seq<char>>,
    pub fallback_prompt_file: Option<Seq<char>>,
    pub fallback_prompt_stdin: bool,
    pub lock_file: Option<Seq<char>>,
    pub lock_ttl_sec: nat,
}

pub open spec fn opt_view(o: Option<String>) -> Option<Seq<char>> {
    match o {
        Some(s) => Some(s@),
        None => None,
    }
}

impl View for Config {
    type V = ConfigV;

    open spec fn view(&self) -> ConfigV {
        ConfigV {
            execute: self.execute,
            no_api: self.no_api,
            dry_run: self.dry_run,
            model: self.model@,
            screenshot: opt_view(self.screenshot),
            max_rounds: self.max_rounds as nat,
            exec_fallback: opt_view(self.exec_fallback),
            preflight_command: opt_view(self.preflight_command),
            fallback_prompt_file: opt_view(self.fallback_prompt_file),
            fallback_prompt_stdin: self.fallback_prompt_stdin,
            lock_file: opt_view(self.lock_file),
            lock_ttl_sec: self.lock_ttl_sec as nat,
        }
    }
}

/// The environment variables that supply defaults; `None` when a variable is
/// unset or not valid Unicode.
pub struct EnvSettings {
    /// `CODEX_CUA_MODEL`
    pub model: Option<String>,
    /// `CODEX_CUA_EXEC_FALLBACK`
    pub exec_fallback: Option<String>,
    /// `CODEX_CUA_PREFLIGHT_COMMAND`
    pub preflight_command: Option<String>,
    /// `CODEX_CUA_FALLBACK_PROMPT_FILE`
    pub fallback_prompt_file: Option<String>,
    /// `CODEX_CUA_LOCK_FILE`
    pub lock_file: Option<String>,
    /// `CODEX_CUA_LOCK_TTL_SEC`
    pub lock_ttl_sec: Option<String>,
}

/// A variable's value when it holds more than whitespace.
pub open spec fn non_blank(o: Option<String>) -> Option<Seq<char>> {
    match o {
        Some(s) => if trim_spec(s@).len() > 0 {
            Some(s@)
        } else {
            None
        },
        None => None,
    }
}

pub open spec fn default_model() -> Seq<char> {
    "gpt-5.5"@
}

pub open spec fn default_max_rounds() -> nat {
    3
}

pub open spec fn default_lock_ttl() -> nat {
    900
}

/// The settings before any argument is read.
pub open spec fn env_defaults(env: EnvSettings) -> ConfigV {
    ConfigV {
        execute: false,
        no_api: true,
        dry_run: false,
        model: match env.model {
            Some(m) => m@,
            None => default_model(),
        },
        screenshot: None,
        max_rounds: default_max_rounds(),
        exec_fallback: non_blank(env.exec_fallback),
        preflight_command: non_blank(env.preflight_command),
        fallback_prompt_file: non_blank(env.fallback_prompt_file),
        fallback_prompt_stdin: false,
        lock_file: non_blank(env.lock_file),
        lock_ttl_sec: match env.lock_ttl_sec {
            Some(t) => match parse_unsigned_spec(t@, u64::MAX as nat) {
                Some(n) => n,
                None => default_lock_ttl(),
            },
            None => default_lock_ttl(),
        },
    }
}

fn non_blank_exec(o: &Option<String>) -> (r: Option<String>)
    ensures
        opt_view(r) == non_blank(*o),
{
    match o {
        Some(s) => {
            let t = trim(s.as_str());
            if t.unicode_len() > 0 {
                Some(s.clone())
            } else {
                None
            }
        },
        None => None,
    }
}

/// The settings that the environment gives before any argument is read.
pub fn config_from_env(env: &EnvSettings) -> (c: Config)
    ensures
        c@ == env_defaults(*env),
{
    let model = match &env.model {
        Some(m) => m.clone(),
        None => String::from_str("gpt-5.5"),
    };
    let lock_ttl_sec = match &env.lock_ttl_sec {
        Some(t) => match parse_u64(t.as_str()) {
            Some(n) => n,
            None => 900,
        },
        None => 900,
    };
    Config {
        execute: false,
        no_api: true,
        dry_run: false,
        model,
        screenshot: None,
        max_rounds: 3,
        exec_fallback: non_blank_exec(&env.exec_fallback),
        preflight_command: non_blank_exec(&env.preflight_command),
        fallback_prompt_file: non_blank_exec(&env.fallback_prompt_file),
        fallback_prompt_stdin: false,
        lock_file: non_blank_exec(&env.lock_file),
        lock_ttl_sec,
    }
}


/// What an argument asks for.
#[derive(PartialEq, Eq, Structural, Clone, Copy)]
pub enum OptKind {
    Execute,
    DryRun,
    Api,
    NoApi,
    Model,
    Screenshot,
    MaxRounds,
    ExecFallback,
    PreflightCommand,
    FallbackPrompt,
    FallbackPromptStdin,
    LockFile,
    LockTtlSec,
    Help,
    Unknown,
}

pub open spec fn option_kind_spec(a: Seq<char>) -> OptKind {
    if a == "--execute"@ {
        OptKind::Execute
    } else if a == "--dry-run"@ {
        OptKind::DryRun
    } else if a == "--api"@ {
        OptKind::Api
    } else if a == "--no-api"@ {
        OptKind::NoApi
    } else if a == "--model"@ {
        OptKind::Model
    } else if a == "--screenshot"@ {
        OptKind::Screenshot
    } else if a == "--max-rounds"@ {
        OptKind::MaxRounds
    } else if a == "--exec-fallback"@ {
        OptKind::ExecFallback
    } else if a == "--preflight-command"@ {
        OptKind::PreflightCommand
    } else if a == "--fallback-prompt"@ {
        OptKind::FallbackPrompt
    } else if a == "--fallback-prompt-stdin"@ {
        OptKind::FallbackPromptStdin
    } else if a == "--lock-file"@ {
        OptKind::LockFile
    } else if a == "--lock-ttl-sec"@ {
        OptKind::LockTtlSec
    } else if a == "-h"@ || a == "--help"@ {
        OptKind::Help
    } else {
        OptKind::Unknown
    }
}

/// The kind of one argument.
pub fn option_kind(a: &str) -> (k: OptKind)
    ensures
        k == option_kind_spec(a@),
{
    if str_eq(a, "--execute") {
        OptKind::Execute
    } else if str_eq(a, "--dry-run") {
        OptKind::DryRun
    } else if str_eq(a, "--api") {
        OptKind::Api
    } else if str_eq(a, "--no-api") {
        OptKind::NoApi
    } else if str_eq(a, "--model") {
        OptKind::Model
    } else if str_eq(a, "--screenshot") {
        OptKind::Screenshot
    } else if str_eq(a, "--max-rounds") {
        OptKind::MaxRounds
    } else if str_eq(a, "--exec-fallback") {
        OptKind::ExecFallback
    } else if str_eq(a, "--preflight-command") {
        OptKind::PreflightCommand
    } else if str_eq(a, "--fallback-prompt") {
        OptKind::FallbackPrompt
    } else if str_eq(a, "--fallback-prompt-stdin") {
        OptKind::FallbackPromptStdin
    } else if str_eq(a, "--lock-file") {
        OptKind::LockFile
    } else if str_eq(a, "--lock-ttl-sec") {
        OptKind::LockTtlSec
    } else if str_eq(a, "-h") || str_eq(a, "--help") {
        OptKind::Help
    } else {
        OptKind::Unknown
    }
}

/// Why the arguments were refused.
pub enum ArgError {
    /// An option that takes a value was the last argument.
    MissingValue(String),
    /// A numeric option's value is not a number of its type.
    NotANumber(String),
    /// An argument that is no known option.
    Unknown(String),
}

pub enum ArgErrorV {
    MissingValue(Seq<char>),
    NotANumber(Seq<char>),
    Unknown(Seq<char>),
}

impl View for ArgError {
    type V = ArgErrorV;

    open spec fn view(&self) -> ArgErrorV {
        match self {
            ArgError::MissingValue(f) => ArgErrorV::MissingValue(f@),
            ArgError::NotANumber(f) => ArgErrorV::NotANumber(f@),
            ArgError::Unknown(a) => ArgErrorV::Unknown(a@),
        }
    }
}

/// The message shown for an [`ArgError`].
pub open spec fn arg_error_message(e: ArgErrorV) -> Seq<char> {
    match e {
        ArgErrorV::MissingValue(f) => f + " requires value"@,
        ArgErrorV::NotANumber(f) => f + " must be a number"@,
        ArgErrorV::Unknown(a) => "unknown option: "@ + a,
    }
}

impl ArgError {
    /// The message that the error is reported with.
    pub fn message(&self) -> (m: String)
        ensures
            m@ == arg_error_message(self@),
    {
        match self {
            ArgError::MissingValue(f) => f.clone().concat(" requires value"),
            ArgError::NotANumber(f) => f.clone().concat(" must be a number"),
            ArgError::Unknown(a) => String::from_str("unknown option: ").concat(a.as_str()),
        }
    }
}

/// What the arguments ask for.
pub enum Invocation {
    /// Run with these settings.
    Run(Config),
    /// Print the usage text and stop successfully.
    Help,
}

pub enum InvocationV {
    Run(ConfigV),
    Help,
}

impl View for Invocation {
    type V = InvocationV;

    open spec fn view(&self) -> InvocationV {
        match self {
            Invocation::Run(c) => InvocationV::Run(c@),
            Invocation::Help => InvocationV::Help,
        }
    }
}

/// The flag text of an option that takes a value.
pub open spec fn flag_name(k: OptKind) -> Seq<char> {
    match k {
        OptKind::Model => "--model"@,
        OptKind::Screenshot => "--screenshot"@,
        OptKind::MaxRounds => "--max-rounds"@,
        OptKind::ExecFallback => "--exec-fallback"@,
        OptKind::PreflightCommand => "--preflight-command"@,
        OptKind::FallbackPrompt => "--fallback-prompt"@,
        OptKind::LockFile => "--lock-file"@,
        _ => "--lock-ttl-sec"@,
    }
}

pub open spec fn takes_value(k: OptKind) -> bool {
    match k {
        OptKind::Model | OptKind::Screenshot | OptKind::MaxRounds | OptKind::ExecFallback
        | OptKind::PreflightCommand | OptKind::FallbackPrompt | OptKind::LockFile
        | OptKind::LockTtlSec => true,
        _ => false,
    }
}

/// The effect of a flag without a value.
pub open spec fn apply_switch(cfg: ConfigV, k: OptKind) -> ConfigV {
    match k {
        OptKind::Execute => ConfigV { execute: true, ..cfg },
        OptKind::DryRun => ConfigV { dry_run: true, ..cfg },
        OptKind::Api => ConfigV { no_api: false, ..cfg },
        OptKind::NoApi => ConfigV { no_api: true, ..cfg },
        _ => ConfigV { fallback_prompt_stdin: true, ..cfg },
    }
}

/// The effect of an option with value `v`; `None` when a number is expected and `v` is none.
pub open spec fn apply_value(cfg: ConfigV, k: OptKind, v: Seq<char>) -> Option<ConfigV> {
    match k {
        OptKind::Model => Some(ConfigV { model: v, ..cfg }),
        OptKind::Screenshot => Some(ConfigV { screenshot: Some(v), ..cfg }),
        OptKind::MaxRounds => match parse_unsigned_spec(v, u32::MAX as nat) {
            Some(n) => Some(ConfigV { max_rounds: n, ..cfg }),
            None => None,
        },
        OptKind::ExecFallback => Some(ConfigV { exec_fallback: Some(v), ..cfg }),
        OptKind::PreflightCommand => Some(ConfigV { preflight_command: Some(v), ..cfg }),
        OptKind::FallbackPrompt => Some(ConfigV { fallback_prompt_file: Some(v), ..cfg }),
        OptKind::LockFile => Some(ConfigV { lock_file: Some(v), ..cfg }),
        _ => match parse_unsigned_spec(v, u64::MAX as nat) {
            Some(n) => Some(ConfigV { lock_ttl_sec: n, ..cfg }),
            None => None,
        },
    }
}

/// Reading the arguments from position `i` on, with the settings so far.
pub open spec fn parse_from(args: Seq<Seq<char>>, i: int, cfg: ConfigV) -> Result<
    InvocationV,
    ArgErrorV,
>
    decreases args.len() - i,
{
    if i < 0 || i >= args.len() {
        Ok(InvocationV::Run(cfg))
    } else {
        let k = option_kind_spec(args[i]);
        if k == OptKind::Help {
            Ok(InvocationV::Help)
        } else if k == OptKind::Unknown {
            Err(ArgErrorV::Unknown(args[i]))
        } else if !takes_value(k) {
            parse_from(args, i + 1, apply_switch(cfg, k))
        } else if i + 1 >= args.len() {
            Err(ArgErrorV::MissingValue(flag_name(k)))
        } else {
            match apply_value(cfg, k, args[i + 1]) {
                Some(next) => parse_from(args, i + 2, next),
                None => Err(ArgErrorV::NotANumber(flag_name(k))),
            }
        }
    }
}

pub open spec fn args_view(args: Seq<String>) -> Seq<Seq<char>> {
    args.map_values(|a: String| a@)
}

pub open spec fn result_view(r: Result<Invocation, ArgError>) -> Result<InvocationV, ArgErrorV> {
    match r {
        Ok(i) => Ok(i@),
        Err(e) => Err(e@),
    }
}

/// What the command line asks for: `args[0]` is the program name, the rest are
/// read in order, each later setting replacing an earlier one.
pub open spec fn parse_args_spec(args: Seq<Seq<char>>, env: EnvSettings) -> Result<
    InvocationV,
    ArgErrorV,
> {
    parse_from(args, 1, env_defaults(env))
}

fn flag_text(k: OptKind) -> (s: String)
    requires
        takes_value(k),
    ensures
        s@ == flag_name(k),
{
    match k {
        OptKind::Model => String::from_str("--model"),
        OptKind::Screenshot => String::from_str("--screenshot"),
        OptKind::MaxRounds => String::from_str("--max-rounds"),
        OptKind::ExecFallback => String::from_str("--exec-fallback"),
        OptKind::PreflightCommand => String::from_str("--preflight-command"),
        OptKind::FallbackPrompt => String::from_str("--fallback-prompt"),
        OptKind::LockFile => String::from_str("--lock-file"),
        _ => String::from_str("--lock-ttl-sec"),
    }
}

/// Reads the command line (`args[0]` is the program name) over the defaults
/// that the environment gives.
pub fn parse_args(args: &Vec<String>, env: &EnvSettings) -> (r: Result<Invocation, ArgError>)
    ensures
        result_view(r) == parse_args_spec(args_view(args@), *env),
{
    let mut cfg = config_from_env(env);
    let ghost a = args_view(args@);
    let mut i: usize = 1;
    while i < args.len()
        invariant
            1 <= i,
            a == args_view(args@),
            a.len() == args@.len(),
            parse_args_spec(a, *env) == parse_from(a, i as int, cfg@),
        decreases args.len() - i,
    {
        assert(a[i as int] == args@[i as int]@);
        let k = option_kind(args[i].as_str());
        match k {
            OptKind::Help => {
                return Ok(Invocation::Help);
            },
            OptKind::Unknown => {
                return Err(ArgError::Unknown(args[i].clone()));
            },
            OptKind::Execute => {
                cfg.execute = true;
                i = i + 1;
            },
            OptKind::DryRun => {
                cfg.dry_run = true;
                i = i + 1;
            },
            OptKind::Api => {
                cfg.no_api = false;
                i = i + 1;
            },
            OptKind::NoApi => {
                cfg.no_api = true;
                i = i + 1;
            },
            OptKind::FallbackPromptStdin => {
                cfg.fallback_prompt_stdin = true;
                i = i + 1;
            },
            _ => {
                if i + 1 >= args.len() {
                    return Err(ArgError::MissingValue(flag_text(k)));
                }
                assert(a[i + 1] == args@[i + 1]@);
                let v = args[i + 1].clone();
                match k {
                    OptKind::Model => {
                        cfg.model = v;
                    },
                    OptKind::Screenshot => {
                        cfg.screenshot = Some(v);
                    },
                    OptKind::ExecFallback => {
                        cfg.exec_fallback = Some(v);
                    },
                    OptKind::PreflightCommand => {
                        cfg.preflight_command = Some(v);
                    },
                    OptKind::FallbackPrompt => {
                        cfg.fallback_prompt_file = Some(v);
                    },
                    OptKind::LockFile => {
                        cfg.lock_file = Some(v);
                    },
                    OptKind::MaxRounds => {
                        match parse_u32(v.as_str()) {
                            Some(n) => {
                                cfg.max_rounds = n;
                            },
                            None => {
                                return Err(ArgError::NotANumber(flag_text(k)));
                            },
                        }
                    },
                    _ => {
                        match parse_u64(v.as_str()) {
                            Some(n) => {
                                cfg.lock_ttl_sec = n;
                            },
                            None => {
                                return Err(ArgError::NotANumber(flag_text(k)));
                            },
                        }
                    },
                }
                i = i + 2;
            },
        }
    }
    Ok(Invocation::Run(cfg))
}


/// Seconds a capture command may run: `CODEX_CUA_CAPTURE_TIMEOUT_SEC` when it is
/// a number from 1 to 30, else 2.
pub open spec fn capture_timeout_spec(var: Option<Seq<char>>) -> nat {
    match var {
        Some(v) => match parse_unsigned_spec(v, u64::MAX as nat) {
            Some(n) => if 1 <= n && n <= 30 {
                n
            } else {
                2
            },
            None => 2,
        },
        None => 2,
    }
}

/// Seconds a capture command may run, from `CODEX_CUA_CAPTURE_TIMEOUT_SEC`.
pub fn capture_timeout_sec(var: &Option<String>) -> (s: u64)
    ensures
        s as nat == capture_timeout_spec(opt_view(*var)),
        1 <= s <= 30,
{
    match var {
        Some(v) => match parse_u64(v.as_str()) {
            Some(n) => if 1 <= n && n <= 30 {
                n
            } else {
                2
            },
            None => 2,
        },
        None => 2,
    }
}

} // verus!
