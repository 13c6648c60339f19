//! Command-line arguments of the `hooks` subcommand, which installs,
//! inspects and removes the agent runtime hooks.
use vstd::prelude::*;
use vstd::string::*;
use crate::board_state::{all_digits, digits_value, parse_usize, unsigned_digits};
use crate::text::{blank, contains_str, contains_text, is_blank, owned, str_eq, str_trim, string_push, trim, views};

verus! {

/// Which hooks are installed.
#[derive(Clone, Copy, Debug, PartialEq, Eq, Structural)]
pub enum HookMode {
    Monitor,
    Turn,
    Both,
    Off,
}

/// The agent runtime that the hooks go into: its name, as `--runtime`
/// spells it, and the settings file that the hooks go to unless
/// `--settings` names one.
#[derive(Debug)]
pub struct HookRuntime {
    pub name: String,
    pub settings: String,
}

pub type HookRuntimeView = (Seq<char>, Seq<char>);

impl View for HookRuntime {
    type V = HookRuntimeView;

    open spec fn view(&self) -> HookRuntimeView {
        (self.name@, self.settings@)
    }
}

/// A bridge program that receives delivered handoffs.
#[derive(Debug)]
pub struct BridgeConfig {
    pub command: String,
    pub args: Vec<String>,
}

/// The arguments of `hooks install`.
#[derive(Debug)]
pub struct HookInstall {
    pub mode: HookMode,
    pub settings: String,
    pub for_agent: String,
    pub claim_token: String,
    pub run_dir: String,
    pub bridge: Option<BridgeConfig>,
}

/// A parsed `hooks` command line.
#[derive(Debug)]
pub enum HookCommand {
    Install(HookInstall),
    Uninstall { settings: String },
    Status { settings: String },
    StopWatcher { for_agent: String, run_dir: String },
    Help,
}

/// Why a `hooks` command line was refused.
#[derive(Clone, Copy, Debug, PartialEq, Eq, Structural)]
pub enum HookErrorKind {
    UnknownAction,
    Usage,
    UnknownInstallArgument,
    UnknownStopWatcherArgument,
    UnknownArgument,
    UnsupportedRuntime,
    ForAgentRequired,
    ClaimTokenRequired,
    BadMode,
    MissingValue,
    Required,
}

/// A refused `hooks` command line: the reason and the offending text.
#[derive(Debug)]
pub struct HookError {
    pub kind: HookErrorKind,
    pub detail: String,
}

impl View for HookError {
    type V = (HookErrorKind, Seq<char>);

    open spec fn view(&self) -> (HookErrorKind, Seq<char>) {
        (self.kind, self.detail@)
    }
}

pub struct HookInstallView {
    pub mode: HookMode,
    pub settings: Seq<char>,
    pub for_agent: Seq<char>,
    pub claim_token: Seq<char>,
    pub run_dir: Seq<char>,
    pub bridge: Option<(Seq<char>, Seq<Seq<char>>)>,
}

pub enum HookCommandView {
    Install(HookInstallView),
    Uninstall { settings: Seq<char> },
    Status { settings: Seq<char> },
    StopWatcher { for_agent: Seq<char>, run_dir: Seq<char> },
    Help,
}

impl View for HookInstall {
    type V = HookInstallView;

    open spec fn view(&self) -> HookInstallView {
        HookInstallView {
            mode: self.mode,
            settings: self.settings@,
            for_agent: self.for_agent@,
            claim_token: self.claim_token@,
            run_dir: self.run_dir@,
            bridge: match self.bridge {
                Some(b) => Some((b.command@, views(b.args@))),
                None => None,
            },
        }
    }
}

impl View for HookCommand {
    type V = HookCommandView;

    open spec fn view(&self) -> HookCommandView {
        match self {
            HookCommand::Install(i) => HookCommandView::Install(i@),
            HookCommand::Uninstall { settings } => HookCommandView::Uninstall {
                settings: settings@,
            },
            HookCommand::Status { settings } => HookCommandView::Status { settings: settings@ },
            HookCommand::StopWatcher { for_agent, run_dir } => HookCommandView::StopWatcher {
                for_agent: for_agent@,
                run_dir: run_dir@,
            },
            HookCommand::Help => HookCommandView::Help,
        }
    }
}

pub type HookErr = (HookErrorKind, Seq<char>);

/// The usage text of the `hooks` subcommand, for the agent runtime named
/// `runtime`.
pub open spec fn usage_text(runtime: Seq<char>) -> Seq<char> {
    "usage: kanterm-mcp hooks install --runtime "@ + runtime + usage_tail()
}

pub open spec fn usage_tail() -> Seq<char> {
    " --mode monitor|turn|both|off --for-agent ID --claim-token TOKEN [--settings PATH] [--run-dir DIR] [--bridge-command PROGRAM --bridge-arg ARG ...]\n       kanterm-mcp hooks status [--settings PATH]\n       kanterm-mcp hooks uninstall [--settings PATH]\n       kanterm-mcp hooks stop-watcher --for-agent ID [--run-dir DIR]"@
}

/// The message that `HookError::message` renders.
pub open spec fn hook_error_message(kind: HookErrorKind, d: Seq<char>) -> Seq<char> {
    match kind {
        HookErrorKind::UnknownAction => "unknown hooks action: "@ + d,
        HookErrorKind::Usage => usage_text(d),
        HookErrorKind::UnknownInstallArgument => "unknown hooks install argument: "@ + d,
        HookErrorKind::UnknownStopWatcherArgument => "unknown hooks stop-watcher argument: "@ + d,
        HookErrorKind::UnknownArgument => "unknown hooks argument: "@ + d,
        HookErrorKind::UnsupportedRuntime => "unsupported hooks runtime: "@ + d,
        HookErrorKind::ForAgentRequired => "--for-agent is required unless --mode off"@,
        HookErrorKind::ClaimTokenRequired => "--claim-token is required unless --mode off"@,
        HookErrorKind::BadMode => "mode must be monitor, turn, both, or off"@,
        HookErrorKind::MissingValue => d + " requires a value"@,
        HookErrorKind::Required => d + " is required"@,
    }
}

pub open spec fn mode_name_spec(mode: HookMode) -> Seq<char> {
    match mode {
        HookMode::Monitor => "monitor"@,
        HookMode::Turn => "turn"@,
        HookMode::Both => "both"@,
        HookMode::Off => "off"@,
    }
}

pub open spec fn parse_mode_spec(v: Seq<char>) -> Result<HookMode, HookErr> {
    if v == "monitor"@ {
        Ok(HookMode::Monitor)
    } else if v == "turn"@ {
        Ok(HookMode::Turn)
    } else if v == "both"@ {
        Ok(HookMode::Both)
    } else if v == "off"@ {
        Ok(HookMode::Off)
    } else {
        Err((HookErrorKind::BadMode, Seq::empty()))
    }
}

/// The value after an option: present and not blank.
pub open spec fn required_value_spec(a: Seq<Seq<char>>, i: int, name: Seq<char>) -> Result<
    Seq<char>,
    HookErr,
> {
    if 0 <= i < a.len() && !blank(a[i]) {
        Ok(a[i])
    } else {
        Err((HookErrorKind::MissingValue, name))
    }
}

/// The options of `hooks install` read so far.
pub struct InstallScan {
    pub runtime: Option<Seq<char>>,
    pub mode: Option<HookMode>,
    pub settings: Seq<char>,
    pub for_agent: Option<Seq<char>>,
    pub claim_token: Option<Seq<char>>,
    pub run_dir: Seq<char>,
    pub bridge_command: Option<Seq<char>>,
    pub bridge_args: Seq<Seq<char>>,
}

/// Reads the options of `hooks install` from position `i` on.
pub open spec fn install_scan(a: Seq<Seq<char>>, i: int, st: InstallScan, rt: Seq<char>) -> Result<
    InstallScan,
    HookErr,
>
    decreases a.len() - i,
{
    if i < 0 || i >= a.len() {
        Ok(st)
    } else {
        let arg = a[i];
        if arg == "--runtime"@ {
            match required_value_spec(a, i + 1, "--runtime"@) {
                Err(e) => Err(e),
                Ok(v) => install_scan(a, i + 2, InstallScan { runtime: Some(v), ..st }, rt),
            }
        } else if arg == "--mode"@ {
            match required_value_spec(a, i + 1, "--mode"@) {
                Err(e) => Err(e),
                Ok(v) => match parse_mode_spec(v) {
                    Err(e) => Err(e),
                    Ok(m) => install_scan(a, i + 2, InstallScan { mode: Some(m), ..st }, rt),
                },
            }
        } else if arg == "--settings"@ {
            match required_value_spec(a, i + 1, "--settings"@) {
                Err(e) => Err(e),
                Ok(v) => install_scan(a, i + 2, InstallScan { settings: v, ..st }, rt),
            }
        } else if arg == "--for-agent"@ {
            match required_value_spec(a, i + 1, "--for-agent"@) {
                Err(e) => Err(e),
                Ok(v) => install_scan(a, i + 2, InstallScan { for_agent: Some(v), ..st }, rt),
            }
        } else if arg == "--claim-token"@ {
            match required_value_spec(a, i + 1, "--claim-token"@) {
                Err(e) => Err(e),
                Ok(v) => install_scan(a, i + 2, InstallScan { claim_token: Some(v), ..st }, rt),
            }
        } else if arg == "--run-dir"@ {
            match required_value_spec(a, i + 1, "--run-dir"@) {
                Err(e) => Err(e),
                Ok(v) => install_scan(a, i + 2, InstallScan { run_dir: v, ..st }, rt),
            }
        } else if arg == "--bridge-command"@ {
            match required_value_spec(a, i + 1, "--bridge-command"@) {
                Err(e) => Err(e),
                Ok(v) => install_scan(a, i + 2, InstallScan { bridge_command: Some(v), ..st }, rt),
            }
        } else if arg == "--bridge-arg"@ {
            match required_value_spec(a, i + 1, "--bridge-arg"@) {
                Err(e) => Err(e),
                Ok(v) => install_scan(
                    a,
                    i + 2,
                    InstallScan { bridge_args: st.bridge_args.push(v), ..st },
                    rt,
                ),
            }
        } else if arg == "--help"@ || arg == "-h"@ {
            Err((HookErrorKind::Usage, rt))
        } else {
            Err((HookErrorKind::UnknownInstallArgument, arg))
        }
    }
}

/// The defaults of `hooks install` before any option.
pub open spec fn install_defaults(run_dir: Seq<char>, settings: Seq<char>) -> InstallScan {
    InstallScan {
        runtime: None,
        mode: None,
        settings: settings,
        for_agent: None,
        claim_token: None,
        run_dir: run_dir,
        bridge_command: None,
        bridge_args: Seq::empty(),
    }
}

/// The install request that the options read describe, or why it is refused.
pub open spec fn finish_install(st: InstallScan, rt: Seq<char>) -> Result<HookInstallView, HookErr> {
    let runtime = match st.runtime {
        Some(r) => r,
        None => rt,
    };
    let mode = match st.mode {
        Some(m) => m,
        None => HookMode::Both,
    };
    if runtime != rt {
        Err((HookErrorKind::UnsupportedRuntime, runtime))
    } else if mode != HookMode::Off && st.for_agent is None {
        Err((HookErrorKind::ForAgentRequired, Seq::empty()))
    } else if mode != HookMode::Off && st.claim_token is None {
        Err((HookErrorKind::ClaimTokenRequired, Seq::empty()))
    } else {
        Ok(
            HookInstallView {
                mode: mode,
                settings: st.settings,
                for_agent: match st.for_agent {
                    Some(f) => f,
                    None => Seq::empty(),
                },
                claim_token: match st.claim_token {
                    Some(c) => c,
                    None => Seq::empty(),
                },
                run_dir: st.run_dir,
                bridge: match st.bridge_command {
                    Some(c) => Some((c, st.bridge_args)),
                    None => None,
                },
            },
        )
    }
}

pub open spec fn parse_install_spec(a: Seq<Seq<char>>, rt: HookRuntimeView, run_dir: Seq<char>) -> Result<
    HookInstallView,
    HookErr,
> {
    match install_scan(a, 0, install_defaults(run_dir, rt.1), rt.0) {
        Err(e) => Err(e),
        Ok(st) => finish_install(st, rt.0),
    }
}

/// Reads `--settings`/`--runtime` options from position `i` on.
pub open spec fn settings_scan(a: Seq<Seq<char>>, i: int, settings: Seq<char>, rt: Seq<char>) -> Result<
    Seq<char>,
    HookErr,
>
    decreases a.len() - i,
{
    if i < 0 || i >= a.len() {
        Ok(settings)
    } else {
        let arg = a[i];
        if arg == "--settings"@ {
            match required_value_spec(a, i + 1, "--settings"@) {
                Err(e) => Err(e),
                Ok(v) => settings_scan(a, i + 2, v, rt),
            }
        } else if arg == "--runtime"@ {
            match required_value_spec(a, i + 1, "--runtime"@) {
                Err(e) => Err(e),
                Ok(v) => if v != rt {
                    Err((HookErrorKind::UnsupportedRuntime, v))
                } else {
                    settings_scan(a, i + 2, settings, rt)
                },
            }
        } else if arg == "--help"@ || arg == "-h"@ {
            Err((HookErrorKind::Usage, rt))
        } else {
            Err((HookErrorKind::UnknownArgument, arg))
        }
    }
}

/// The options of `hooks stop-watcher` read so far; `help` ends the scan.
pub struct StopScan {
    pub for_agent: Option<Seq<char>>,
    pub run_dir: Seq<char>,
    pub help: bool,
}

pub open spec fn stop_scan(a: Seq<Seq<char>>, i: int, st: StopScan) -> Result<StopScan, HookErr>
    decreases a.len() - i,
{
    if i < 0 || i >= a.len() {
        Ok(st)
    } else {
        let arg = a[i];
        if arg == "--for-agent"@ {
            match required_value_spec(a, i + 1, "--for-agent"@) {
                Err(e) => Err(e),
                Ok(v) => stop_scan(a, i + 2, StopScan { for_agent: Some(v), ..st }),
            }
        } else if arg == "--run-dir"@ {
            match required_value_spec(a, i + 1, "--run-dir"@) {
                Err(e) => Err(e),
                Ok(v) => stop_scan(a, i + 2, StopScan { run_dir: v, ..st }),
            }
        } else if arg == "--help"@ || arg == "-h"@ {
            Ok(StopScan { help: true, ..st })
        } else {
            Err((HookErrorKind::UnknownStopWatcherArgument, arg))
        }
    }
}

pub open spec fn parse_stop_watcher_spec(a: Seq<Seq<char>>, run_dir: Seq<char>) -> Result<
    HookCommandView,
    HookErr,
> {
    match stop_scan(a, 0, StopScan { for_agent: None, run_dir: run_dir, help: false }) {
        Err(e) => Err(e),
        Ok(st) => if st.help {
            Ok(HookCommandView::Help)
        } else {
            match st.for_agent {
                Some(f) => if blank(f) {
                    Err((HookErrorKind::Required, "--for-agent"@))
                } else {
                    Ok(HookCommandView::StopWatcher { for_agent: f, run_dir: st.run_dir })
                },
                None => Err((HookErrorKind::Required, "--for-agent"@)),
            }
        },
    }
}

/// What a `hooks` command line (the words after `hooks`) asks for.
pub open spec fn parse_spec(a: Seq<Seq<char>>, rt: HookRuntimeView, run_dir: Seq<char>) -> Result<
    HookCommandView,
    HookErr,
> {
    if a.len() == 0 {
        Ok(HookCommandView::Help)
    } else {
        let action = a[0];
        let rest = a.subrange(1, a.len() as int);
        if action == "install"@ {
            match parse_install_spec(rest, rt, run_dir) {
                Err(e) => Err(e),
                Ok(i) => Ok(HookCommandView::Install(i)),
            }
        } else if action == "uninstall"@ {
            match settings_scan(rest, 0, rt.1, rt.0) {
                Err(e) => Err(e),
                Ok(s) => Ok(HookCommandView::Uninstall { settings: s }),
            }
        } else if action == "status"@ {
            match settings_scan(rest, 0, rt.1, rt.0) {
                Err(e) => Err(e),
                Ok(s) => Ok(HookCommandView::Status { settings: s }),
            }
        } else if action == "stop-watcher"@ {
            parse_stop_watcher_spec(rest, run_dir)
        } else if action == "--help"@ || action == "-h"@ {
            Ok(HookCommandView::Help)
        } else {
            Err((HookErrorKind::UnknownAction, action))
        }
    }
}

pub open spec fn arg_views(a: Seq<String>) -> Seq<Seq<char>> {
    views(a)
}

impl HookError {
    fn new(kind: HookErrorKind, detail: &str) -> (e: HookError)
        ensures
            e@ == (kind, detail@),
    {
        HookError { kind, detail: owned(detail) }
    }

    /// The human-readable message of this error.
    pub fn message(&self) -> (m: String)
        ensures
            m@ == hook_error_message(self.kind, self.detail@),
    {
        let d = self.detail.as_str();
        match self.kind {
            HookErrorKind::UnknownAction => owned("unknown hooks action: ").concat(d),
            HookErrorKind::Usage => usage(d),
            HookErrorKind::UnknownInstallArgument => owned("unknown hooks install argument: ").concat(d),
            HookErrorKind::UnknownStopWatcherArgument => owned("unknown hooks stop-watcher argument: ").concat(d),
            HookErrorKind::UnknownArgument => owned("unknown hooks argument: ").concat(d),
            HookErrorKind::UnsupportedRuntime => owned("unsupported hooks runtime: ").concat(d),
            HookErrorKind::ForAgentRequired => owned("--for-agent is required unless --mode off"),
            HookErrorKind::ClaimTokenRequired => owned("--claim-token is required unless --mode off"),
            HookErrorKind::BadMode => owned("mode must be monitor, turn, both, or off"),
            HookErrorKind::MissingValue => owned(d).concat(" requires a value"),
            HookErrorKind::Required => owned(d).concat(" is required"),
        }
    }
}

/// The usage text of the `hooks` subcommand, for the agent runtime named
/// `runtime`.
pub fn usage(runtime: &str) -> (r: String)
    ensures
        r@ == usage_text(runtime@),
{
    owned("usage: kanterm-mcp hooks install --runtime ").concat(runtime).concat(
        " --mode monitor|turn|both|off --for-agent ID --claim-token TOKEN [--settings PATH] [--run-dir DIR] [--bridge-command PROGRAM --bridge-arg ARG ...]\n       kanterm-mcp hooks status [--settings PATH]\n       kanterm-mcp hooks uninstall [--settings PATH]\n       kanterm-mcp hooks stop-watcher --for-agent ID [--run-dir DIR]",
    )
}

/// The name of a hook mode, as the command line spells it.
pub fn mode_name(mode: HookMode) -> (r: &'static str)
    ensures
        r@ == mode_name_spec(mode),
{
    match mode {
        HookMode::Monitor => "monitor",
        HookMode::Turn => "turn",
        HookMode::Both => "both",
        HookMode::Off => "off",
    }
}

/// Reads a hook mode name.
pub fn parse_mode(mode: &str) -> (r: Result<HookMode, HookError>)
    ensures
        match (r, parse_mode_spec(mode@)) {
            (Ok(m), Ok(ms)) => m == ms,
            (Err(e), Err(es)) => e@ == es,
            _ => false,
        },
{
    if str_eq(mode, "monitor") {
        Ok(HookMode::Monitor)
    } else if str_eq(mode, "turn") {
        Ok(HookMode::Turn)
    } else if str_eq(mode, "both") {
        Ok(HookMode::Both)
    } else if str_eq(mode, "off") {
        Ok(HookMode::Off)
    } else {
        proof {
            reveal_strlit("");
        }
        Err(HookError::new(HookErrorKind::BadMode, ""))
    }
}

/// The value at `index`, unless it is missing or blank.
pub fn required_value<'a>(args: &'a [String], index: usize, name: &str) -> (r: Result<
    &'a str,
    HookError,
>)
    ensures
        match (r, required_value_spec(arg_views(args@), index as int, name@)) {
            (Ok(v), Ok(vs)) => v@ == vs,
            (Err(e), Err(es)) => e@ == es,
            _ => false,
        },
{
    if index < args.len() && !is_blank(args[index].as_str()) {
        Ok(args[index].as_str())
    } else {
        Err(HookError::new(HookErrorKind::MissingValue, name))
    }
}

/// The value of a required option, unless it is missing or blank.
pub fn required_option(value: Option<String>, name: &str) -> (r: Result<String, HookError>)
    ensures
        match r {
            Ok(v) => value == Some(v) && !blank(v@),
            Err(e) => e@ == (HookErrorKind::Required, name@) && match value {
                Some(v) => blank(v@),
                None => true,
            },
        },
{
    match value {
        Some(v) => {
            if is_blank(v.as_str()) {
                Err(HookError::new(HookErrorKind::Required, name))
            } else {
                Ok(v)
            }
        },
        None => Err(HookError::new(HookErrorKind::Required, name)),
    }
}

pub open spec fn opt_view(o: Option<String>) -> Option<Seq<char>> {
    match o {
        Some(s) => Some(s@),
        None => None,
    }
}

/// Reads the arguments of `hooks install` for the agent runtime `runtime`;
/// `default_run_dir` is where the run files go unless `--run-dir` names a
/// directory.
pub fn parse_install(args: &[String], runtime: &HookRuntime, default_run_dir: &str) -> (r: Result<
    HookInstall,
    HookError,
>)
    ensures
        match (r, parse_install_spec(arg_views(args@), runtime@, default_run_dir@)) {
            (Ok(i), Ok(iv)) => i@ == iv,
            (Err(e), Err(es)) => e@ == es,
            _ => false,
        },
{
    let ghost a = arg_views(args@);
    let ghost rt = runtime@;
    let mut named: Option<String> = None;
    let mut mode: Option<HookMode> = None;
    let mut settings = runtime.settings.clone();
    let mut for_agent: Option<String> = None;
    let mut claim_token: Option<String> = None;
    let mut run_dir = owned(default_run_dir);
    let mut bridge_command: Option<String> = None;
    let mut bridge_args: Vec<String> = Vec::new();
    let mut i: usize = 0;
    assert(views(bridge_args@) =~= Seq::empty());
    while i < args.len()
        invariant
            a == arg_views(args@),
            rt == runtime@,
            install_scan(a, 0, install_defaults(default_run_dir@, rt.1), rt.0) == install_scan(
                a,
                i as int,
                InstallScan {
                    runtime: opt_view(named),
                    mode: mode,
                    settings: settings@,
                    for_agent: opt_view(for_agent),
                    claim_token: opt_view(claim_token),
                    run_dir: run_dir@,
                    bridge_command: opt_view(bridge_command),
                    bridge_args: views(bridge_args@),
                },
                rt.0,
            ),
        decreases args.len() - i,
    {
        let arg = args[i].as_str();
        if str_eq(arg, "--runtime") {
            let v = match required_value(args, i + 1, "--runtime") {
                Ok(v) => v,
                Err(e) => return Err(e),
            };
            named = Some(owned(v));
        } else if str_eq(arg, "--mode") {
            let v = match required_value(args, i + 1, "--mode") {
                Ok(v) => v,
                Err(e) => return Err(e),
            };
            match parse_mode(v) {
                Ok(m) => {
                    mode = Some(m);
                },
                Err(e) => return Err(e),
            }
        } else if str_eq(arg, "--settings") {
            let v = match required_value(args, i + 1, "--settings") {
                Ok(v) => v,
                Err(e) => return Err(e),
            };
            settings = owned(v);
        } else if str_eq(arg, "--for-agent") {
            let v = match required_value(args, i + 1, "--for-agent") {
                Ok(v) => v,
                Err(e) => return Err(e),
            };
            for_agent = Some(owned(v));
        } else if str_eq(arg, "--claim-token") {
            let v = match required_value(args, i + 1, "--claim-token") {
                Ok(v) => v,
                Err(e) => return Err(e),
            };
            claim_token = Some(owned(v));
        } else if str_eq(arg, "--run-dir") {
            let v = match required_value(args, i + 1, "--run-dir") {
                Ok(v) => v,
                Err(e) => return Err(e),
            };
            run_dir = owned(v);
        } else if str_eq(arg, "--bridge-command") {
            let v = match required_value(args, i + 1, "--bridge-command") {
                Ok(v) => v,
                Err(e) => return Err(e),
            };
            bridge_command = Some(owned(v));
        } else if str_eq(arg, "--bridge-arg") {
            let v = match required_value(args, i + 1, "--bridge-arg") {
                Ok(v) => v,
                Err(e) => return Err(e),
            };
            let ghost before = views(bridge_args@);
            bridge_args.push(owned(v));
            assert(views(bridge_args@) =~= before.push(v@));
        } else if str_eq(arg, "--help") || str_eq(arg, "-h") {
            return Err(HookError::new(HookErrorKind::Usage, runtime.name.as_str()));
        } else {
            return Err(HookError::new(HookErrorKind::UnknownInstallArgument, arg));
        }
        i = i + 2;
    }
    let runtime_ok = match &named {
        Some(r) => str_eq(r.as_str(), runtime.name.as_str()),
        None => true,
    };
    if !runtime_ok {
        let r = named.unwrap();
        return Err(HookError { kind: HookErrorKind::UnsupportedRuntime, detail: r });
    }
    let mode = match mode {
        Some(m) => m,
        None => HookMode::Both,
    };
    proof {
        reveal_strlit("");
    }
    if mode != HookMode::Off && for_agent.is_none() {
        return Err(HookError::new(HookErrorKind::ForAgentRequired, ""));
    }
    if mode != HookMode::Off && claim_token.is_none() {
        return Err(HookError::new(HookErrorKind::ClaimTokenRequired, ""));
    }
    let bridge = match bridge_command {
        Some(command) => Some(BridgeConfig { command, args: bridge_args }),
        None => None,
    };
    let for_agent = match for_agent {
        Some(f) => f,
        None => String::new(),
    };
    let claim_token = match claim_token {
        Some(c) => c,
        None => String::new(),
    };
    Ok(HookInstall { mode, settings, for_agent, claim_token, run_dir, bridge })
}

/// Reads the arguments of `hooks status` and `hooks uninstall`: the
/// settings file, and an optional runtime that must be `runtime`.
pub fn parse_settings_only(args: &[String], runtime: &HookRuntime) -> (r: Result<String, HookError>)
    ensures
        match (r, settings_scan(arg_views(args@), 0, runtime.settings@, runtime.name@)) {
            (Ok(s), Ok(ss)) => s@ == ss,
            (Err(e), Err(es)) => e@ == es,
            _ => false,
        },
{
    let ghost a = arg_views(args@);
    let mut settings = runtime.settings.clone();
    let mut i: usize = 0;
    while i < args.len()
        invariant
            a == arg_views(args@),
            settings_scan(a, 0, runtime.settings@, runtime.name@) == settings_scan(
                a,
                i as int,
                settings@,
                runtime.name@,
            ),
        decreases args.len() - i,
    {
        let arg = args[i].as_str();
        if str_eq(arg, "--settings") {
            let v = match required_value(args, i + 1, "--settings") {
                Ok(v) => v,
                Err(e) => return Err(e),
            };
            settings = owned(v);
        } else if str_eq(arg, "--runtime") {
            let v = match required_value(args, i + 1, "--runtime") {
                Ok(v) => v,
                Err(e) => return Err(e),
            };
            if !str_eq(v, runtime.name.as_str()) {
                return Err(HookError::new(HookErrorKind::UnsupportedRuntime, v));
            }
        } else if str_eq(arg, "--help") || str_eq(arg, "-h") {
            return Err(HookError::new(HookErrorKind::Usage, runtime.name.as_str()));
        } else {
            return Err(HookError::new(HookErrorKind::UnknownArgument, arg));
        }
        i = i + 2;
    }
    Ok(settings)
}

/// Reads the arguments of `hooks stop-watcher`.
pub fn parse_stop_watcher(args: &[String], default_run_dir: &str) -> (r: Result<
    HookCommand,
    HookError,
>)
    ensures
        match (r, parse_stop_watcher_spec(arg_views(args@), default_run_dir@)) {
            (Ok(c), Ok(cv)) => c@ == cv,
            (Err(e), Err(es)) => e@ == es,
            _ => false,
        },
{
    let ghost a = arg_views(args@);
    let mut for_agent: Option<String> = None;
    let mut run_dir = owned(default_run_dir);
    let mut i: usize = 0;
    while i < args.len()
        invariant
            a == arg_views(args@),
            stop_scan(a, 0, StopScan { for_agent: None, run_dir: default_run_dir@, help: false })
                == stop_scan(
                a,
                i as int,
                StopScan { for_agent: opt_view(for_agent), run_dir: run_dir@, help: false },
            ),
        decreases args.len() - i,
    {
        let arg = args[i].as_str();
        if str_eq(arg, "--for-agent") {
            let v = match required_value(args, i + 1, "--for-agent") {
                Ok(v) => v,
                Err(e) => return Err(e),
            };
            for_agent = Some(owned(v));
        } else if str_eq(arg, "--run-dir") {
            let v = match required_value(args, i + 1, "--run-dir") {
                Ok(v) => v,
                Err(e) => return Err(e),
            };
            run_dir = owned(v);
        } else if str_eq(arg, "--help") || str_eq(arg, "-h") {
            return Ok(HookCommand::Help);
        } else {
            return Err(HookError::new(HookErrorKind::UnknownStopWatcherArgument, arg));
        }
        i = i + 2;
    }
    let for_agent = match required_option(for_agent, "--for-agent") {
        Ok(f) => f,
        Err(e) => return Err(e),
    };
    Ok(HookCommand::StopWatcher { for_agent, run_dir })
}

/// Reads a `hooks` command line (the words after `hooks`) for the agent
/// runtime `runtime`.
pub fn parse(args: &[String], runtime: &HookRuntime, default_run_dir: &str) -> (r: Result<
    HookCommand,
    HookError,
>)
    ensures
        match (r, parse_spec(arg_views(args@), runtime@, default_run_dir@)) {
            (Ok(c), Ok(cv)) => c@ == cv,
            (Err(e), Err(es)) => e@ == es,
            _ => false,
        },
{
    if args.len() == 0 {
        return Ok(HookCommand::Help);
    }
    let action = args[0].as_str();
    let (_, rest) = args.split_at(1);
    assert(arg_views(rest@) =~= arg_views(args@).subrange(1, args@.len() as int));
    if str_eq(action, "install") {
        match parse_install(rest, runtime, default_run_dir) {
            Ok(i) => Ok(HookCommand::Install(i)),
            Err(e) => Err(e),
        }
    } else if str_eq(action, "uninstall") {
        match parse_settings_only(rest, runtime) {
            Ok(settings) => Ok(HookCommand::Uninstall { settings }),
            Err(e) => Err(e),
        }
    } else if str_eq(action, "status") {
        match parse_settings_only(rest, runtime) {
            Ok(settings) => Ok(HookCommand::Status { settings }),
            Err(e) => Err(e),
        }
    } else if str_eq(action, "stop-watcher") {
        parse_stop_watcher(rest, default_run_dir)
    } else if str_eq(action, "--help") || str_eq(action, "-h") {
        Ok(HookCommand::Help)
    } else {
        Err(HookError::new(HookErrorKind::UnknownAction, action))
    }
}

/// A file-name-safe form of an agent id: every character other than an
/// ASCII letter, digit, `-`, `_` or `.` becomes `_`.
pub open spec fn safe_char(c: char) -> char {
    if ('a' <= c && c <= 'z') || ('A' <= c && c <= 'Z') || ('0' <= c && c <= '9') || c == '-'
        || c == '_' || c == '.' {
        c
    } else {
        '_'
    }
}

pub open spec fn safe_key_spec(v: Seq<char>) -> Seq<char> {
    v.map_values(|c: char| safe_char(c))
}

/// The agent id made safe for a file name.
pub fn safe_key(value: &str) -> (r: String)
    ensures
        r@ == safe_key_spec(value@),
{
    let n = value.unicode_len();
    let mut out = String::new();
    let mut i: usize = 0;
    while i < n
        invariant
            n == value@.len(),
            i <= n,
            out@ == safe_key_spec(value@.take(i as int)),
        decreases n - i,
    {
        let c = value.get_char(i);
        let keep = ('a' <= c && c <= 'z') || ('A' <= c && c <= 'Z') || ('0' <= c && c <= '9')
            || c == '-' || c == '_' || c == '.';
        string_push(&mut out, if keep { c } else { '_' });
        assert(safe_key_spec(value@.take(i + 1)) =~= safe_key_spec(value@.take(i as int)).push(
            safe_char(c),
        ));
        i = i + 1;
    }
    assert(value@.take(n as int) =~= value@);
    out
}

/// A safe key keeps the length of the agent id and holds only ASCII
/// letters, digits, `-`, `_` and `.`.
pub proof fn safe_keys_are_file_name_safe(v: Seq<char>)
    ensures
        safe_key_spec(v).len() == v.len(),
        forall|i: int|
            0 <= i < v.len() ==> {
                let c = #[trigger] safe_key_spec(v)[i];
                ('a' <= c && c <= 'z') || ('A' <= c && c <= 'Z') || ('0' <= c && c <= '9') || c == '-'
                    || c == '_' || c == '.'
            },
{
}

/// The pid file name of the handoff watcher for `for_agent`.
pub fn pidfile_name(for_agent: &str) -> (r: String)
    ensures
        r@ == "watch."@ + safe_key_spec(for_agent@) + ".pid"@,
{
    owned("watch.").concat(safe_key(for_agent).as_str()).concat(".pid")
}

/// A pid file's contents as a process id: trimmed, an optional `+`, then
/// decimal digits whose value fits in 32 bits.
pub open spec fn parse_pid_spec(contents: Seq<char>) -> Option<u32> {
    let d = unsigned_digits(trim(contents));
    if d.len() > 0 && all_digits(d) && digits_value(d) <= u32::MAX {
        Some(digits_value(d) as u32)
    } else {
        None
    }
}

/// Reads the process id of a pid file's contents, if they hold one.
pub fn parse_pid(contents: &str) -> (r: Option<u32>)
    ensures
        r == parse_pid_spec(contents@),
{
    let t = str_trim(contents);
    let parsed = parse_usize(t);
    proof {
        assert(t@ == trim(contents@));
        assert(usize::MAX >= 0xffff_ffff);
        let d = unsigned_digits(trim(contents@));
        if d.len() > 0 && all_digits(d) {
            crate::board_state::lemma_digits_grow(d, 0);
        }
    }
    match parsed {
        Some(v) => {
            if v <= 0xffff_ffffusize {
                Some(v as u32)
            } else {
                None
            }
        },
        None => {
            proof {
                let d = unsigned_digits(trim(contents@));
                if d.len() > 0 && all_digits(d) {
                    assert(digits_value(d) > usize::MAX);
                }
            }
            None
        },
    }
}

/// A process is the one sought when it is listed and its command line
/// holds both needles.
pub fn process_matches(listed: bool, command: &str, needle_a: &str, needle_b: &str) -> (r: bool)
    ensures
        r == (listed && contains_text(command@, needle_a@) && contains_text(command@, needle_b@)),
{
    listed && contains_str(command, needle_a) && contains_str(command, needle_b)
}

} // verus!
