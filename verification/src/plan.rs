//! Planning the platform-specific reveal command.
//!
//! Revealing a file means opening the OS file manager with that file
//! selected or its directory shown. Which external program does that, and
//! with which arguments, differs per platform family. The planner here is
//! pure: it turns a platform, a path and (on one branch) a directory hint
//! into a [`SpawnPlan`], and the unverified shell around the library
//! performs the spawn itself.

use crate::errors::RevealError;
use crate::path_text::contains_char;
use crate::path_text::ends_with_char;
use crate::path_text::parent_dir;
use crate::path_text::spec_parent_dir;
use crate::path_text::str_eq;
use vstd::prelude::*;
use vstd::string::StrSliceExecFns;
use vstd::string::StringExecFns;

verus! {

/// The operating-system families the bridge knows how to address.
#[derive(Clone, Copy, Debug, PartialEq, Eq, Structural)]
pub enum Platform {
    Windows,
    MacOs,
    Linux,
}

/// One external command to run: the program, its arguments, and whether it
/// must be launched detached from the caller (a daemonized fire-and-forget
/// spawn that outlives the handler).
pub struct SpawnPlan {
    pub program: String,
    pub args: Vec<String>,
    pub detach: bool,
}

/// The mathematical shape of a [`SpawnPlan`].
#[verifier::ext_equal]
pub struct SpawnPlanView {
    pub program: Seq<char>,
    pub args: Seq<Seq<char>>,
    pub detach: bool,
}

impl View for SpawnPlan {
    type V = SpawnPlanView;

    open spec fn view(&self) -> SpawnPlanView {
        SpawnPlanView {
            program: self.program@,
            args: self.args.deep_view(),
            detach: self.detach,
        }
    }
}

/// The platform family behind an operating-system name, as the compile
/// target or a runtime probe reports it.
pub open spec fn spec_platform_of(os_name: Seq<char>) -> Option<Platform> {
    if os_name == "windows"@ {
        Some(Platform::Windows)
    } else if os_name == "macos"@ {
        Some(Platform::MacOs)
    } else if os_name == "linux"@ {
        Some(Platform::Linux)
    } else {
        None
    }
}

/// Maps an operating-system name to its platform family; any name outside
/// the three supported families is refused.
pub fn platform_from_os_name(os_name: &str) -> (platform: Option<Platform>)
    ensures
        platform == spec_platform_of(os_name@),
{
    if str_eq(os_name, "windows") {
        Some(Platform::Windows)
    } else if str_eq(os_name, "macos") {
        Some(Platform::MacOs)
    } else if str_eq(os_name, "linux") {
        Some(Platform::Linux)
    } else {
        None
    }
}

/// The file URI argument of the session-bus request that asks the desktop
/// file manager to show `path`.
pub open spec fn spec_show_items_uri_arg(path: Seq<char>) -> Seq<char> {
    "array:string:\"file://"@ + path + "\""@
}

/// The command that reveals `path` on `platform`.
///
/// Windows always selects the item itself in the explorer. On macOS a path
/// with a trailing separator is opened as a directory, any other path is
/// revealed in select mode. On Linux a path holding a comma is resolved to
/// a directory (`path` itself when it is one, else its parent) and opened
/// generically; a path without a comma becomes a detached session-bus
/// request asking the file-manager service to show the file URI.
pub open spec fn spec_reveal_plan(
    platform: Platform,
    path: Seq<char>,
    path_is_dir: bool,
) -> SpawnPlanView {
    match platform {
        Platform::Windows => SpawnPlanView {
            program: "explorer"@,
            args: seq!["/select,"@, path],
            detach: false,
        },
        Platform::MacOs => {
            if path.len() > 0 && path.last() == '/' {
                SpawnPlanView { program: "open"@, args: seq![path], detach: false }
            } else {
                SpawnPlanView { program: "open"@, args: seq!["-R"@, path], detach: false }
            }
        },
        Platform::Linux => {
            if path.contains(',') {
                SpawnPlanView {
                    program: "xdg-open"@,
                    args: seq![if path_is_dir { path } else { spec_parent_dir(path) }],
                    detach: false,
                }
            } else {
                SpawnPlanView {
                    program: "dbus-send"@,
                    args: seq![
                        "--session"@,
                        "--dest=org.freedesktop.FileManager1"@,
                        "--type=method_call"@,
                        "/org/freedesktop/FileManager1"@,
                        "org.freedesktop.FileManager1.ShowItems"@,
                        spec_show_items_uri_arg(path),
                        "string:\"\""@,
                    ],
                    detach: true,
                }
            }
        },
    }
}

/// Whether planning the reveal of `path` depends on knowing if `path` is a
/// directory: only the Linux comma branch inspects the file system.
pub fn needs_dir_probe(platform: Platform, path: &str) -> (needed: bool)
    ensures
        needed == (platform == Platform::Linux && path@.contains(',')),
{
    platform == Platform::Linux && contains_char(path, ',')
}

/// Builds the reveal command for `path` on `platform`, as
/// [`spec_reveal_plan`] lays it down. `path_is_dir` is consulted only where
/// the plan depends on it (the Linux comma branch).
pub fn reveal_plan(platform: Platform, path: &str, path_is_dir: bool) -> (plan: SpawnPlan)
    ensures
        plan@ == spec_reveal_plan(platform, path@, path_is_dir),
{
    match platform {
        Platform::Windows => {
            let mut args: Vec<String> = Vec::new();
            args.push(String::from_str("/select,"));
            args.push(String::from_str(path));
            let plan = SpawnPlan { program: String::from_str("explorer"), args, detach: false };
            proof {
                assert(plan@ =~~= spec_reveal_plan(platform, path@, path_is_dir));
            }
            plan
        },
        Platform::MacOs => {
            if ends_with_char(path, '/') {
                let mut args: Vec<String> = Vec::new();
                args.push(String::from_str(path));
                let plan = SpawnPlan { program: String::from_str("open"), args, detach: false };
                proof {
                    assert(plan@ =~~= spec_reveal_plan(platform, path@, path_is_dir));
                }
                plan
            } else {
                let mut args: Vec<String> = Vec::new();
                args.push(String::from_str("-R"));
                args.push(String::from_str(path));
                let plan = SpawnPlan { program: String::from_str("open"), args, detach: false };
                proof {
                    assert(plan@ =~~= spec_reveal_plan(platform, path@, path_is_dir));
                }
                plan
            }
        },
        Platform::Linux => {
            if contains_char(path, ',') {
                let target = if path_is_dir {
                    String::from_str(path)
                } else {
                    parent_dir(path)
                };
                let mut args: Vec<String> = Vec::new();
                args.push(target);
                let plan = SpawnPlan { program: String::from_str("xdg-open"), args, detach: false };
                proof {
                    assert(plan@ =~~= spec_reveal_plan(platform, path@, path_is_dir));
                }
                plan
            } else {
                let mut uri_arg = String::from_str("array:string:\"file://");
                uri_arg.append(path);
                uri_arg.append("\"");
                let mut args: Vec<String> = Vec::new();
                args.push(String::from_str("--session"));
                args.push(String::from_str("--dest=org.freedesktop.FileManager1"));
                args.push(String::from_str("--type=method_call"));
                args.push(String::from_str("/org/freedesktop/FileManager1"));
                args.push(String::from_str("org.freedesktop.FileManager1.ShowItems"));
                args.push(uri_arg);
                args.push(String::from_str("string:\"\""));
                let plan = SpawnPlan { program: String::from_str("dbus-send"), args, detach: true };
                proof {
                    assert(plan@ =~~= spec_reveal_plan(platform, path@, path_is_dir));
                }
                plan
            }
        },
    }
}

/// Revealing the same path twice builds the same plan both times: the plan
/// is a function of the arguments alone, so no state carries over from one
/// invocation to the next and neither outcome depends on the other.
pub proof fn lemma_reveal_plan_repeatable(
    platform: Platform,
    path: Seq<char>,
    path_is_dir: bool,
    first: SpawnPlanView,
    second: SpawnPlanView,
)
    requires
        first == spec_reveal_plan(platform, path, path_is_dir),
        second == spec_reveal_plan(platform, path, path_is_dir),
    ensures
        first == second,
{
}

/// Plans the reveal of `path` on the host that `os_name` names. The probe
/// result `path_is_dir` is consulted only where the plan depends on it.
/// Exactly the names outside the three supported families are refused.
pub fn plan_reveal(os_name: &str, path: &str, path_is_dir: bool) -> (result: Result<
    SpawnPlan,
    RevealError,
>)
    ensures
        spec_platform_of(os_name@) is Some ==> result is Ok && result->Ok_0@
            == spec_reveal_plan(spec_platform_of(os_name@)->0, path@, path_is_dir),
        spec_platform_of(os_name@) is None ==> result is Err && result->Err_0
            == RevealError::UnsupportedPlatform,
{
    match platform_from_os_name(os_name) {
        Some(platform) => Ok(reveal_plan(platform, path, path_is_dir)),
        None => Err(RevealError::UnsupportedPlatform),
    }
}

} // verus!
