use vstd::prelude::*;
use crate::paths::{file_name, path_is_file};
use crate::registry::RawBrowser;
use crate::text::{contains, decimal, lower_of, str_contains, to_lower, u16_to_decimal};

verus! {

/// The engine grouping that decides which command-line flags a browser takes.
#[derive(PartialEq, Eq, Structural, Clone, Copy, Debug)]
pub enum Family {
    Firefox,
    Chromium,
}

/// What goes wrong before a launch can be planned.
#[derive(Debug)]
pub enum LaunchError {
    /// The selected browser has no executable path.
    NoExecutablePath,
    /// No regular file is at the executable path.
    ExecutableNotFound(String),
}

/// What a launch does: the profile directory to create, the argument vector with
/// the program first, and whether a process is to be spawned at all.
pub struct LaunchPlan {
    pub profile_dir: String,
    pub args: Vec<String>,
    pub spawn: bool,
}

/// The family of a lower-cased executable name: Firefox where it holds "firefox".
pub open spec fn family_of(exe_lower: Seq<char>) -> Family {
    if contains(exe_lower, "firefox"@) {
        Family::Firefox
    } else {
        Family::Chromium
    }
}

/// `profiles/<exe>/<profile>`, with the platform's separator.
pub open spec fn profile_dir_of(sep: Seq<char>, exe_lower: Seq<char>, profile: Seq<char>) -> Seq<char> {
    "profiles"@ + sep + exe_lower + sep + profile
}

/// The program and the flags that isolate the profile.
pub open spec fn base_args(exec: Seq<char>, family: Family, dir: Seq<char>) -> Seq<Seq<char>> {
    match family {
        Family::Firefox => seq![exec, "-profile"@, dir],
        Family::Chromium => seq![exec, "--user-data-dir="@ + dir],
    }
}

/// The allowed origins: those given, else the local address on the port.
pub open spec fn origins_value(port: u16, origins: Option<Seq<char>>) -> Seq<char> {
    match origins {
        Some(o) => o,
        None => "http://localhost:"@ + decimal(port as nat),
    }
}

/// The remote-debugging flags for a port; none for port zero, which disables them.
pub open spec fn debug_args(family: Family, port: u16, origins: Option<Seq<char>>) -> Seq<Seq<char>> {
    if port == 0 {
        Seq::empty()
    } else {
        match family {
            Family::Firefox => seq!["-start-debugger-server"@, decimal(port as nat)],
            Family::Chromium => seq![
                "--remote-debugging-port="@ + decimal(port as nat),
                "--remote-allow-origins="@ + origins_value(port, origins),
            ],
        }
    }
}

/// The whole argument vector of a launch.
pub open spec fn launch_args(
    exec: Seq<char>,
    family: Family,
    dir: Seq<char>,
    port: Option<u16>,
    origins: Option<Seq<char>>,
) -> Seq<Seq<char>> {
    base_args(exec, family, dir) + match port {
        Some(p) => debug_args(family, p, origins),
        None => Seq::empty(),
    }
}

/// The texts of the arguments.
pub open spec fn views(v: Seq<String>) -> Seq<Seq<char>> {
    v.map_values(|s: String| s@)
}

/// The text of an optional argument.
pub open spec fn opt_view(o: Option<&str>) -> Option<Seq<char>> {
    match o {
        Some(s) => Some(s@),
        None => None,
    }
}

/// A port of zero gives the same arguments as no port at all: no debug flags.
pub proof fn lemma_port_zero_disables(
    exec: Seq<char>,
    family: Family,
    dir: Seq<char>,
    origins: Option<Seq<char>>,
)
    ensures
        launch_args(exec, family, dir, Some(0u16), origins) == launch_args(exec, family, dir, None, origins),
        launch_args(exec, family, dir, Some(0u16), origins) == base_args(exec, family, dir),
{
    assert(base_args(exec, family, dir) + Seq::<Seq<char>>::empty() =~= base_args(exec, family, dir));
}

/// Whether a requested debug port may be used: absent, or at least 1024.
pub fn debug_port_allowed(port: Option<u16>) -> (r: bool)
    ensures
        r == (match port {
            Some(p) => p >= 1024,
            None => true,
        }),
{
    match port {
        Some(p) => p >= 1024,
        None => true,
    }
}

/// Relies on `std::path::MAIN_SEPARATOR_STR`: the platform's path separator.
#[verifier::external_body]
fn main_separator() -> (r: &'static str) {
    std::path::MAIN_SEPARATOR_STR
}

/// The family of a lower-cased executable name.
pub fn family_of_name(exe_lower: &str) -> (r: Family)
    ensures
        r == family_of(exe_lower@),
{
    if str_contains(exe_lower, "firefox") {
        Family::Firefox
    } else {
        Family::Chromium
    }
}

/// The lower-cased name of an executable at this path: that of a non-empty part of
/// the path (its file name), or of `browser`.
pub open spec fn exe_name_fits(path: Seq<char>, exe: Seq<char>) -> bool {
    ||| exe == lower_of("browser"@)
    ||| exists|f: Seq<char>| f.len() > 0 && contains(path, f) && exe == lower_of(f)
}

/// The lower-cased file name of the executable, or `browser` where the path has none.
fn exe_name_lower(exec_path: &str) -> (r: String)
    ensures
        exe_name_fits(exec_path@, r@),
{
    match file_name(exec_path) {
        Some(f) => to_lower(f.as_str()),
        None => to_lower("browser"),
    }
}

/// `profiles/<exe>/<profile>` with the given separator.
pub fn profile_dir_with(sep: &str, exe_lower: &str, profile_name: &str) -> (r: String)
    ensures
        r@ == profile_dir_of(sep@, exe_lower@, profile_name@),
{
    String::from_str("profiles").concat(sep).concat(exe_lower).concat(sep).concat(profile_name)
}

/// The argument vector that isolates the profile.
pub fn build_launch_command(exec_path: &str, family: Family, profile_dir: &str) -> (r: Vec<String>)
    ensures
        views(r@) == base_args(exec_path@, family, profile_dir@),
{
    let mut v: Vec<String> = Vec::new();
    v.push(String::from_str(exec_path));
    match family {
        Family::Firefox => {
            v.push(String::from_str("-profile"));
            v.push(String::from_str(profile_dir));
        },
        Family::Chromium => {
            v.push(String::from_str("--user-data-dir=").concat(profile_dir));
        },
    }
    assert(views(v@) =~= base_args(exec_path@, family, profile_dir@));
    v
}

/// Appends the remote-debugging flags for the port, none for port zero.
pub fn add_remote_debug_flag(
    cmd: Vec<String>,
    family: Family,
    port: u16,
    remote_allow_origins: Option<&str>,
) -> (r: Vec<String>)
    ensures
        views(r@) == views(cmd@) + debug_args(family, port, opt_view(remote_allow_origins)),
{
    let mut cmd = cmd;
    let ghost before = cmd@;
    if port == 0 {
        assert(views(cmd@) + Seq::<Seq<char>>::empty() =~= views(cmd@));
        return cmd;
    }
    let digits = u16_to_decimal(port);
    match family {
        Family::Firefox => {
            cmd.push(String::from_str("-start-debugger-server"));
            cmd.push(u16_to_decimal(port));
        },
        Family::Chromium => {
            cmd.push(String::from_str("--remote-debugging-port=").concat(digits.as_str()));
            let origins = match remote_allow_origins {
                Some(o) => String::from_str(o),
                None => String::from_str("http://localhost:").concat(digits.as_str()),
            };
            cmd.push(String::from_str("--remote-allow-origins=").concat(origins.as_str()));
        },
    }
    assert(views(cmd@) =~= views(before) + debug_args(family, port, opt_view(remote_allow_origins)));
    cmd
}

/// The plan of a launch of `exec_path`, whose lower-cased file name is `exe_lower`,
/// with the given separator: a dry run spawns nothing.
pub fn make_plan(
    exec_path: &str,
    exe_lower: &str,
    sep: &str,
    profile_name: &str,
    dry_run: bool,
    remote_debug_port: Option<u16>,
    remote_allow_origins: Option<&str>,
) -> (r: LaunchPlan)
    ensures
        r.profile_dir@ == profile_dir_of(sep@, exe_lower@, profile_name@),
        views(r.args@) == launch_args(
            exec_path@,
            family_of(exe_lower@),
            r.profile_dir@,
            remote_debug_port,
            opt_view(remote_allow_origins),
        ),
        r.spawn == !dry_run,
{
    let profile_dir = profile_dir_with(sep, exe_lower, profile_name);
    let family = family_of_name(exe_lower);
    let base = build_launch_command(exec_path, family, profile_dir.as_str());
    let args = match remote_debug_port {
        Some(port) => add_remote_debug_flag(base, family, port, remote_allow_origins),
        None => {
            assert(views(base@) + Seq::<Seq<char>>::empty() =~= views(base@));
            base
        },
    };
    LaunchPlan { profile_dir, args, spawn: !dry_run }
}

/// Checks the launch preconditions and plans the launch: the browser needs a path,
/// and a regular file must be there.
pub fn plan_launch(
    browser: &RawBrowser,
    profile_name: &str,
    dry_run: bool,
    remote_debug_port: Option<u16>,
    remote_allow_origins: Option<&str>,
) -> (r: Result<LaunchPlan, LaunchError>)
    ensures
        browser.path is None <==> r matches Err(LaunchError::NoExecutablePath),
        r matches Err(LaunchError::ExecutableNotFound(p)) ==> (browser.path matches Some(q) && p@
            == q@),
        r matches Ok(plan) ==> (browser.path matches Some(q) && plan.spawn == !dry_run && exists|
            sep: Seq<char>,
            exe: Seq<char>,
        |
            exe_name_fits(q@, exe) && plan.profile_dir@ == profile_dir_of(sep, exe, profile_name@) && views(plan.args@)
                == launch_args(
                q@,
                family_of(exe),
                plan.profile_dir@,
                remote_debug_port,
                opt_view(remote_allow_origins),
            )),
{
    let path = match &browser.path {
        Some(p) => p,
        None => {
            return Err(LaunchError::NoExecutablePath);
        },
    };
    if !path_is_file(path.as_str()) {
        return Err(LaunchError::ExecutableNotFound(path.clone()));
    }
    let exe = exe_name_lower(path.as_str());
    let plan = make_plan(
        path.as_str(),
        exe.as_str(),
        main_separator(),
        profile_name,
        dry_run,
        remote_debug_port,
        remote_allow_origins,
    );
    Ok(plan)
}

impl LaunchError {
    /// The error in words.
    pub fn message(&self) -> (r: String)
        ensures
            self matches LaunchError::NoExecutablePath ==> r@ == "Selected browser has no executable path."@,
            self matches LaunchError::ExecutableNotFound(p) ==> r@ == "Executable not found: "@ + p@,
    {
        match self {
            LaunchError::NoExecutablePath => String::from_str("Selected browser has no executable path."),
            LaunchError::ExecutableNotFound(p) => String::from_str("Executable not found: ").concat(p.as_str()),
        }
    }
}

} // verus!
