//! The graphical self-install: when a launch is one, where things go, and what is said.

use vstd::prelude::*;

use crate::error::{outcome, seen, CliError, ErrorView};
use crate::host_channel::BROKER_LAUNCHD_LABEL;
use crate::text::{
    chars_of, ends_with, join2, join4, join5, last_of, starts_with, the_last_position_is_the_last,
};

verus! {

/// Whether an argument is one that the Finder leaves when it launches an app.
pub open spec fn launch_artifact(arg: Seq<char>) -> bool {
    "-psn_"@.is_prefix_of(arg) || "-NS"@.is_prefix_of(arg)
}

/// Whether a launch comes from a double-click: it passes nothing but launch artifacts, and
/// neither input nor output is a terminal.
pub open spec fn gui_launch(args: Seq<String>, stdin_tty: bool, stdout_tty: bool) -> bool {
    !stdin_tty && !stdout_tty && forall|i: int|
        0 <= i < args.len() ==> launch_artifact((#[trigger] args[i])@)
}

/// Whether a launch comes from a double-click. Any argument but a launch artifact is a
/// deliberate call.
pub fn is_gui_invocation(extra_args: &Vec<String>, stdin_tty: bool, stdout_tty: bool) -> (r: bool)
    ensures
        r == gui_launch(extra_args@, stdin_tty, stdout_tty),
{
    let mut i: usize = 0;
    while i < extra_args.len()
        invariant
            i <= extra_args@.len(),
            forall|k: int| 0 <= k < i ==> launch_artifact((#[trigger] extra_args@[k])@),
        decreases extra_args@.len() - i,
    {
        let a = &extra_args[i];
        if !starts_with(a, "-psn_") && !starts_with(a, "-NS") {
            assert(!launch_artifact(extra_args@[i as int]@));
            return false;
        }
        i = i + 1;
    }
    !stdin_tty && !stdout_tty
}

/// A launch with any argument that is no launch artifact, be it a subcommand or a flag, or with a
/// terminal on either side, is never taken for a double-click.
pub proof fn deliberate_calls_reach_the_command_line(
    args: Seq<String>,
    stdin_tty: bool,
    stdout_tty: bool,
)
    requires
        stdin_tty || stdout_tty || exists|i: int|
            0 <= i < args.len() && !launch_artifact((#[trigger] args[i])@),
    ensures
        !gui_launch(args, stdin_tty, stdout_tty),
{
}

/// The folder of a resolved path: what stands before its last slash.
pub open spec fn folder(path: Seq<char>) -> Seq<char> {
    let slash = last_of(path, '/');
    if slash >= 0 {
        path.take(slash)
    } else {
        Seq::empty()
    }
}

/// The last part of a resolved path: what stands behind its last slash.
pub open spec fn last_part(path: Seq<char>) -> Seq<char> {
    path.skip(last_of(path, '/') + 1)
}

/// The app bundle that a resolved binary lies in: three folders up, where that folder's name has
/// the extension `app`.
pub open spec fn bundle(exe: Seq<char>) -> Option<Seq<char>> {
    let at = folder(folder(folder(exe)));
    let name = last_part(at);
    if name.len() > 4 && ".app"@.is_suffix_of(name) {
        Some(at)
    } else {
        None
    }
}

fn slash_of(path: &str) -> (r: Option<usize>)
    ensures
        match r {
            Some(i) => last_of(path@, '/') == i && i < path@.len(),
            None => last_of(path@, '/') == -1,
        },
{
    let chars = chars_of(path);
    let mut i: usize = chars.len();
    assert(path@.take(i as int) =~= path@);
    while i > 0 && chars[i - 1] != '/'
        invariant
            i <= chars@.len(),
            chars@ == path@,
            last_of(path@, '/') == last_of(path@.take(i as int), '/'),
        decreases i,
    {
        assert(path@.take(i as int).drop_last() =~= path@.take(i - 1));
        i = i - 1;
    }
    if i > 0 {
        assert(path@.take(i as int).last() == '/');
        Some(i - 1)
    } else {
        None
    }
}

fn parent<'a>(path: &'a str) -> (r: &'a str)
    ensures
        r@ == folder(path@),
{
    match slash_of(path) {
        Some(i) => {
            assert(path@.subrange(0, i as int) =~= path@.take(i as int));
            path.substring_char(0, i)
        },
        None => {
            assert(path@.subrange(0, 0) =~= Seq::empty());
            path.substring_char(0, 0)
        },
    }
}

/// The app bundle that a binary lies in, given its resolved path: `<app>.app/Contents/MacOS/` and
/// the binary's name. None for a bare binary.
pub fn app_bundle(exe: &str) -> (r: Option<String>)
    ensures
        seen(r) == bundle(exe@),
{
    let at = parent(parent(parent(exe)));
    let n: usize = at.unicode_len();
    let start: usize = match slash_of(at) {
        Some(i) => i + 1,
        None => 0,
    };
    let name = at.substring_char(start, n);
    assert(name@ =~= last_part(at@));
    if name.unicode_len() > 4 && ends_with(name, ".app") {
        Some(at.to_owned())
    } else {
        None
    }
}

/// Why a bare binary installs nothing.
pub fn not_in_an_app() -> (e: CliError)
    ensures
        e@ == ErrorView::invalid_args(
            "Signet must be installed by double-clicking the Signet app, not by running a bare binary."@,
        ),
{
    CliError::invalid_args(
        "Signet must be installed by double-clicking the Signet app, not by running a bare binary.",
    )
}

/// The broker's launch agent, as a property list.
pub open spec fn broker_plist(
    app_bin: Seq<char>,
    cred_path: Seq<char>,
    bind: Seq<char>,
    log: Seq<char>,
) -> Seq<char> {
    "<?xml version=\"1.0\" encoding=\"UTF-8\"?>\n<!DOCTYPE plist PUBLIC \"-//Apple//DTD PLIST 1.0//EN\" \"http://www.apple.com/DTDs/PropertyList-1.0.dtd\">\n<plist version=\"1.0\">\n<dict>\n  <key>Label</key><string>"@
        + BROKER_LAUNCHD_LABEL@
        + "</string>\n  <key>ProgramArguments</key>\n  <array>\n    <string>"@ + app_bin
        + "</string>\n    <string>broker</string>\n    <string>serve</string>\n    <string>--credential</string>\n    <string>"@
        + cred_path + "</string>\n    <string>--bind</string>\n    <string>"@ + bind
        + "</string>\n  </array>\n  <key>RunAtLoad</key><true/>\n  <key>KeepAlive</key><true/>\n  <key>ProcessType</key><string>Background</string>\n  <key>StandardErrorPath</key><string>"@
        + log + "</string>\n  <key>StandardOutPath</key><string>"@ + log
        + "</string>\n</dict>\n</plist>\n"@
}

/// The broker's launch agent: it serves with a credential on an address, from install on and
/// always, and logs to a file.
pub fn broker_launchagent_plist(app_bin: &str, cred_path: &str, bind: &str, log: &str) -> (r:
    String)
    ensures
        r@ == broker_plist(app_bin@, cred_path@, bind@, log@),
{
    let mut s = join5(
        "<?xml version=\"1.0\" encoding=\"UTF-8\"?>\n<!DOCTYPE plist PUBLIC \"-//Apple//DTD PLIST 1.0//EN\" \"http://www.apple.com/DTDs/PropertyList-1.0.dtd\">\n<plist version=\"1.0\">\n<dict>\n  <key>Label</key><string>",
        BROKER_LAUNCHD_LABEL,
        "</string>\n  <key>ProgramArguments</key>\n  <array>\n    <string>",
        app_bin,
        "</string>\n    <string>broker</string>\n    <string>serve</string>\n    <string>--credential</string>\n    <string>",
    );
    s.append(cred_path);
    s.append("</string>\n    <string>--bind</string>\n    <string>");
    s.append(bind);
    s.append(
        "</string>\n  </array>\n  <key>RunAtLoad</key><true/>\n  <key>KeepAlive</key><true/>\n  <key>ProcessType</key><string>Background</string>\n  <key>StandardErrorPath</key><string>",
    );
    s.append(log);
    s.append("</string>\n  <key>StandardOutPath</key><string>");
    s.append(log);
    s.append("</string>\n</dict>\n</plist>\n");
    s
}

/// The home directory, which must be set.
pub fn home_dir(home: Option<&str>) -> (r: Result<String, CliError>)
    ensures
        outcome(r) == match crate::json::opt_str(home) {
            Some(h) if h.len() > 0 => Ok::<Seq<char>, ErrorView>(h),
            _ => Err(ErrorView::config("HOME is not set"@)),
        },
{
    match home {
        Some(h) => {
            if h.unicode_len() > 0 {
                return Ok(h.to_owned());
            }
        },
        None => {},
    }
    Err(CliError::config("HOME is not set"))
}

/// Where an install puts things.
pub struct InstallPaths {
    pub support_dir: String,
    pub app: String,
    pub app_bin: String,
    pub log_dir: String,
    pub log: String,
    pub agents_dir: String,
    pub plist: String,
}

/// [`InstallPaths`], viewed.
pub struct InstallPlaces {
    pub support_dir: Seq<char>,
    pub app: Seq<char>,
    pub app_bin: Seq<char>,
    pub log_dir: Seq<char>,
    pub log: Seq<char>,
    pub agents_dir: Seq<char>,
    pub plist: Seq<char>,
}

impl View for InstallPaths {
    type V = InstallPlaces;

    open spec fn view(&self) -> InstallPlaces {
        InstallPlaces {
            support_dir: self.support_dir@,
            app: self.app@,
            app_bin: self.app_bin@,
            log_dir: self.log_dir@,
            log: self.log@,
            agents_dir: self.agents_dir@,
            plist: self.plist@,
        }
    }
}

/// Where an install under a home directory puts things.
pub open spec fn install_places(home: Seq<char>) -> InstallPlaces {
    InstallPlaces {
        support_dir: home + "/Library/Application Support/Signet"@,
        app: home + "/Library/Application Support/Signet/signet.app"@,
        app_bin: home + "/Library/Application Support/Signet/signet.app/Contents/MacOS/signet"@,
        log_dir: home + "/Library/Logs/Signet"@,
        log: home + "/Library/Logs/Signet/broker.log"@,
        agents_dir: home + "/Library/LaunchAgents"@,
        plist: home + "/Library/LaunchAgents/"@ + BROKER_LAUNCHD_LABEL@ + ".plist"@,
    }
}

/// The places of an install under a home directory.
pub fn install_paths(home: &str) -> (p: InstallPaths)
    ensures
        p@ == install_places(home@),
{
    InstallPaths {
        support_dir: join2(home, "/Library/Application Support/Signet"),
        app: join2(home, "/Library/Application Support/Signet/signet.app"),
        app_bin: join2(
            home,
            "/Library/Application Support/Signet/signet.app/Contents/MacOS/signet",
        ),
        log_dir: join2(home, "/Library/Logs/Signet"),
        log: join2(home, "/Library/Logs/Signet/broker.log"),
        agents_dir: join2(home, "/Library/LaunchAgents"),
        plist: join4(home, "/Library/LaunchAgents/", BROKER_LAUNCHD_LABEL, ".plist"),
    }
}

/// What is said after an install.
pub fn install_summary(app: &str, shim: &str) -> (r: String)
    ensures
        r@
            == "Signet is installed.\n\nYou won’t see a window; it works quietly whenever your AI uses Signet Drive, like Touch ID. A small ◉ in the menu bar confirms Signet is running; it’s there now, ready for your first PRSN.\n\nApp: "@
            + app@ + "\nCLI: "@ + shim@,
{
    join4(
        "Signet is installed.\n\nYou won’t see a window; it works quietly whenever your AI uses Signet Drive, like Touch ID. A small ◉ in the menu bar confirms Signet is running; it’s there now, ready for your first PRSN.\n\nApp: ",
        app,
        "\nCLI: ",
        shim,
    )
}

/// What an install's dialog says, its title first, and the exit code.
pub fn install_result(r: Result<String, CliError>) -> (d: (&'static str, String, i32))
    ensures
        match r {
            Ok(summary) => d.0@ == "Signet is set up"@ && d.1@ == summary@ && d.2 == 0,
            Err(e) => d.0@ == "Signet setup didn’t finish"@ && d.1@ == e@.line()
                + "\n\nYou can double-click Signet again to retry."@ && d.2 == 1,
        },
{
    match r {
        Ok(summary) => ("Signet is set up", summary, 0),
        Err(e) => (
            "Signet setup didn’t finish",
            join2(&e.to_line(), "\n\nYou can double-click Signet again to retry."),
            1,
        ),
    }
}

/// A launch without an argument, or with launch artifacts alone, away from any terminal, is a
/// double-click.
pub proof fn a_bare_launch_is_a_double_click(args: Seq<String>)
    requires
        forall|i: int|
            0 <= i < args.len() ==> "-psn_"@.is_prefix_of((#[trigger] args[i])@)
                || "-NS"@.is_prefix_of(args[i]@),
    ensures
        gui_launch(args, false, false),
{
    assert forall|i: int| 0 <= i < args.len() implies launch_artifact((#[trigger] args[i])@) by {}
}

proof fn folder_of(before: Seq<char>, name: Seq<char>)
    requires
        !name.contains('/'),
    ensures
        folder(before + seq!['/'] + name) == before,
        last_part(before + seq!['/'] + name) == name,
{
    let path = before + seq!['/'] + name;
    the_last_position_is_the_last(path, '/');
    let at = before.len() as int;
    assert(path[at] == '/');
    let slash = last_of(path, '/');
    if slash < at {
        assert(path[at] != '/');
    }
    if slash > at {
        assert(name[slash - at - 1] == '/');
    }
    assert(path.take(at) =~= before);
    assert(path.skip(at + 1) =~= name);
}

/// A binary in the `Contents/MacOS` of an app, under whatever name, lies in that app.
pub proof fn a_binary_lies_in_its_app(parent: Seq<char>, app: Seq<char>, name: Seq<char>)
    requires
        app.len() > 4,
        ".app"@.is_suffix_of(app),
        !app.contains('/'),
        !name.contains('/'),
    ensures
        bundle(parent + seq!['/'] + app + "/Contents/MacOS/"@ + name) == Some(
            parent + seq!['/'] + app,
        ),
{
    reveal_strlit("/Contents/MacOS/");
    reveal_strlit("Contents");
    reveal_strlit("MacOS");
    let at = parent + seq!['/'] + app;
    let contents = at + seq!['/'] + "Contents"@;
    let macos = contents + seq!['/'] + "MacOS"@;
    let exe = macos + seq!['/'] + name;
    assert(parent + seq!['/'] + app + "/Contents/MacOS/"@ + name =~= exe);
    folder_of(macos, name);
    folder_of(contents, "MacOS"@);
    folder_of(at, "Contents"@);
    folder_of(parent, app);
}

/// A folder whose name has not the extension `app` is no app: a binary three folders below it
/// lies in none.
pub proof fn a_bare_binary_lies_in_no_app(exe: Seq<char>)
    requires
        !".app"@.is_suffix_of(folder(folder(folder(exe)))),
    ensures
        bundle(exe) is None,
{
    let at = folder(folder(folder(exe)));
    let name = last_part(at);
    the_last_position_is_the_last(at, '/');
    if ".app"@.is_suffix_of(name) && name.len() > 4 {
        assert(at.skip(at.len() - ".app"@.len()) =~= name.skip(name.len() - ".app"@.len()));
        assert(".app"@.is_suffix_of(at));
    }
}

/// An install keeps to the home directory: the app is in its own folder there and the binary in
/// the app, the log in the folder of the logs, and the launch agent where agents are found.
pub proof fn an_install_keeps_to_its_folders(home: Seq<char>)
    ensures
        ({
            let p = install_places(home);
            &&& p.support_dir == home + "/Library/Application Support/Signet"@
            &&& p.app == p.support_dir + "/signet.app"@
            &&& p.app_bin == p.app + "/Contents/MacOS/signet"@
            &&& p.log_dir == home + "/Library/Logs/Signet"@
            &&& p.log == p.log_dir + "/broker.log"@
            &&& p.agents_dir == home + "/Library/LaunchAgents"@
            &&& p.plist == p.agents_dir + "/"@ + "ai.prsnex.signet.broker"@ + ".plist"@
            &&& bundle(p.app_bin) == Some(p.app)
        }),
{
    reveal_strlit("/Library/Application Support/Signet");
    reveal_strlit("/Library/Application Support/Signet/signet.app");
    reveal_strlit("/Library/Application Support/Signet/signet.app/Contents/MacOS/signet");
    reveal_strlit("/signet.app");
    reveal_strlit("signet.app");
    reveal_strlit(".app");
    reveal_strlit("/Contents/MacOS/signet");
    reveal_strlit("/Contents/MacOS/");
    reveal_strlit("signet");
    reveal_strlit("/Library/Logs/Signet");
    reveal_strlit("/Library/Logs/Signet/broker.log");
    reveal_strlit("/broker.log");
    reveal_strlit("/Library/LaunchAgents");
    reveal_strlit("/Library/LaunchAgents/");
    reveal_strlit("/");
    let p = install_places(home);
    assert(p.app =~= p.support_dir + "/signet.app"@);
    assert(p.app_bin =~= p.app + "/Contents/MacOS/signet"@);
    assert(p.log =~= p.log_dir + "/broker.log"@);
    assert(p.plist =~= p.agents_dir + "/"@ + "ai.prsnex.signet.broker"@ + ".plist"@);
    assert(p.app =~= p.support_dir + seq!['/'] + "signet.app"@);
    assert(p.app_bin =~= p.support_dir + seq!['/'] + "signet.app"@ + "/Contents/MacOS/"@
        + "signet"@);
    assert("signet.app"@.skip(6) =~= ".app"@);
    a_binary_lies_in_its_app(p.support_dir, "signet.app"@, "signet"@);
}

} // verus!
