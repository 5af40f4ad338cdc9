//! The command that opens a link in a given browser and profile.
use vstd::prelude::*;

use crate::glob::chars_of;
use crate::outside::{lowercase, to_lowercase};

verus! {

/// The operating system whose conventions the browser command follows.
#[derive(Debug, Clone, Copy, PartialEq, Eq)]
pub enum TargetOs {
    MacOs,
    Linux,
    Windows,
    Other,
}

/// A program to start and the arguments to hand it.
#[derive(Debug, Clone)]
pub struct BrowserCommand {
    pub program: String,
    pub args: Vec<String>,
}

/// The texts of a list of strings.
pub open spec fn texts(v: Seq<String>) -> Seq<Seq<char>> {
    v.map_values(|a: String| a@)
}

/// The text of an optional string.
pub open spec fn opt_text(o: Option<&str>) -> Option<Seq<char>> {
    match o {
        Some(s) => Some(s@),
        None => None,
    }
}

impl BrowserCommand {
    /// The texts of the arguments, in order.
    pub open spec fn arg_texts(&self) -> Seq<Seq<char>> {
        texts(self.args@)
    }
}

pub open spec fn is_chrome_name(l: Seq<char>) -> bool {
    l == "chrome"@ || l == "com.google.chrome"@ || l == "google chrome"@
}

pub open spec fn is_edge_name(l: Seq<char>) -> bool {
    l == "edge"@ || l == "com.microsoft.edge"@ || l == "microsoft edge"@
}

pub open spec fn is_firefox_name(l: Seq<char>) -> bool {
    l == "firefox"@ || l == "org.mozilla.firefox"@
}

pub open spec fn is_safari_name(l: Seq<char>) -> bool {
    l == "safari"@ || l == "com.apple.safari"@
}

pub open spec fn is_brave_name(l: Seq<char>) -> bool {
    l == "brave"@ || l == "com.brave.browser"@
}

/// The application (macOS) or executable (Linux, Windows) that a
/// lowercased browser name stands for, when it is one of the known names.
pub open spec fn known_app(os: TargetOs, lowered: Seq<char>) -> Option<Seq<char>> {
    match os {
        TargetOs::MacOs => if is_chrome_name(lowered) {
            Some("Google Chrome"@)
        } else if is_edge_name(lowered) || lowered == "com.microsoft.edgemac"@ {
            Some("Microsoft Edge"@)
        } else if is_firefox_name(lowered) {
            Some("Firefox"@)
        } else if is_safari_name(lowered) {
            Some("Safari"@)
        } else if is_brave_name(lowered) {
            Some("Brave Browser"@)
        } else {
            None
        },
        TargetOs::Linux => if is_chrome_name(lowered) {
            Some("google-chrome"@)
        } else if is_edge_name(lowered) {
            Some("microsoft-edge"@)
        } else if is_firefox_name(lowered) {
            Some("firefox"@)
        } else if is_brave_name(lowered) {
            Some("brave-browser"@)
        } else {
            None
        },
        TargetOs::Windows => if is_chrome_name(lowered) {
            Some("chrome.exe"@)
        } else if is_edge_name(lowered) {
            Some("msedge.exe"@)
        } else if is_firefox_name(lowered) {
            Some("firefox.exe"@)
        } else if is_brave_name(lowered) {
            Some("brave.exe"@)
        } else {
            None
        },
        TargetOs::Other => None,
    }
}

/// The application to start: the known one, or the configured name as given.
pub open spec fn app_for(os: TargetOs, lowered: Seq<char>, browser: Seq<char>) -> Seq<char> {
    match known_app(os, lowered) {
        Some(a) => a,
        None => browser,
    }
}

/// Whether a name reads as a macOS bundle identifier (such as
/// `company.thebrowser.Browser`): it has a dot, no space or slash, and is not
/// an application's file name ending in `.app`.
pub open spec fn is_bundle_id(s: Seq<char>) -> bool {
    &&& s.contains('.')
    &&& !s.contains(' ')
    &&& !s.contains('/')
    &&& !(s.len() >= 4 && s.subrange(s.len() - 4, s.len() as int) == seq!['.', 'a', 'p', 'p'])
}

/// How `open` is told which application to start on macOS: by bundle
/// identifier (`-b`) when the name is not a known browser and reads as one,
/// otherwise by application name (`-a`).
pub open spec fn macos_app_args(lowered: Seq<char>, browser: Seq<char>) -> Seq<Seq<char>> {
    if known_app(TargetOs::MacOs, lowered) is None && is_bundle_id(browser) {
        seq!["-b"@, browser]
    } else {
        seq!["-a"@, app_for(TargetOs::MacOs, lowered, browser)]
    }
}

/// Whether a non-empty profile is asked for.
pub open spec fn has_profile(profile: Option<Seq<char>>) -> bool {
    profile matches Some(p) && p.len() > 0
}

/// The arguments that select the profile: `-P <profile>` for Firefox,
/// `--profile-directory=<profile>` for the Chromium family; none when no
/// profile, or an empty one, is asked for.
pub open spec fn profile_flags(firefox_style: bool, profile: Option<Seq<char>>) -> Seq<Seq<char>> {
    match profile {
        Some(p) => if p.len() == 0 {
            seq![]
        } else if firefox_style {
            seq!["-P"@, p]
        } else {
            seq!["--profile-directory="@ + p]
        },
        None => seq![],
    }
}

/// The program that opens the link.
pub open spec fn command_program(os: TargetOs, lowered: Seq<char>, browser: Seq<char>) -> Seq<char> {
    match os {
        TargetOs::MacOs => "open"@,
        TargetOs::Linux => app_for(os, lowered, browser),
        TargetOs::Windows => "cmd"@,
        TargetOs::Other => browser,
    }
}

/// The arguments of the program that opens the link; the link is always last.
pub open spec fn command_args(
    os: TargetOs,
    lowered: Seq<char>,
    browser: Seq<char>,
    profile: Option<Seq<char>>,
    url: Seq<char>,
) -> Seq<Seq<char>> {
    let app = app_for(os, lowered, browser);
    match os {
        TargetOs::MacOs => macos_app_args(lowered, browser) + (if has_profile(profile) {
            seq!["--args"@] + profile_flags(app == "Firefox"@, profile)
        } else {
            seq![]
        }) + seq![url],
        TargetOs::Linux => profile_flags(app == "firefox"@, profile) + seq![url],
        TargetOs::Windows => seq!["/C"@, "start"@, ""@, app] + profile_flags(app == "firefox.exe"@, profile)
            + seq![url],
        TargetOs::Other => seq![url],
    }
}

/// Whether two texts are equal.
fn same_text(a: &str, b: &str) -> (r: bool)
    ensures
        r == (a@ == b@),
{
    a.to_owned() == b.to_owned()
}

/// The application or executable for a known lowercased browser name.
fn known_app_name(os: TargetOs, lowered: &str) -> (r: Option<&'static str>)
    ensures
        opt_text(r) == known_app(os, lowered@),
{
    let chrome = same_text(lowered, "chrome") || same_text(lowered, "com.google.chrome")
        || same_text(lowered, "google chrome");
    let edge = same_text(lowered, "edge") || same_text(lowered, "com.microsoft.edge")
        || same_text(lowered, "microsoft edge");
    let edge_bundle = same_text(lowered, "com.microsoft.edgemac");
    let firefox = same_text(lowered, "firefox") || same_text(lowered, "org.mozilla.firefox");
    let safari = same_text(lowered, "safari") || same_text(lowered, "com.apple.safari");
    let brave = same_text(lowered, "brave") || same_text(lowered, "com.brave.browser");
    match os {
        TargetOs::MacOs => if chrome {
            Some("Google Chrome")
        } else if edge || edge_bundle {
            Some("Microsoft Edge")
        } else if firefox {
            Some("Firefox")
        } else if safari {
            Some("Safari")
        } else if brave {
            Some("Brave Browser")
        } else {
            None
        },
        TargetOs::Linux => if chrome {
            Some("google-chrome")
        } else if edge {
            Some("microsoft-edge")
        } else if firefox {
            Some("firefox")
        } else if brave {
            Some("brave-browser")
        } else {
            None
        },
        TargetOs::Windows => if chrome {
            Some("chrome.exe")
        } else if edge {
            Some("msedge.exe")
        } else if firefox {
            Some("firefox.exe")
        } else if brave {
            Some("brave.exe")
        } else {
            None
        },
        TargetOs::Other => None,
    }
}

/// Whether the name reads as a macOS bundle identifier.
fn looks_like_bundle_id(name: &str) -> (r: bool)
    ensures
        r == is_bundle_id(name@),
{
    let chars = chars_of(name);
    let n = chars.len();
    let mut dot = false;
    let mut space = false;
    let mut slash = false;
    let mut i: usize = 0;
    while i < n
        invariant
            n == chars@.len(),
            chars@ == name@,
            0 <= i <= n,
            dot == chars@.take(i as int).contains('.'),
            space == chars@.take(i as int).contains(' '),
            slash == chars@.take(i as int).contains('/'),
        decreases n - i,
    {
        let c = chars[i];
        assert(chars@.take(i + 1) =~= chars@.take(i as int).push(c));
        if c == '.' {
            dot = true;
        }
        if c == ' ' {
            space = true;
        }
        if c == '/' {
            slash = true;
        }
        proof {
            let t = chars@.take(i + 1);
            assert(t[i as int] == c);
            if dot && c != '.' {
                let k = choose|k: int| 0 <= k < i && chars@.take(i as int)[k] == '.';
                assert(t[k] == '.');
            }
            if space && c != ' ' {
                let k = choose|k: int| 0 <= k < i && chars@.take(i as int)[k] == ' ';
                assert(t[k] == ' ');
            }
            if slash && c != '/' {
                let k = choose|k: int| 0 <= k < i && chars@.take(i as int)[k] == '/';
                assert(t[k] == '/');
            }
            if !dot {
                assert forall|k: int| 0 <= k < i + 1 implies t[k] != '.' by {
                    if k < i {
                        assert(t[k] == chars@.take(i as int)[k]);
                    }
                }
            }
            if !space {
                assert forall|k: int| 0 <= k < i + 1 implies t[k] != ' ' by {
                    if k < i {
                        assert(t[k] == chars@.take(i as int)[k]);
                    }
                }
            }
            if !slash {
                assert forall|k: int| 0 <= k < i + 1 implies t[k] != '/' by {
                    if k < i {
                        assert(t[k] == chars@.take(i as int)[k]);
                    }
                }
            }
        }
        i = i + 1;
    }
    assert(chars@.take(n as int) =~= chars@);
    let app_file = n >= 4 && chars[n - 4] == '.' && chars[n - 3] == 'a' && chars[n - 2] == 'p' && chars[n - 1] == 'p';
    proof {
        if n >= 4 {
            let tail = chars@.subrange(n - 4, n as int);
            if app_file {
                assert(tail =~= seq!['.', 'a', 'p', 'p']);
            } else if tail == seq!['.', 'a', 'p', 'p'] {
                assert(tail[0] == chars@[n - 4]);
                assert(tail[1] == chars@[n - 3]);
                assert(tail[2] == chars@[n - 2]);
                assert(tail[3] == chars@[n - 1]);
            }
        }
    }
    dot && !space && !slash && !app_file
}

/// Appends one argument.
fn push_arg(args: &mut Vec<String>, arg: &str)
    ensures
        texts(final(args)@) == texts(old(args)@).push(arg@),
{
    args.push(arg.to_owned());
    assert(texts(args@) =~= texts(old(args)@).push(arg@));
}

/// Appends the arguments that select the profile.
fn push_profile_flags(args: &mut Vec<String>, firefox_style: bool, profile: Option<&str>)
    ensures
        texts(final(args)@) == texts(old(args)@) + profile_flags(firefox_style, opt_text(profile)),
{
    match profile {
        Some(p) => {
            if p.is_empty() {
                assert(texts(args@) =~= texts(old(args)@) + profile_flags(firefox_style, opt_text(profile)));
            } else if firefox_style {
                push_arg(args, "-P");
                push_arg(args, p);
                assert(texts(args@) =~= texts(old(args)@) + profile_flags(firefox_style, opt_text(profile)));
            } else {
                let mut flag = "--profile-directory=".to_owned();
                flag.append(p);
                push_arg(args, flag.as_str());
                assert(texts(args@) =~= texts(old(args)@) + profile_flags(firefox_style, opt_text(profile)));
            }
        },
        None => {
            assert(texts(args@) =~= texts(old(args)@) + profile_flags(firefox_style, opt_text(profile)));
        },
    }
}

/// Builds the command that opens `url` in `browser` with `profile`, where
/// `lowered` is the browser name in lower case, used to recognise known browsers.
pub fn browser_command_for(
    os: TargetOs,
    browser: &str,
    lowered: &str,
    profile: Option<&str>,
    url: &str,
) -> (cmd: BrowserCommand)
    ensures
        cmd.program@ == command_program(os, lowered@, browser@),
        cmd.arg_texts() == command_args(os, lowered@, browser@, opt_text(profile), url@),
{
    let app: &str = match known_app_name(os, lowered) {
        Some(a) => a,
        None => browser,
    };
    assert(app@ == app_for(os, lowered@, browser@));
    let mut args: Vec<String> = Vec::new();
    assert(texts(args@) =~= seq![]);
    match os {
        TargetOs::MacOs => {
            let by_id = match known_app_name(os, lowered) {
                Some(_) => false,
                None => looks_like_bundle_id(browser),
            };
            if by_id {
                push_arg(&mut args, "-b");
                push_arg(&mut args, browser);
            } else {
                push_arg(&mut args, "-a");
                push_arg(&mut args, app);
            }
            let has = match profile {
                Some(p) => !p.is_empty(),
                None => false,
            };
            if has {
                push_arg(&mut args, "--args");
                push_profile_flags(&mut args, same_text(app, "Firefox"), profile);
            }
            push_arg(&mut args, url);
            assert(texts(args@) =~= command_args(os, lowered@, browser@, opt_text(profile), url@));
            BrowserCommand { program: "open".to_owned(), args }
        },
        TargetOs::Linux => {
            push_profile_flags(&mut args, same_text(app, "firefox"), profile);
            push_arg(&mut args, url);
            assert(texts(args@) =~= command_args(os, lowered@, browser@, opt_text(profile), url@));
            BrowserCommand { program: app.to_owned(), args }
        },
        TargetOs::Windows => {
            push_arg(&mut args, "/C");
            push_arg(&mut args, "start");
            push_arg(&mut args, "");
            push_arg(&mut args, app);
            push_profile_flags(&mut args, same_text(app, "firefox.exe"), profile);
            push_arg(&mut args, url);
            assert(texts(args@) =~= command_args(os, lowered@, browser@, opt_text(profile), url@));
            BrowserCommand { program: "cmd".to_owned(), args }
        },
        TargetOs::Other => {
            push_arg(&mut args, url);
            assert(texts(args@) =~= command_args(os, lowered@, browser@, opt_text(profile), url@));
            BrowserCommand { program: browser.to_owned(), args }
        },
    }
}

/// Builds the command that opens `url` in `browser` with `profile`; browser
/// names are recognised whatever their case.
pub fn get_browser_command(os: TargetOs, browser: &str, profile: Option<&str>, url: &str) -> (cmd: BrowserCommand)
    ensures
        cmd.program@ == command_program(os, lowercase(browser@), browser@),
        cmd.arg_texts() == command_args(os, lowercase(browser@), browser@, opt_text(profile), url@),
{
    let lowered = to_lowercase(browser);
    browser_command_for(os, browser, lowered.as_str(), profile, url)
}


/// The link is always the last argument of the command that opens it.
pub proof fn law_link_is_last_argument(
    os: TargetOs,
    lowered: Seq<char>,
    browser: Seq<char>,
    profile: Option<Seq<char>>,
    url: Seq<char>,
)
    ensures
        command_args(os, lowered, browser, profile, url).len() > 0,
        command_args(os, lowered, browser, profile, url).last() == url,
{
}

/// Asking for an empty profile is the same as asking for none.
pub proof fn law_empty_profile_is_no_profile(os: TargetOs, lowered: Seq<char>, browser: Seq<char>, url: Seq<char>)
    ensures
        command_args(os, lowered, browser, Some(Seq::empty()), url) == command_args(os, lowered, browser, None, url),
{
    assert(command_args(os, lowered, browser, Some(Seq::empty()), url) =~= command_args(
        os,
        lowered,
        browser,
        None,
        url,
    ));
}


/// The browsers that each operating system recognises by name (after
/// lowercasing), and what each name starts: Chrome, Edge, Firefox and Brave
/// everywhere, Safari and Edge's bundle identifier on macOS only; nothing
/// is recognised on other systems.
pub proof fn law_known_browser_names(l: Seq<char>)
    ensures
        (l == "chrome"@ || l == "com.google.chrome"@ || l == "google chrome"@) ==> {
            &&& known_app(TargetOs::MacOs, l) == Some("Google Chrome"@)
            &&& known_app(TargetOs::Linux, l) == Some("google-chrome"@)
            &&& known_app(TargetOs::Windows, l) == Some("chrome.exe"@)
        },
        (l == "edge"@ || l == "com.microsoft.edge"@ || l == "microsoft edge"@) ==> {
            &&& known_app(TargetOs::MacOs, l) == Some("Microsoft Edge"@)
            &&& known_app(TargetOs::Linux, l) == Some("microsoft-edge"@)
            &&& known_app(TargetOs::Windows, l) == Some("msedge.exe"@)
        },
        l == "com.microsoft.edgemac"@ ==> {
            &&& known_app(TargetOs::MacOs, l) == Some("Microsoft Edge"@)
            &&& known_app(TargetOs::Linux, l) is None
            &&& known_app(TargetOs::Windows, l) is None
        },
        (l == "firefox"@ || l == "org.mozilla.firefox"@) ==> {
            &&& known_app(TargetOs::MacOs, l) == Some("Firefox"@)
            &&& known_app(TargetOs::Linux, l) == Some("firefox"@)
            &&& known_app(TargetOs::Windows, l) == Some("firefox.exe"@)
        },
        (l == "safari"@ || l == "com.apple.safari"@) ==> {
            &&& known_app(TargetOs::MacOs, l) == Some("Safari"@)
            &&& known_app(TargetOs::Linux, l) is None
            &&& known_app(TargetOs::Windows, l) is None
        },
        (l == "brave"@ || l == "com.brave.browser"@) ==> {
            &&& known_app(TargetOs::MacOs, l) == Some("Brave Browser"@)
            &&& known_app(TargetOs::Linux, l) == Some("brave-browser"@)
            &&& known_app(TargetOs::Windows, l) == Some("brave.exe"@)
        },
        known_app(TargetOs::Other, l) is None,
{

    reveal_strlit("chrome");
    reveal_strlit("com.google.chrome");
    reveal_strlit("google chrome");
    reveal_strlit("edge");
    reveal_strlit("com.microsoft.edge");
    reveal_strlit("microsoft edge");
    reveal_strlit("com.microsoft.edgemac");
    reveal_strlit("firefox");
    reveal_strlit("org.mozilla.firefox");
    reveal_strlit("safari");
    reveal_strlit("com.apple.safari");
    reveal_strlit("brave");
    reveal_strlit("com.brave.browser");
    reveal_strlit("Google Chrome");
    reveal_strlit("Microsoft Edge");
    reveal_strlit("Firefox");
    reveal_strlit("Safari");
    reveal_strlit("Brave Browser");
    reveal_strlit("google-chrome");
    reveal_strlit("microsoft-edge");
    reveal_strlit("brave-browser");
    reveal_strlit("chrome.exe");
    reveal_strlit("msedge.exe");
    reveal_strlit("firefox.exe");
    reveal_strlit("brave.exe");
    assert("chrome"@.len() == 6);
    assert("com.google.chrome"@.len() == 17);
    assert("google chrome"@.len() == 13);
    assert("edge"@.len() == 4);
    assert("com.microsoft.edge"@.len() == 18);
    assert("microsoft edge"@.len() == 14);
    assert("com.microsoft.edgemac"@.len() == 21);
    assert("firefox"@.len() == 7);
    assert("org.mozilla.firefox"@.len() == 19);
    assert("safari"@.len() == 6);
    assert("com.apple.safari"@.len() == 16);
    assert("brave"@.len() == 5);
    assert("com.brave.browser"@.len() == 17);
    assert("Google Chrome"@.len() == 13);
    assert("Microsoft Edge"@.len() == 14);
    assert("Firefox"@.len() == 7);
    assert("Safari"@.len() == 6);
    assert("Brave Browser"@.len() == 13);
    assert("google-chrome"@.len() == 13);
    assert("microsoft-edge"@.len() == 14);
    assert("brave-browser"@.len() == 13);
    assert("chrome.exe"@.len() == 10);
    assert("msedge.exe"@.len() == 10);
    assert("firefox.exe"@.len() == 11);
    assert("brave.exe"@.len() == 9);
    assert("chrome"@[0] != "safari"@[0]);
    assert("com.google.chrome"@[4] != "com.brave.browser"@[4]);
    assert("firefox"@[0] != "brave-browser"@[0]);
}

/// A name that no system recognises is started as given.
pub proof fn law_unknown_browser_started_as_given(os: TargetOs, l: Seq<char>, browser: Seq<char>)
    requires
        known_app(os, l) is None,
    ensures
        os == TargetOs::Linux ==> command_program(os, l, browser) == browser,
        os == TargetOs::Other ==> command_program(os, l, browser) == browser,
        os == TargetOs::Windows ==> command_args(os, l, browser, None, Seq::empty()).subrange(0, 4) == seq![
            "/C"@,
            "start"@,
            ""@,
            browser,
        ],
{
    if os == TargetOs::Windows {
        assert(command_args(os, l, browser, None, Seq::empty()).subrange(0, 4) =~= seq!["/C"@, "start"@, ""@, browser]);
    }
}

/// The command for each system, with a non-empty profile `p`: Firefox gets
/// `-P <p>`, the Chromium family `--profile-directory=<p>`; macOS starts the
/// application through `open -a ... --args`, Windows through `cmd /C start`,
/// Linux and other systems start the program itself; the link comes last.
pub proof fn law_browser_commands(p: Seq<char>, url: Seq<char>)
    requires
        p.len() > 0,
    ensures
        command_program(TargetOs::Linux, "firefox"@, "firefox"@) == "firefox"@,
        command_args(TargetOs::Linux, "firefox"@, "firefox"@, Some(p), url) == seq!["-P"@, p, url],
        command_program(TargetOs::Linux, "chrome"@, "chrome"@) == "google-chrome"@,
        command_args(TargetOs::Linux, "chrome"@, "chrome"@, Some(p), url) == seq![
            "--profile-directory="@ + p,
            url,
        ],
        command_args(TargetOs::Linux, "chrome"@, "chrome"@, None, url) == seq![url],
        command_program(TargetOs::Windows, "edge"@, "edge"@) == "cmd"@,
        command_args(TargetOs::Windows, "edge"@, "edge"@, Some(p), url) == seq![
            "/C"@,
            "start"@,
            ""@,
            "msedge.exe"@,
            "--profile-directory="@ + p,
            url,
        ],
        command_args(TargetOs::Windows, "firefox"@, "firefox"@, Some(p), url) == seq![
            "/C"@,
            "start"@,
            ""@,
            "firefox.exe"@,
            "-P"@,
            p,
            url,
        ],
        command_program(TargetOs::MacOs, "chrome"@, "chrome"@) == "open"@,
        command_args(TargetOs::MacOs, "chrome"@, "chrome"@, Some(p), url) == seq![
            "-a"@,
            "Google Chrome"@,
            "--args"@,
            "--profile-directory="@ + p,
            url,
        ],
        command_args(TargetOs::MacOs, "firefox"@, "firefox"@, Some(p), url) == seq![
            "-a"@,
            "Firefox"@,
            "--args"@,
            "-P"@,
            p,
            url,
        ],
        command_args(TargetOs::MacOs, "firefox"@, "firefox"@, None, url) == seq!["-a"@, "Firefox"@, url],
        command_program(TargetOs::Other, "chrome"@, "chrome"@) == "chrome"@,
        command_args(TargetOs::Other, "chrome"@, "chrome"@, Some(p), url) == seq![url],
{

    reveal_strlit("chrome");
    reveal_strlit("com.google.chrome");
    reveal_strlit("google chrome");
    reveal_strlit("edge");
    reveal_strlit("com.microsoft.edge");
    reveal_strlit("microsoft edge");
    reveal_strlit("com.microsoft.edgemac");
    reveal_strlit("firefox");
    reveal_strlit("org.mozilla.firefox");
    reveal_strlit("safari");
    reveal_strlit("com.apple.safari");
    reveal_strlit("brave");
    reveal_strlit("com.brave.browser");
    reveal_strlit("Google Chrome");
    reveal_strlit("Microsoft Edge");
    reveal_strlit("Firefox");
    reveal_strlit("Safari");
    reveal_strlit("Brave Browser");
    reveal_strlit("google-chrome");
    reveal_strlit("microsoft-edge");
    reveal_strlit("brave-browser");
    reveal_strlit("chrome.exe");
    reveal_strlit("msedge.exe");
    reveal_strlit("firefox.exe");
    reveal_strlit("brave.exe");
    assert("chrome"@.len() == 6);
    assert("com.google.chrome"@.len() == 17);
    assert("google chrome"@.len() == 13);
    assert("edge"@.len() == 4);
    assert("com.microsoft.edge"@.len() == 18);
    assert("microsoft edge"@.len() == 14);
    assert("com.microsoft.edgemac"@.len() == 21);
    assert("firefox"@.len() == 7);
    assert("org.mozilla.firefox"@.len() == 19);
    assert("safari"@.len() == 6);
    assert("com.apple.safari"@.len() == 16);
    assert("brave"@.len() == 5);
    assert("com.brave.browser"@.len() == 17);
    assert("Google Chrome"@.len() == 13);
    assert("Microsoft Edge"@.len() == 14);
    assert("Firefox"@.len() == 7);
    assert("Safari"@.len() == 6);
    assert("Brave Browser"@.len() == 13);
    assert("google-chrome"@.len() == 13);
    assert("microsoft-edge"@.len() == 14);
    assert("brave-browser"@.len() == 13);
    assert("chrome.exe"@.len() == 10);
    assert("msedge.exe"@.len() == 10);
    assert("firefox.exe"@.len() == 11);
    assert("brave.exe"@.len() == 9);
    assert("chrome"@[0] != "safari"@[0]);
    assert("com.google.chrome"@[4] != "com.brave.browser"@[4]);
    assert("firefox"@[0] != "brave-browser"@[0]);
    law_known_browser_names("firefox"@);
    law_known_browser_names("chrome"@);
    law_known_browser_names("edge"@);
    assert(command_args(TargetOs::Linux, "firefox"@, "firefox"@, Some(p), url) =~= seq!["-P"@, p, url]);
    assert(command_args(TargetOs::Linux, "chrome"@, "chrome"@, Some(p), url) =~= seq![
        "--profile-directory="@ + p,
        url,
    ]);
    assert(command_args(TargetOs::Linux, "chrome"@, "chrome"@, None, url) =~= seq![url]);
    assert(command_args(TargetOs::Windows, "edge"@, "edge"@, Some(p), url) =~= seq![
        "/C"@,
        "start"@,
        ""@,
        "msedge.exe"@,
        "--profile-directory="@ + p,
        url,
    ]);
    assert(command_args(TargetOs::Windows, "firefox"@, "firefox"@, Some(p), url) =~= seq![
        "/C"@,
        "start"@,
        ""@,
        "firefox.exe"@,
        "-P"@,
        p,
        url,
    ]);
    assert(command_args(TargetOs::MacOs, "chrome"@, "chrome"@, Some(p), url) =~= seq![
        "-a"@,
        "Google Chrome"@,
        "--args"@,
        "--profile-directory="@ + p,
        url,
    ]);
    assert(command_args(TargetOs::MacOs, "firefox"@, "firefox"@, Some(p), url) =~= seq![
        "-a"@,
        "Firefox"@,
        "--args"@,
        "-P"@,
        p,
        url,
    ]);
    assert(command_args(TargetOs::MacOs, "firefox"@, "firefox"@, None, url) =~= seq!["-a"@, "Firefox"@, url]);
    assert(command_args(TargetOs::Other, "chrome"@, "chrome"@, Some(p), url) =~= seq![url]);
}

/// On macOS a name that is not a known browser is handed to `open` by bundle
/// identifier (`-b`) when it has a dot and no space or slash and is not an
/// `.app` file name, and by application name (`-a`) otherwise.
pub proof fn law_macos_names_and_bundle_identifiers(l: Seq<char>, browser: Seq<char>, url: Seq<char>)
    requires
        known_app(TargetOs::MacOs, l) is None,
    ensures
        (browser.contains('.') && !browser.contains(' ') && !browser.contains('/') && !(browser.len() >= 4
            && browser.subrange(browser.len() - 4, browser.len() as int) == seq!['.', 'a', 'p', 'p']))
            ==> command_args(TargetOs::MacOs, l, browser, None, url) == seq!["-b"@, browser, url],
        !(browser.contains('.') && !browser.contains(' ') && !browser.contains('/') && !(browser.len() >= 4
            && browser.subrange(browser.len() - 4, browser.len() as int) == seq!['.', 'a', 'p', 'p']))
            ==> command_args(TargetOs::MacOs, l, browser, None, url) == seq!["-a"@, browser, url],
        command_program(TargetOs::MacOs, l, browser) == "open"@,
{
    assert(command_args(TargetOs::MacOs, l, browser, None, url) =~= macos_app_args(l, browser) + seq![url]);
    if is_bundle_id(browser) {
        assert(command_args(TargetOs::MacOs, l, browser, None, url) =~= seq!["-b"@, browser, url]);
    } else {
        assert(command_args(TargetOs::MacOs, l, browser, None, url) =~= seq!["-a"@, browser, url]);
    }
}

} // verus!
