//! What installing the router as the default browser writes and runs on
//! each operating system, as a list of steps that the caller carries out.
use vstd::prelude::*;

use crate::browser::TargetOs;
use crate::outside::{json_quote, json_string};

verus! {

/// The directory a planned path starts from.
#[derive(Debug, Clone, Copy, PartialEq, Eq, Structural)]
pub enum PathBase {
    /// The user's home directory (`HOME`).
    Home,
    /// The user's local data directory.
    DataLocal,
    /// The Windows local application data directory (`LOCALAPPDATA`).
    LocalAppData,
    /// The temporary directory.
    TempDir,
}

/// A path: a base directory followed by parts joined onto it in turn.
#[derive(Debug, Clone)]
pub struct PlannedPath {
    pub base: PathBase,
    pub parts: Vec<String>,
}

/// The abstract value of a planned path.
#[verifier::ext_equal]
pub struct PathView {
    pub base: PathBase,
    pub parts: Seq<Seq<char>>,
}

impl View for PlannedPath {
    type V = PathView;

    open spec fn view(&self) -> PathView {
        PathView { base: self.base, parts: self.parts@.map_values(|s: String| s@) }
    }
}

/// The texts of a list of string slices.
pub open spec fn str_texts(parts: Seq<&str>) -> Seq<Seq<char>> {
    parts.map_values(|s: &str| s@)
}

/// Builds a planned path from its base and parts.
fn planned(base: PathBase, parts: &[&str]) -> (p: PlannedPath)
    ensures
        p@ == (PathView { base, parts: str_texts(parts@) }),
{
    let mut v: Vec<String> = Vec::new();
    let n = parts.len();
    let mut i: usize = 0;
    while i < n
        invariant
            n == parts@.len(),
            0 <= i <= n,
            v@.map_values(|s: String| s@) =~= str_texts(parts@).take(i as int),
        decreases n - i,
    {
        v.push(parts[i].to_owned());
        assert(str_texts(parts@).take(i + 1) =~= str_texts(parts@).take(i as int).push(parts@[i as int]@));
        i = i + 1;
    }
    assert(str_texts(parts@).take(n as int) =~= str_texts(parts@));
    PlannedPath { base, parts: v }
}

/// Builds a planned path from its base, parts and a last part.
fn planned_file(base: PathBase, parts: &[&str], file: &str) -> (p: PlannedPath)
    ensures
        p@ == (PathView { base, parts: str_texts(parts@).push(file@) }),
{
    let mut p = planned(base, parts);
    let ghost before = p.parts@;
    p.parts.push(file.to_owned());
    assert(p.parts@.map_values(|s: String| s@) =~= before.map_values(|s: String| s@).push(file@));
    p
}

/// An argument of a program to run.
#[derive(Debug, Clone)]
pub enum PlannedArg {
    /// A text handed over as it is.
    Text(String),
    /// A path, handed over as its text once resolved.
    Path(PlannedPath),
}

/// The abstract value of an argument.
#[verifier::ext_equal]
pub enum ArgView {
    Text(Seq<char>),
    Path(PathView),
}

impl View for PlannedArg {
    type V = ArgView;

    open spec fn view(&self) -> ArgView {
        match self {
            PlannedArg::Text(t) => ArgView::Text(t@),
            PlannedArg::Path(p) => ArgView::Path(p@),
        }
    }
}

/// The abstract values of a list of arguments.
pub open spec fn arg_views(args: Seq<PlannedArg>) -> Seq<ArgView> {
    args.map_values(|a: PlannedArg| a@)
}

/// One step of an installation.
#[derive(Debug, Clone)]
pub enum InstallStep {
    /// Create the directory and its missing parents; a failure ends the installation.
    CreateDir(PlannedPath),
    /// Write the file with the contents; a failure ends the installation.
    WriteFile(PlannedPath, String),
    /// Remove the file if it exists, whatever comes of it.
    RemoveFileIfPresent(PlannedPath),
    /// Copy the running program to the path; a failure ends the installation.
    CopyCurrentExe(PlannedPath),
    /// Make the file executable by everyone; a failure ends the installation.
    MakeExecutable(PlannedPath),
    /// Run the program with the arguments and wait for it, whatever comes of it.
    Run(String, Vec<PlannedArg>),
    /// For each registration tool in turn that exists: unregister the bundle,
    /// then register it; stop at the first registration that succeeds.
    RegisterWithLaunchServices(Vec<String>, PlannedPath),
    /// Show a notification to the user.
    Notify(String, String),
}

/// The abstract value of a step.
#[verifier::ext_equal]
pub enum StepView {
    CreateDir(PathView),
    WriteFile(PathView, Seq<char>),
    RemoveFileIfPresent(PathView),
    CopyCurrentExe(PathView),
    MakeExecutable(PathView),
    Run(Seq<char>, Seq<ArgView>),
    RegisterWithLaunchServices(Seq<Seq<char>>, PathView),
    Notify(Seq<char>, Seq<char>),
}

impl View for InstallStep {
    type V = StepView;

    open spec fn view(&self) -> StepView {
        match self {
            InstallStep::CreateDir(p) => StepView::CreateDir(p@),
            InstallStep::WriteFile(p, c) => StepView::WriteFile(p@, c@),
            InstallStep::RemoveFileIfPresent(p) => StepView::RemoveFileIfPresent(p@),
            InstallStep::CopyCurrentExe(p) => StepView::CopyCurrentExe(p@),
            InstallStep::MakeExecutable(p) => StepView::MakeExecutable(p@),
            InstallStep::Run(prog, args) => StepView::Run(prog@, arg_views(args@)),
            InstallStep::RegisterWithLaunchServices(tools, p) => StepView::RegisterWithLaunchServices(
                tools@.map_values(|t: String| t@),
                p@,
            ),
            InstallStep::Notify(a, b) => StepView::Notify(a@, b@),
        }
    }
}

/// The abstract values of a list of steps.
pub open spec fn step_views(steps: Seq<InstallStep>) -> Seq<StepView> {
    steps.map_values(|s: InstallStep| s@)
}

/// A path from its base and parts.
pub open spec fn at(base: PathBase, parts: Seq<Seq<char>>) -> PathView {
    PathView { base, parts }
}

/// The file name of the native messaging host manifest.
pub const MANIFEST_FILE: &'static str = "com.antarcticite.router.json";

/// The text of the Linux desktop entry before the program's path.
pub const DESKTOP_ENTRY_HEAD: &'static str = "[Desktop Entry]\nVersion=1.0\nName=Antarcticite Router\nGenericName=Web Browser\nComment=Routes URLs to specific browser profiles\nExec=";

/// The text of the Linux desktop entry after the program's path.
pub const DESKTOP_ENTRY_TAIL: &'static str = " %U\nTerminal=false\nType=Application\nIcon=web-browser\nCategories=Network;WebBrowser;\nMimeType=text/html;text/xml;application/xhtml+xml;x-scheme-handler/http;x-scheme-handler/https;\n";

/// The `Info.plist` of the macOS application bundle.
pub const INFO_PLIST: &'static str = r#"<?xml version="1.0" encoding="UTF-8"?>
<!DOCTYPE plist PUBLIC "-//Apple//DTD PLIST 1.0//EN" "http://www.apple.com/DTDs/PropertyList-1.0.dtd">
<plist version="1.0">
<dict>
    <key>CFBundleExecutable</key>
    <string>antarcticite</string>
    <key>CFBundleIdentifier</key>
    <string>com.antarcticite.router</string>
    <key>CFBundleName</key>
    <string>Antarcticite</string>
    <key>CFBundlePackageType</key>
    <string>APPL</string>
    <key>CFBundleShortVersionString</key>
    <string>0.1.0</string>
    <key>CFBundleURLTypes</key>
    <array>
        <dict>
            <key>CFBundleURLName</key>
            <string>Web site URL</string>
            <key>CFBundleURLSchemes</key>
            <array>
                <string>http</string>
                <string>https</string>
            </array>
        </dict>
    </array>
    <key>CFBundleDocumentTypes</key>
    <array>
        <dict>
            <key>CFBundleTypeExtensions</key>
            <array>
                <string>html</string>
                <string>htm</string>
                <string>shtml</string>
                <string>xhtml</string>
            </array>
            <key>CFBundleTypeRole</key>
            <string>Viewer</string>
        </dict>
    </array>
    <key>LSApplicationCategoryType</key>
    <string>public.app-category.utilities</string>
    <key>LSHandlerRank</key>
    <string>Owner</string>
    <key>LSBackgroundOnly</key>
    <false/>
    <key>LSFileQuarantineEnabled</key>
    <false/>
    <key>NSHighResolutionCapable</key>
    <true/>
</dict>
</plist>
"#;

/// The two places where macOS keeps its LaunchServices registration tool.
pub const LSREGISTER_PRIMARY: &'static str = "/System/Library/Frameworks/CoreServices.framework/Versions/A/Frameworks/LaunchServices.framework/Versions/A/Support/lsregister";

pub const LSREGISTER_SECONDARY: &'static str = "/System/Library/Frameworks/CoreServices.framework/Frameworks/LaunchServices.framework/Support/lsregister";

/// The native messaging host manifest before the program's path.
pub const MANIFEST_HEAD: &'static str = "{\n  \"allowed_origins\": [\n    \"chrome-extension://*\",\n    \"moz-extension://*\"\n  ],\n  \"description\": \"Antarcticite Browser Profile Router\",\n  \"name\": \"com.antarcticite.router\",\n  \"path\": ";

/// The native messaging host manifest after the program's path.
pub const MANIFEST_TAIL: &'static str = ",\n  \"type\": \"stdio\"\n}";

/// The native messaging host manifest (JSON) for the program at `exe`: the
/// host `com.antarcticite.router`, described as the router, at the path
/// `exe` (as a JSON string), talking over standard I/O (`stdio`), for any
/// Chromium or Firefox extension.
pub open spec fn manifest_text(exe: Seq<char>) -> Seq<char> {
    MANIFEST_HEAD@ + json_string(exe) + MANIFEST_TAIL@
}

/// Builds the native messaging host manifest for the program whose path reads `exe`.
pub fn native_host_manifest(exe: &str) -> (r: String)
    ensures
        r@ == manifest_text(exe@),
{
    let quoted = match json_quote(exe) {
        Ok(q) => q,
        Err(_) => String::new(),
    };
    let mut text = MANIFEST_HEAD.to_owned();
    text.append(quoted.as_str());
    text.append(MANIFEST_TAIL);
    text
}

/// The steps that create a manifest directory and write the manifest into it.
pub open spec fn host_dir_steps(base: PathBase, dir: Seq<Seq<char>>, manifest: Seq<char>) -> Seq<StepView> {
    seq![
        StepView::CreateDir(at(base, dir)),
        StepView::WriteFile(at(base, dir.push(MANIFEST_FILE@)), manifest),
    ]
}

/// The arguments of `reg` that register the manifest under a browser's key.
pub open spec fn reg_host_args(key: Seq<char>) -> Seq<ArgView> {
    seq![
        ArgView::Text("add"@),
        ArgView::Text(key),
        ArgView::Text("/ve"@),
        ArgView::Text("/t"@),
        ArgView::Text("REG_SZ"@),
        ArgView::Text("/d"@),
        ArgView::Path(at(PathBase::LocalAppData, seq!["Antarcticite"@, MANIFEST_FILE@])),
        ArgView::Text("/f"@),
    ]
}

/// The steps that install the native messaging host manifest (whose text is
/// `manifest`) for the browsers of the operating system.
pub open spec fn native_host_steps(os: TargetOs, manifest: Seq<char>) -> Seq<StepView> {
    match os {
        TargetOs::MacOs => host_dir_steps(
            PathBase::Home,
            seq!["Library/Application Support"@, "Google/Chrome/NativeMessagingHosts"@],
            manifest,
        ) + host_dir_steps(
            PathBase::Home,
            seq!["Library/Application Support"@, "Mozilla/NativeMessagingHosts"@],
            manifest,
        ) + host_dir_steps(
            PathBase::Home,
            seq!["Library/Application Support"@, "Microsoft Edge/NativeMessagingHosts"@],
            manifest,
        ),
        TargetOs::Linux => host_dir_steps(PathBase::Home, seq![".config"@, "google-chrome/NativeMessagingHosts"@], manifest)
            + host_dir_steps(PathBase::Home, seq![".config"@, "microsoft-edge/NativeMessagingHosts"@], manifest)
            + host_dir_steps(
            PathBase::Home,
            seq![".config"@, "BraveSoftware/Brave-Browser/NativeMessagingHosts"@],
            manifest,
        ) + host_dir_steps(PathBase::Home, seq![".config"@, "chromium/NativeMessagingHosts"@], manifest)
            + host_dir_steps(PathBase::Home, seq![".mozilla/native-messaging-hosts"@], manifest),
        TargetOs::Windows => seq![
            StepView::WriteFile(at(PathBase::TempDir, seq![MANIFEST_FILE@]), manifest),
            StepView::CreateDir(at(PathBase::LocalAppData, seq!["Antarcticite"@])),
            StepView::WriteFile(at(PathBase::LocalAppData, seq!["Antarcticite"@, MANIFEST_FILE@]), manifest),
            StepView::Run(
                "reg"@,
                reg_host_args("HKCU\\Software\\Google\\Chrome\\NativeMessagingHosts\\com.antarcticite.router"@),
            ),
            StepView::Run(
                "reg"@,
                reg_host_args("HKCU\\Software\\Mozilla\\NativeMessagingHosts\\com.antarcticite.router"@),
            ),
            StepView::Run(
                "reg"@,
                reg_host_args("HKCU\\Software\\Microsoft\\Edge\\NativeMessagingHosts\\com.antarcticite.router"@),
            ),
        ],
        TargetOs::Other => seq![],
    }
}

/// Appends one step.
fn push_step(steps: &mut Vec<InstallStep>, step: InstallStep)
    ensures
        step_views(final(steps)@) == step_views(old(steps)@).push(step@),
{
    let ghost before = steps@;
    steps.push(step);
    assert(step_views(steps@) =~= step_views(before).push(step@));
}

/// Appends the steps that create a manifest directory and write the manifest into it.
fn push_host_dir(steps: &mut Vec<InstallStep>, base: PathBase, dir: &[&str], manifest: &str)
    ensures
        step_views(final(steps)@) == step_views(old(steps)@) + host_dir_steps(base, str_texts(dir@), manifest@),
{
    push_step(steps, InstallStep::CreateDir(planned(base, dir)));
    push_step(steps, InstallStep::WriteFile(planned_file(base, dir, MANIFEST_FILE), manifest.to_owned()));
    assert(step_views(steps@) =~= step_views(old(steps)@) + host_dir_steps(base, str_texts(dir@), manifest@));
}

/// Appends one text argument.
fn push_text(args: &mut Vec<PlannedArg>, text: &str)
    ensures
        arg_views(final(args)@) == arg_views(old(args)@).push(ArgView::Text(text@)),
{
    let ghost before = args@;
    args.push(PlannedArg::Text(text.to_owned()));
    assert(arg_views(args@) =~= arg_views(before).push(ArgView::Text(text@)));
}

/// Appends one path argument.
fn push_path(args: &mut Vec<PlannedArg>, path: PlannedPath)
    ensures
        arg_views(final(args)@) == arg_views(old(args)@).push(ArgView::Path(path@)),
{
    let ghost before = args@;
    let ghost pv = path@;
    args.push(PlannedArg::Path(path));
    assert(arg_views(args@) =~= arg_views(before).push(ArgView::Path(pv)));
}

/// The arguments of `reg` that register the manifest under a browser's key.
fn reg_host_arguments(key: &str) -> (args: Vec<PlannedArg>)
    ensures
        arg_views(args@) == reg_host_args(key@),
{
    let mut args: Vec<PlannedArg> = Vec::new();
    assert(arg_views(args@) =~= seq![]);
    push_text(&mut args, "add");
    push_text(&mut args, key);
    push_text(&mut args, "/ve");
    push_text(&mut args, "/t");
    push_text(&mut args, "REG_SZ");
    push_text(&mut args, "/d");
    push_path(&mut args, planned_file(PathBase::LocalAppData, &["Antarcticite"], MANIFEST_FILE));
    push_text(&mut args, "/f");
    assert(arg_views(args@) =~~= reg_host_args(key@));
    args
}

/// The steps that install the native messaging host manifest of the program
/// whose path reads `exe` where the browsers of the operating system look for it.
pub fn install_native_messaging_hosts(os: TargetOs, exe: &str) -> (steps: Vec<InstallStep>)
    ensures
        step_views(steps@) == native_host_steps(os, manifest_text(exe@)),
{
    let manifest_string = native_host_manifest(exe);
    let manifest = manifest_string.as_str();
    let mut steps: Vec<InstallStep> = Vec::new();
    assert(step_views(steps@) =~= seq![]);
    match os {
        TargetOs::MacOs => {
            push_host_dir(&mut steps, PathBase::Home, &["Library/Application Support", "Google/Chrome/NativeMessagingHosts"], manifest);
            push_host_dir(&mut steps, PathBase::Home, &["Library/Application Support", "Mozilla/NativeMessagingHosts"], manifest);
            push_host_dir(&mut steps, PathBase::Home, &["Library/Application Support", "Microsoft Edge/NativeMessagingHosts"], manifest);
        },
        TargetOs::Linux => {
            push_host_dir(&mut steps, PathBase::Home, &[".config", "google-chrome/NativeMessagingHosts"], manifest);
            push_host_dir(&mut steps, PathBase::Home, &[".config", "microsoft-edge/NativeMessagingHosts"], manifest);
            push_host_dir(&mut steps, PathBase::Home, &[".config", "BraveSoftware/Brave-Browser/NativeMessagingHosts"], manifest);
            push_host_dir(&mut steps, PathBase::Home, &[".config", "chromium/NativeMessagingHosts"], manifest);
            push_host_dir(&mut steps, PathBase::Home, &[".mozilla/native-messaging-hosts"], manifest);
        },
        TargetOs::Windows => {
            push_step(&mut steps, InstallStep::WriteFile(planned(PathBase::TempDir, &[MANIFEST_FILE]), manifest.to_owned()));
            push_step(&mut steps, InstallStep::CreateDir(planned(PathBase::LocalAppData, &["Antarcticite"])));
            push_step(&mut steps, InstallStep::WriteFile(planned_file(PathBase::LocalAppData, &["Antarcticite"], MANIFEST_FILE), manifest.to_owned()));
            push_step(&mut steps, InstallStep::Run("reg".to_owned(), reg_host_arguments("HKCU\\Software\\Google\\Chrome\\NativeMessagingHosts\\com.antarcticite.router")));
            push_step(&mut steps, InstallStep::Run("reg".to_owned(), reg_host_arguments("HKCU\\Software\\Mozilla\\NativeMessagingHosts\\com.antarcticite.router")));
            push_step(&mut steps, InstallStep::Run("reg".to_owned(), reg_host_arguments("HKCU\\Software\\Microsoft\\Edge\\NativeMessagingHosts\\com.antarcticite.router")));
        },
        TargetOs::Other => {},
    }
    assert(step_views(steps@) =~~= native_host_steps(os, manifest_text(exe@)));
    steps
}


/// The Linux desktop entry that launches the program at `exe`.
pub open spec fn desktop_entry(exe: Seq<char>) -> Seq<char> {
    DESKTOP_ENTRY_HEAD@ + exe + DESKTOP_ENTRY_TAIL@
}

/// The steps that register the program at `exe` as the default browser on Linux.
pub open spec fn linux_steps(exe: Seq<char>) -> Seq<StepView> {
    seq![
        StepView::CreateDir(at(PathBase::DataLocal, seq!["applications"@])),
        StepView::WriteFile(at(PathBase::DataLocal, seq!["applications"@, "antarcticite.desktop"@]), desktop_entry(exe)),
        StepView::Run(
            "xdg-settings"@,
            seq![ArgView::Text("set"@), ArgView::Text("default-web-browser"@), ArgView::Text("antarcticite.desktop"@)],
        ),
    ]
}

/// The application bundle on macOS.
pub open spec fn bundle_dir() -> PathView {
    at(PathBase::Home, seq!["Applications/Antarcticite.app"@])
}

/// The program inside the macOS application bundle.
pub open spec fn bundle_exe() -> PathView {
    at(PathBase::Home, seq!["Applications/Antarcticite.app"@, "Contents"@, "MacOS"@, "antarcticite"@])
}

/// The steps that build, sign and register the macOS application bundle.
pub open spec fn macos_steps() -> Seq<StepView> {
    seq![
        StepView::CreateDir(at(PathBase::Home, seq!["Applications/Antarcticite.app"@, "Contents"@, "MacOS"@])),
        StepView::RemoveFileIfPresent(bundle_exe()),
        StepView::CopyCurrentExe(bundle_exe()),
        StepView::MakeExecutable(bundle_exe()),
        StepView::WriteFile(
            at(PathBase::Home, seq!["Applications/Antarcticite.app"@, "Contents"@, "Info.plist"@]),
            INFO_PLIST@,
        ),
        StepView::Run(
            "codesign"@,
            seq![ArgView::Text("-s"@), ArgView::Text("-"@), ArgView::Text("--force"@), ArgView::Path(bundle_dir())],
        ),
        StepView::Run("touch"@, seq![ArgView::Path(bundle_dir())]),
        StepView::RegisterWithLaunchServices(seq![LSREGISTER_PRIMARY@, LSREGISTER_SECONDARY@], bundle_dir()),
        StepView::Run("open"@, seq![ArgView::Text("-g"@), ArgView::Text("-j"@), ArgView::Path(bundle_dir())]),
        StepView::Notify(
            "Antarcticite Installed"@,
            "Please select Antarcticite as your default browser in System Settings."@,
        ),
        StepView::Run("open"@, seq![ArgView::Text("x-apple.systempreferences:com.apple.Desktop-Settings.extension"@)]),
    ]
}

/// The registry command that gives the program at `exe` the link handler's open command.
pub open spec fn windows_open_command(exe: Seq<char>) -> Seq<char> {
    "reg add \"HKCU\\Software\\Classes\\antarcticite.url\\shell\\open\\command\" /ve /t REG_SZ /d \"\\\""@ + exe
        + "\\\" \\\"%1\\\"\" /f"@
}

/// Runs one registry command through `cmd /C`.
pub open spec fn cmd_step(command: Seq<char>) -> StepView {
    StepView::Run("cmd"@, seq![ArgView::Text("/C"@), ArgView::Text(command)])
}

/// The steps that register the program at `exe` with Windows Default Apps.
pub open spec fn windows_steps(exe: Seq<char>) -> Seq<StepView> {
    seq![
        cmd_step("reg add \"HKCU\\Software\\Classes\\antarcticite.url\" /ve /t REG_SZ /d \"Antarcticite Router HTML Document\" /f"@),
        cmd_step(windows_open_command(exe)),
        cmd_step("reg add \"HKCU\\Software\\Clients\\StartMenuInternet\\Antarcticite Router\" /ve /t REG_SZ /d \"Antarcticite Router\" /f"@),
        cmd_step("reg add \"HKCU\\Software\\Clients\\StartMenuInternet\\Antarcticite Router\\Capabilities\\URLAssociations\" /v \"http\" /t REG_SZ /d \"antarcticite.url\" /f"@),
        cmd_step("reg add \"HKCU\\Software\\Clients\\StartMenuInternet\\Antarcticite Router\\Capabilities\\URLAssociations\" /v \"https\" /t REG_SZ /d \"antarcticite.url\" /f"@),
        cmd_step("reg add \"HKCU\\Software\\RegisteredApplications\" /v \"Antarcticite Router\" /t REG_SZ /d \"Software\\Clients\\StartMenuInternet\\Antarcticite Router\\Capabilities\" /f"@),
        StepView::Run("cmd"@, seq![ArgView::Text("/C"@), ArgView::Text("start"@), ArgView::Text("ms-settings:defaultapps"@)]),
    ]
}

/// The steps that register the program at `exe` as the default browser on
/// the operating system; none where that is not supported.
pub open spec fn os_steps(os: TargetOs, exe: Seq<char>) -> Seq<StepView> {
    match os {
        TargetOs::MacOs => macos_steps(),
        TargetOs::Linux => linux_steps(exe),
        TargetOs::Windows => windows_steps(exe),
        TargetOs::Other => seq![],
    }
}

/// A run of a program with text arguments only.
fn run_texts(program: &str, texts: &[&str]) -> (step: InstallStep)
    ensures
        step@ == StepView::Run(program@, str_texts(texts@).map_values(|t: Seq<char>| ArgView::Text(t))),
{
    let mut args: Vec<PlannedArg> = Vec::new();
    let n = texts.len();
    let mut i: usize = 0;
    while i < n
        invariant
            n == texts@.len(),
            0 <= i <= n,
            arg_views(args@) =~~= str_texts(texts@).take(i as int).map_values(|t: Seq<char>| ArgView::Text(t)),
        decreases n - i,
    {
        push_text(&mut args, texts[i]);
        assert(str_texts(texts@).take(i + 1) =~= str_texts(texts@).take(i as int).push(texts@[i as int]@));
        i = i + 1;
    }
    assert(str_texts(texts@).take(n as int) =~= str_texts(texts@));
    InstallStep::Run(program.to_owned(), args)
}

/// The steps that register the program, whose path reads `exe`, as the
/// default browser on Linux.
pub fn install_linux(exe: &str) -> (steps: Vec<InstallStep>)
    ensures
        step_views(steps@) == linux_steps(exe@),
{
    let mut steps: Vec<InstallStep> = Vec::new();
    assert(step_views(steps@) =~= seq![]);
    let mut entry = DESKTOP_ENTRY_HEAD.to_owned();
    entry.append(exe);
    entry.append(DESKTOP_ENTRY_TAIL);
    push_step(&mut steps, InstallStep::CreateDir(planned(PathBase::DataLocal, &["applications"])));
    push_step(&mut steps, InstallStep::WriteFile(planned(PathBase::DataLocal, &["applications", "antarcticite.desktop"]), entry));
    push_step(&mut steps, run_texts("xdg-settings", &["set", "default-web-browser", "antarcticite.desktop"]));
    assert(step_views(steps@) =~~= linux_steps(exe@));
    steps
}

/// The steps that build, sign and register the macOS application bundle.
pub fn install_macos() -> (steps: Vec<InstallStep>)
    ensures
        step_views(steps@) == macos_steps(),
{
    let mut steps: Vec<InstallStep> = Vec::new();
    assert(step_views(steps@) =~= seq![]);
    let bundle: [&str; 1] = ["Applications/Antarcticite.app"];
    let exe_in_bundle: [&str; 4] = ["Applications/Antarcticite.app", "Contents", "MacOS", "antarcticite"];
    push_step(&mut steps, InstallStep::CreateDir(planned(PathBase::Home, &["Applications/Antarcticite.app", "Contents", "MacOS"])));
    push_step(&mut steps, InstallStep::RemoveFileIfPresent(planned(PathBase::Home, &exe_in_bundle)));
    push_step(&mut steps, InstallStep::CopyCurrentExe(planned(PathBase::Home, &exe_in_bundle)));
    push_step(&mut steps, InstallStep::MakeExecutable(planned(PathBase::Home, &exe_in_bundle)));
    push_step(
        &mut steps,
        InstallStep::WriteFile(
            planned(PathBase::Home, &["Applications/Antarcticite.app", "Contents", "Info.plist"]),
            INFO_PLIST.to_owned(),
        ),
    );
    let mut sign: Vec<PlannedArg> = Vec::new();
    assert(arg_views(sign@) =~= seq![]);
    push_text(&mut sign, "-s");
    push_text(&mut sign, "-");
    push_text(&mut sign, "--force");
    push_path(&mut sign, planned(PathBase::Home, &bundle));
    push_step(&mut steps, InstallStep::Run("codesign".to_owned(), sign));
    let mut touch: Vec<PlannedArg> = Vec::new();
    assert(arg_views(touch@) =~= seq![]);
    push_path(&mut touch, planned(PathBase::Home, &bundle));
    push_step(&mut steps, InstallStep::Run("touch".to_owned(), touch));
    let mut tools: Vec<String> = Vec::new();
    tools.push(LSREGISTER_PRIMARY.to_owned());
    tools.push(LSREGISTER_SECONDARY.to_owned());
    assert(tools@.map_values(|t: String| t@) =~= seq![LSREGISTER_PRIMARY@, LSREGISTER_SECONDARY@]);
    push_step(&mut steps, InstallStep::RegisterWithLaunchServices(tools, planned(PathBase::Home, &bundle)));
    let mut launch: Vec<PlannedArg> = Vec::new();
    assert(arg_views(launch@) =~= seq![]);
    push_text(&mut launch, "-g");
    push_text(&mut launch, "-j");
    push_path(&mut launch, planned(PathBase::Home, &bundle));
    push_step(&mut steps, InstallStep::Run("open".to_owned(), launch));
    push_step(
        &mut steps,
        InstallStep::Notify(
            "Antarcticite Installed".to_owned(),
            "Please select Antarcticite as your default browser in System Settings.".to_owned(),
        ),
    );
    push_step(&mut steps, run_texts("open", &["x-apple.systempreferences:com.apple.Desktop-Settings.extension"]));
    assert(step_views(steps@) =~~= macos_steps());
    steps
}

/// The steps that register the program, whose path reads `exe`, with
/// Windows Default Apps.
pub fn install_windows(exe: &str) -> (steps: Vec<InstallStep>)
    ensures
        step_views(steps@) == windows_steps(exe@),
{
    let mut steps: Vec<InstallStep> = Vec::new();
    assert(step_views(steps@) =~= seq![]);
    let mut open_command = "reg add \"HKCU\\Software\\Classes\\antarcticite.url\\shell\\open\\command\" /ve /t REG_SZ /d \"\\\"".to_owned();
    open_command.append(exe);
    open_command.append("\\\" \\\"%1\\\"\" /f");
    push_step(&mut steps, run_texts("cmd", &["/C", "reg add \"HKCU\\Software\\Classes\\antarcticite.url\" /ve /t REG_SZ /d \"Antarcticite Router HTML Document\" /f"]));
    push_step(&mut steps, run_texts("cmd", &["/C", open_command.as_str()]));
    push_step(&mut steps, run_texts("cmd", &["/C", "reg add \"HKCU\\Software\\Clients\\StartMenuInternet\\Antarcticite Router\" /ve /t REG_SZ /d \"Antarcticite Router\" /f"]));
    push_step(&mut steps, run_texts("cmd", &["/C", "reg add \"HKCU\\Software\\Clients\\StartMenuInternet\\Antarcticite Router\\Capabilities\\URLAssociations\" /v \"http\" /t REG_SZ /d \"antarcticite.url\" /f"]));
    push_step(&mut steps, run_texts("cmd", &["/C", "reg add \"HKCU\\Software\\Clients\\StartMenuInternet\\Antarcticite Router\\Capabilities\\URLAssociations\" /v \"https\" /t REG_SZ /d \"antarcticite.url\" /f"]));
    push_step(&mut steps, run_texts("cmd", &["/C", "reg add \"HKCU\\Software\\RegisteredApplications\" /v \"Antarcticite Router\" /t REG_SZ /d \"Software\\Clients\\StartMenuInternet\\Antarcticite Router\\Capabilities\" /f"]));
    push_step(&mut steps, run_texts("cmd", &["/C", "start", "ms-settings:defaultapps"]));
    assert(step_views(steps@) =~~= windows_steps(exe@));
    steps
}

/// Everything that installing as the default browser does on the operating
/// system, in order: first the native messaging host manifest, then the
/// registration of the program, whose path reads `exe`.
pub fn install(os: TargetOs, exe: &str) -> (steps: Vec<InstallStep>)
    ensures
        step_views(steps@) == native_host_steps(os, manifest_text(exe@)) + os_steps(os, exe@),
{
    let mut steps = install_native_messaging_hosts(os, exe);
    let mut rest = match os {
        TargetOs::MacOs => install_macos(),
        TargetOs::Linux => install_linux(exe),
        TargetOs::Windows => install_windows(exe),
        TargetOs::Other => Vec::new(),
    };
    let ghost first = steps@;
    let ghost second = rest@;
    assert(step_views(rest@) =~= os_steps(os, exe@));
    steps.append(&mut rest);
    assert(steps@ =~= first + second);
    assert(step_views(steps@) =~= step_views(first) + step_views(second));
    steps
}


/// Where the native messaging host manifest `m` goes on each system: on
/// macOS into the host directories of Google Chrome, Firefox and Microsoft
/// Edge under `~/Library/Application Support`; on Linux into those of Google
/// Chrome, Microsoft Edge, Brave and Chromium under `~/.config` and of
/// Firefox under `~/.mozilla`; on Windows into the temporary directory and
/// `%LOCALAPPDATA%\Antarcticite`, registered under the Chrome, Firefox and
/// Edge keys; each directory is created before the manifest is written.
pub proof fn law_native_host_manifest_locations(m: Seq<char>)
    ensures
        native_host_steps(TargetOs::MacOs, m) == seq![
            StepView::CreateDir(PathView { base: PathBase::Home, parts: seq!["Library/Application Support"@, "Google/Chrome/NativeMessagingHosts"@] }),
            StepView::WriteFile(PathView { base: PathBase::Home, parts: seq!["Library/Application Support"@, "Google/Chrome/NativeMessagingHosts"@, "com.antarcticite.router.json"@] }, m),
            StepView::CreateDir(PathView { base: PathBase::Home, parts: seq!["Library/Application Support"@, "Mozilla/NativeMessagingHosts"@] }),
            StepView::WriteFile(PathView { base: PathBase::Home, parts: seq!["Library/Application Support"@, "Mozilla/NativeMessagingHosts"@, "com.antarcticite.router.json"@] }, m),
            StepView::CreateDir(PathView { base: PathBase::Home, parts: seq!["Library/Application Support"@, "Microsoft Edge/NativeMessagingHosts"@] }),
            StepView::WriteFile(PathView { base: PathBase::Home, parts: seq!["Library/Application Support"@, "Microsoft Edge/NativeMessagingHosts"@, "com.antarcticite.router.json"@] }, m),
        ],
        native_host_steps(TargetOs::Linux, m) == seq![
            StepView::CreateDir(PathView { base: PathBase::Home, parts: seq![".config"@, "google-chrome/NativeMessagingHosts"@] }),
            StepView::WriteFile(PathView { base: PathBase::Home, parts: seq![".config"@, "google-chrome/NativeMessagingHosts"@, "com.antarcticite.router.json"@] }, m),
            StepView::CreateDir(PathView { base: PathBase::Home, parts: seq![".config"@, "microsoft-edge/NativeMessagingHosts"@] }),
            StepView::WriteFile(PathView { base: PathBase::Home, parts: seq![".config"@, "microsoft-edge/NativeMessagingHosts"@, "com.antarcticite.router.json"@] }, m),
            StepView::CreateDir(PathView { base: PathBase::Home, parts: seq![".config"@, "BraveSoftware/Brave-Browser/NativeMessagingHosts"@] }),
            StepView::WriteFile(PathView { base: PathBase::Home, parts: seq![".config"@, "BraveSoftware/Brave-Browser/NativeMessagingHosts"@, "com.antarcticite.router.json"@] }, m),
            StepView::CreateDir(PathView { base: PathBase::Home, parts: seq![".config"@, "chromium/NativeMessagingHosts"@] }),
            StepView::WriteFile(PathView { base: PathBase::Home, parts: seq![".config"@, "chromium/NativeMessagingHosts"@, "com.antarcticite.router.json"@] }, m),
            StepView::CreateDir(PathView { base: PathBase::Home, parts: seq![".mozilla/native-messaging-hosts"@] }),
            StepView::WriteFile(PathView { base: PathBase::Home, parts: seq![".mozilla/native-messaging-hosts"@, "com.antarcticite.router.json"@] }, m),
        ],
        native_host_steps(TargetOs::Windows, m) == seq![
            StepView::WriteFile(PathView { base: PathBase::TempDir, parts: seq!["com.antarcticite.router.json"@] }, m),
            StepView::CreateDir(PathView { base: PathBase::LocalAppData, parts: seq!["Antarcticite"@] }),
            StepView::WriteFile(PathView { base: PathBase::LocalAppData, parts: seq!["Antarcticite"@, "com.antarcticite.router.json"@] }, m),
            StepView::Run("reg"@, seq![ArgView::Text("add"@), ArgView::Text("HKCU\\Software\\Google\\Chrome\\NativeMessagingHosts\\com.antarcticite.router"@), ArgView::Text("/ve"@), ArgView::Text("/t"@), ArgView::Text("REG_SZ"@), ArgView::Text("/d"@), ArgView::Path(PathView { base: PathBase::LocalAppData, parts: seq!["Antarcticite"@, "com.antarcticite.router.json"@] }), ArgView::Text("/f"@)]),
            StepView::Run("reg"@, seq![ArgView::Text("add"@), ArgView::Text("HKCU\\Software\\Mozilla\\NativeMessagingHosts\\com.antarcticite.router"@), ArgView::Text("/ve"@), ArgView::Text("/t"@), ArgView::Text("REG_SZ"@), ArgView::Text("/d"@), ArgView::Path(PathView { base: PathBase::LocalAppData, parts: seq!["Antarcticite"@, "com.antarcticite.router.json"@] }), ArgView::Text("/f"@)]),
            StepView::Run("reg"@, seq![ArgView::Text("add"@), ArgView::Text("HKCU\\Software\\Microsoft\\Edge\\NativeMessagingHosts\\com.antarcticite.router"@), ArgView::Text("/ve"@), ArgView::Text("/t"@), ArgView::Text("REG_SZ"@), ArgView::Text("/d"@), ArgView::Path(PathView { base: PathBase::LocalAppData, parts: seq!["Antarcticite"@, "com.antarcticite.router.json"@] }), ArgView::Text("/f"@)]),
        ],
        native_host_steps(TargetOs::Other, m) == Seq::<StepView>::empty(),
{
    assert(native_host_steps(TargetOs::MacOs, m) =~~= seq![
        StepView::CreateDir(PathView { base: PathBase::Home, parts: seq!["Library/Application Support"@, "Google/Chrome/NativeMessagingHosts"@] }),
        StepView::WriteFile(PathView { base: PathBase::Home, parts: seq!["Library/Application Support"@, "Google/Chrome/NativeMessagingHosts"@, "com.antarcticite.router.json"@] }, m),
        StepView::CreateDir(PathView { base: PathBase::Home, parts: seq!["Library/Application Support"@, "Mozilla/NativeMessagingHosts"@] }),
        StepView::WriteFile(PathView { base: PathBase::Home, parts: seq!["Library/Application Support"@, "Mozilla/NativeMessagingHosts"@, "com.antarcticite.router.json"@] }, m),
        StepView::CreateDir(PathView { base: PathBase::Home, parts: seq!["Library/Application Support"@, "Microsoft Edge/NativeMessagingHosts"@] }),
        StepView::WriteFile(PathView { base: PathBase::Home, parts: seq!["Library/Application Support"@, "Microsoft Edge/NativeMessagingHosts"@, "com.antarcticite.router.json"@] }, m),
    ]);
    assert(native_host_steps(TargetOs::Linux, m) =~~= seq![
        StepView::CreateDir(PathView { base: PathBase::Home, parts: seq![".config"@, "google-chrome/NativeMessagingHosts"@] }),
        StepView::WriteFile(PathView { base: PathBase::Home, parts: seq![".config"@, "google-chrome/NativeMessagingHosts"@, "com.antarcticite.router.json"@] }, m),
        StepView::CreateDir(PathView { base: PathBase::Home, parts: seq![".config"@, "microsoft-edge/NativeMessagingHosts"@] }),
        StepView::WriteFile(PathView { base: PathBase::Home, parts: seq![".config"@, "microsoft-edge/NativeMessagingHosts"@, "com.antarcticite.router.json"@] }, m),
        StepView::CreateDir(PathView { base: PathBase::Home, parts: seq![".config"@, "BraveSoftware/Brave-Browser/NativeMessagingHosts"@] }),
        StepView::WriteFile(PathView { base: PathBase::Home, parts: seq![".config"@, "BraveSoftware/Brave-Browser/NativeMessagingHosts"@, "com.antarcticite.router.json"@] }, m),
        StepView::CreateDir(PathView { base: PathBase::Home, parts: seq![".config"@, "chromium/NativeMessagingHosts"@] }),
        StepView::WriteFile(PathView { base: PathBase::Home, parts: seq![".config"@, "chromium/NativeMessagingHosts"@, "com.antarcticite.router.json"@] }, m),
        StepView::CreateDir(PathView { base: PathBase::Home, parts: seq![".mozilla/native-messaging-hosts"@] }),
        StepView::WriteFile(PathView { base: PathBase::Home, parts: seq![".mozilla/native-messaging-hosts"@, "com.antarcticite.router.json"@] }, m),
    ]);
    assert(native_host_steps(TargetOs::Windows, m) =~~= seq![
        StepView::WriteFile(PathView { base: PathBase::TempDir, parts: seq!["com.antarcticite.router.json"@] }, m),
        StepView::CreateDir(PathView { base: PathBase::LocalAppData, parts: seq!["Antarcticite"@] }),
        StepView::WriteFile(PathView { base: PathBase::LocalAppData, parts: seq!["Antarcticite"@, "com.antarcticite.router.json"@] }, m),
        StepView::Run("reg"@, seq![ArgView::Text("add"@), ArgView::Text("HKCU\\Software\\Google\\Chrome\\NativeMessagingHosts\\com.antarcticite.router"@), ArgView::Text("/ve"@), ArgView::Text("/t"@), ArgView::Text("REG_SZ"@), ArgView::Text("/d"@), ArgView::Path(PathView { base: PathBase::LocalAppData, parts: seq!["Antarcticite"@, "com.antarcticite.router.json"@] }), ArgView::Text("/f"@)]),
        StepView::Run("reg"@, seq![ArgView::Text("add"@), ArgView::Text("HKCU\\Software\\Mozilla\\NativeMessagingHosts\\com.antarcticite.router"@), ArgView::Text("/ve"@), ArgView::Text("/t"@), ArgView::Text("REG_SZ"@), ArgView::Text("/d"@), ArgView::Path(PathView { base: PathBase::LocalAppData, parts: seq!["Antarcticite"@, "com.antarcticite.router.json"@] }), ArgView::Text("/f"@)]),
        StepView::Run("reg"@, seq![ArgView::Text("add"@), ArgView::Text("HKCU\\Software\\Microsoft\\Edge\\NativeMessagingHosts\\com.antarcticite.router"@), ArgView::Text("/ve"@), ArgView::Text("/t"@), ArgView::Text("REG_SZ"@), ArgView::Text("/d"@), ArgView::Path(PathView { base: PathBase::LocalAppData, parts: seq!["Antarcticite"@, "com.antarcticite.router.json"@] }), ArgView::Text("/f"@)]),
    ]);
    assert(native_host_steps(TargetOs::Other, m) =~~= Seq::<StepView>::empty());
}

/// What registering with Windows Default Apps runs, each through `cmd /C`:
/// the ProgID `antarcticite.url` and its open command, which starts the
/// program at `exe` with the link; the router as a Start Menu Internet
/// client whose `http` and `https` URL associations both name that ProgID;
/// its entry under `RegisteredApplications`; then the Default Apps settings.
pub proof fn law_windows_registration(exe: Seq<char>)
    ensures
        windows_steps(exe) == seq![
            StepView::Run("cmd"@, seq![ArgView::Text("/C"@), ArgView::Text("reg add \"HKCU\\Software\\Classes\\antarcticite.url\" /ve /t REG_SZ /d \"Antarcticite Router HTML Document\" /f"@)]),
            StepView::Run("cmd"@, seq![ArgView::Text("/C"@), ArgView::Text("reg add \"HKCU\\Software\\Classes\\antarcticite.url\\shell\\open\\command\" /ve /t REG_SZ /d \"\\\""@ + exe + "\\\" \\\"%1\\\"\" /f"@)]),
            StepView::Run("cmd"@, seq![ArgView::Text("/C"@), ArgView::Text("reg add \"HKCU\\Software\\Clients\\StartMenuInternet\\Antarcticite Router\" /ve /t REG_SZ /d \"Antarcticite Router\" /f"@)]),
            StepView::Run("cmd"@, seq![ArgView::Text("/C"@), ArgView::Text("reg add \"HKCU\\Software\\Clients\\StartMenuInternet\\Antarcticite Router\\Capabilities\\URLAssociations\" /v \"http\" /t REG_SZ /d \"antarcticite.url\" /f"@)]),
            StepView::Run("cmd"@, seq![ArgView::Text("/C"@), ArgView::Text("reg add \"HKCU\\Software\\Clients\\StartMenuInternet\\Antarcticite Router\\Capabilities\\URLAssociations\" /v \"https\" /t REG_SZ /d \"antarcticite.url\" /f"@)]),
            StepView::Run("cmd"@, seq![ArgView::Text("/C"@), ArgView::Text("reg add \"HKCU\\Software\\RegisteredApplications\" /v \"Antarcticite Router\" /t REG_SZ /d \"Software\\Clients\\StartMenuInternet\\Antarcticite Router\\Capabilities\" /f"@)]),
            StepView::Run("cmd"@, seq![ArgView::Text("/C"@), ArgView::Text("start"@), ArgView::Text("ms-settings:defaultapps"@)]),
        ],
{
    assert(windows_steps(exe) =~~= seq![
        StepView::Run("cmd"@, seq![ArgView::Text("/C"@), ArgView::Text("reg add \"HKCU\\Software\\Classes\\antarcticite.url\" /ve /t REG_SZ /d \"Antarcticite Router HTML Document\" /f"@)]),
        StepView::Run("cmd"@, seq![ArgView::Text("/C"@), ArgView::Text("reg add \"HKCU\\Software\\Classes\\antarcticite.url\\shell\\open\\command\" /ve /t REG_SZ /d \"\\\""@ + exe + "\\\" \\\"%1\\\"\" /f"@)]),
        StepView::Run("cmd"@, seq![ArgView::Text("/C"@), ArgView::Text("reg add \"HKCU\\Software\\Clients\\StartMenuInternet\\Antarcticite Router\" /ve /t REG_SZ /d \"Antarcticite Router\" /f"@)]),
        StepView::Run("cmd"@, seq![ArgView::Text("/C"@), ArgView::Text("reg add \"HKCU\\Software\\Clients\\StartMenuInternet\\Antarcticite Router\\Capabilities\\URLAssociations\" /v \"http\" /t REG_SZ /d \"antarcticite.url\" /f"@)]),
        StepView::Run("cmd"@, seq![ArgView::Text("/C"@), ArgView::Text("reg add \"HKCU\\Software\\Clients\\StartMenuInternet\\Antarcticite Router\\Capabilities\\URLAssociations\" /v \"https\" /t REG_SZ /d \"antarcticite.url\" /f"@)]),
        StepView::Run("cmd"@, seq![ArgView::Text("/C"@), ArgView::Text("reg add \"HKCU\\Software\\RegisteredApplications\" /v \"Antarcticite Router\" /t REG_SZ /d \"Software\\Clients\\StartMenuInternet\\Antarcticite Router\\Capabilities\" /f"@)]),
        StepView::Run("cmd"@, seq![ArgView::Text("/C"@), ArgView::Text("start"@), ArgView::Text("ms-settings:defaultapps"@)]),
    ]);
}

/// What registering on Linux does: write the desktop entry
/// `antarcticite.desktop`, which runs the program at `exe` with the links
/// (`%U`) and declares the web MIME types and the `http` and `https`
/// schemes, into the local `applications` directory, then make it the
/// default web browser with `xdg-settings`.
pub proof fn law_linux_registration(exe: Seq<char>)
    ensures
        linux_steps(exe) == seq![
            StepView::CreateDir(PathView { base: PathBase::DataLocal, parts: seq!["applications"@] }),
            StepView::WriteFile(PathView { base: PathBase::DataLocal, parts: seq!["applications"@, "antarcticite.desktop"@] }, "[Desktop Entry]\nVersion=1.0\nName=Antarcticite Router\nGenericName=Web Browser\nComment=Routes URLs to specific browser profiles\nExec="@ + exe + " %U\nTerminal=false\nType=Application\nIcon=web-browser\nCategories=Network;WebBrowser;\nMimeType=text/html;text/xml;application/xhtml+xml;x-scheme-handler/http;x-scheme-handler/https;\n"@),
            StepView::Run("xdg-settings"@, seq![ArgView::Text("set"@), ArgView::Text("default-web-browser"@), ArgView::Text("antarcticite.desktop"@)]),
        ],
{
    assert(linux_steps(exe) =~~= seq![
        StepView::CreateDir(PathView { base: PathBase::DataLocal, parts: seq!["applications"@] }),
        StepView::WriteFile(PathView { base: PathBase::DataLocal, parts: seq!["applications"@, "antarcticite.desktop"@] }, "[Desktop Entry]\nVersion=1.0\nName=Antarcticite Router\nGenericName=Web Browser\nComment=Routes URLs to specific browser profiles\nExec="@ + exe + " %U\nTerminal=false\nType=Application\nIcon=web-browser\nCategories=Network;WebBrowser;\nMimeType=text/html;text/xml;application/xhtml+xml;x-scheme-handler/http;x-scheme-handler/https;\n"@),
        StepView::Run("xdg-settings"@, seq![ArgView::Text("set"@), ArgView::Text("default-web-browser"@), ArgView::Text("antarcticite.desktop"@)]),
    ]);
}

/// What registering on macOS does: build `~/Applications/Antarcticite.app`
/// with a fresh executable copy of the program and its `Info.plist`, sign
/// it, register it with LaunchServices, launch it once in the background,
/// tell the user, and open the Desktop settings where the default browser
/// is chosen.
pub proof fn law_macos_registration()
    ensures
        macos_steps() == seq![
            StepView::CreateDir(PathView { base: PathBase::Home, parts: seq!["Applications/Antarcticite.app"@, "Contents"@, "MacOS"@] }),
            StepView::RemoveFileIfPresent(PathView { base: PathBase::Home, parts: seq!["Applications/Antarcticite.app"@, "Contents"@, "MacOS"@, "antarcticite"@] }),
            StepView::CopyCurrentExe(PathView { base: PathBase::Home, parts: seq!["Applications/Antarcticite.app"@, "Contents"@, "MacOS"@, "antarcticite"@] }),
            StepView::MakeExecutable(PathView { base: PathBase::Home, parts: seq!["Applications/Antarcticite.app"@, "Contents"@, "MacOS"@, "antarcticite"@] }),
            StepView::WriteFile(PathView { base: PathBase::Home, parts: seq!["Applications/Antarcticite.app"@, "Contents"@, "Info.plist"@] }, INFO_PLIST@),
            StepView::Run("codesign"@, seq![ArgView::Text("-s"@), ArgView::Text("-"@), ArgView::Text("--force"@), ArgView::Path(PathView { base: PathBase::Home, parts: seq!["Applications/Antarcticite.app"@] })]),
            StepView::Run("touch"@, seq![ArgView::Path(PathView { base: PathBase::Home, parts: seq!["Applications/Antarcticite.app"@] })]),
            StepView::RegisterWithLaunchServices(seq!["/System/Library/Frameworks/CoreServices.framework/Versions/A/Frameworks/LaunchServices.framework/Versions/A/Support/lsregister"@, "/System/Library/Frameworks/CoreServices.framework/Frameworks/LaunchServices.framework/Support/lsregister"@], PathView { base: PathBase::Home, parts: seq!["Applications/Antarcticite.app"@] }),
            StepView::Run("open"@, seq![ArgView::Text("-g"@), ArgView::Text("-j"@), ArgView::Path(PathView { base: PathBase::Home, parts: seq!["Applications/Antarcticite.app"@] })]),
            StepView::Notify("Antarcticite Installed"@, "Please select Antarcticite as your default browser in System Settings."@),
            StepView::Run("open"@, seq![ArgView::Text("x-apple.systempreferences:com.apple.Desktop-Settings.extension"@)]),
        ],
{
    assert(macos_steps() =~~= seq![
        StepView::CreateDir(PathView { base: PathBase::Home, parts: seq!["Applications/Antarcticite.app"@, "Contents"@, "MacOS"@] }),
        StepView::RemoveFileIfPresent(PathView { base: PathBase::Home, parts: seq!["Applications/Antarcticite.app"@, "Contents"@, "MacOS"@, "antarcticite"@] }),
        StepView::CopyCurrentExe(PathView { base: PathBase::Home, parts: seq!["Applications/Antarcticite.app"@, "Contents"@, "MacOS"@, "antarcticite"@] }),
        StepView::MakeExecutable(PathView { base: PathBase::Home, parts: seq!["Applications/Antarcticite.app"@, "Contents"@, "MacOS"@, "antarcticite"@] }),
        StepView::WriteFile(PathView { base: PathBase::Home, parts: seq!["Applications/Antarcticite.app"@, "Contents"@, "Info.plist"@] }, INFO_PLIST@),
        StepView::Run("codesign"@, seq![ArgView::Text("-s"@), ArgView::Text("-"@), ArgView::Text("--force"@), ArgView::Path(PathView { base: PathBase::Home, parts: seq!["Applications/Antarcticite.app"@] })]),
        StepView::Run("touch"@, seq![ArgView::Path(PathView { base: PathBase::Home, parts: seq!["Applications/Antarcticite.app"@] })]),
        StepView::RegisterWithLaunchServices(seq!["/System/Library/Frameworks/CoreServices.framework/Versions/A/Frameworks/LaunchServices.framework/Versions/A/Support/lsregister"@, "/System/Library/Frameworks/CoreServices.framework/Frameworks/LaunchServices.framework/Support/lsregister"@], PathView { base: PathBase::Home, parts: seq!["Applications/Antarcticite.app"@] }),
        StepView::Run("open"@, seq![ArgView::Text("-g"@), ArgView::Text("-j"@), ArgView::Path(PathView { base: PathBase::Home, parts: seq!["Applications/Antarcticite.app"@] })]),
        StepView::Notify("Antarcticite Installed"@, "Please select Antarcticite as your default browser in System Settings."@),
        StepView::Run("open"@, seq![ArgView::Text("x-apple.systempreferences:com.apple.Desktop-Settings.extension"@)]),
    ]);
}

/// The manifest names the host `com.antarcticite.router`, gives the
/// program's path `exe` as a JSON string, the `stdio` type and the Chromium
/// and Firefox extension origins.
pub proof fn law_manifest_contents(exe: Seq<char>)
    ensures
        manifest_text(exe) == "{\n  \"allowed_origins\": [\n    \"chrome-extension://*\",\n    \"moz-extension://*\"\n  ],\n  \"description\": \"Antarcticite Browser Profile Router\",\n  \"name\": \"com.antarcticite.router\",\n  \"path\": "@ + json_string(exe)
            + ",\n  \"type\": \"stdio\"\n}"@,
{
}

} // verus!
