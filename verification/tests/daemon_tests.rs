use antarcticite::{
    daemon_step, install, native_host_manifest, install_linux, install_macos, install_windows, payload_length, plan_invocation,
    routing_reply, Cli, Commands, DaemonAction, ExtensionMessage, InstallStep, Invocation, NativeMessage, PathBase,
    PlannedArg, ReadOutcome, RecentRequests, ResolvedUrlData, TargetOs,
};

#[test]
fn repeated_request_is_ignored_within_window() {
    let mut recent = RecentRequests::new();
    assert!(recent.record_request("u", 100));
    assert!(!recent.record_request("u", 100 + 499_999_999));
    assert!(recent.record_request("v", 100 + 499_999_999));
    assert!(recent.record_request("u", 100 + 500_000_000));
    assert!(!recent.record_request("v", 100 + 500_000_000));
}

#[test]
fn zero_length_means_disconnected() {
    assert_eq!(payload_length(0), None);
    assert_eq!(payload_length(17), Some(17));
}

#[test]
fn daemon_steps() {
    let msg = ExtensionMessage::ResolvedUrl(ResolvedUrlData {
        original_url: "https://protect-eu.mimecast.com/s/...".to_string(),
        resolved_url: "https://www.clientX.com/dashboard".to_string(),
        timestamp_ms: 1710950400000,
    });
    assert_eq!(
        daemon_step(ReadOutcome::Received(msg), true),
        DaemonAction::Route("https://www.clientX.com/dashboard".to_string())
    );
    assert_eq!(daemon_step(ReadOutcome::Disconnected, true), DaemonAction::Exit(0));
    assert_eq!(daemon_step(ReadOutcome::Disconnected, false), DaemonAction::Stop);
    assert_eq!(daemon_step(ReadOutcome::Failed, true), DaemonAction::Exit(1));
    assert_eq!(daemon_step(ReadOutcome::Failed, false), DaemonAction::Stop);
}

#[test]
fn reply_after_routing() {
    match routing_reply(true) {
        Some(NativeMessage::Ack(ack)) => {
            assert_eq!(ack.status, "success");
            assert_eq!(ack.message, "URL routed successfully");
        },
        _ => panic!("expected an acknowledgement"),
    }
    assert!(routing_reply(false).is_none());
}

#[test]
fn invocation_choice() {
    let daemon = Cli { command: Some(Commands::Daemon), url: Some("https://a.b".to_string()) };
    assert!(matches!(plan_invocation(daemon, TargetOs::Linux), Invocation::StartDaemon));
    let inst = Cli { command: Some(Commands::Install), url: None };
    assert!(matches!(plan_invocation(inst, TargetOs::Linux), Invocation::Install));
    let url = Cli { command: None, url: Some("https://a.b".to_string()) };
    match plan_invocation(url, TargetOs::Windows) {
        Invocation::RouteUrl(u) => assert_eq!(u, "https://a.b"),
        _ => panic!("expected routing"),
    }
    let none = Cli { command: None, url: None };
    assert!(matches!(plan_invocation(none.clone(), TargetOs::MacOs), Invocation::StartDaemon));
    assert!(matches!(plan_invocation(none, TargetOs::Linux), Invocation::ShowUsage));
}

fn path_parts(p: &antarcticite::PlannedPath) -> Vec<&str> {
    p.parts.iter().map(|s| s.as_str()).collect()
}

#[test]
fn linux_install_writes_desktop_entry() {
    let steps = install_linux("/usr/bin/antarcticite");
    assert_eq!(steps.len(), 3);
    match &steps[1] {
        InstallStep::WriteFile(path, contents) => {
            assert_eq!(path.base, PathBase::DataLocal);
            assert_eq!(path_parts(path), vec!["applications", "antarcticite.desktop"]);
            assert!(contents.starts_with("[Desktop Entry]\nVersion=1.0\n"));
            assert!(contents.contains("\nExec=/usr/bin/antarcticite %U\n"));
            assert!(contents.ends_with("x-scheme-handler/https;\n"));
        },
        _ => panic!("expected a file write"),
    }
    match &steps[2] {
        InstallStep::Run(program, args) => {
            assert_eq!(program, "xdg-settings");
            assert_eq!(args.len(), 3);
        },
        _ => panic!("expected a command"),
    }
}

#[test]
fn full_install_per_os() {
    let linux = install(TargetOs::Linux, "/bin/a");
    assert_eq!(linux.len(), 10 + 3);
    match &linux[9] {
        InstallStep::WriteFile(path, contents) => {
            assert_eq!(path.base, PathBase::Home);
            assert_eq!(path_parts(path), vec![".mozilla/native-messaging-hosts", "com.antarcticite.router.json"]);
            assert_eq!(contents, &native_host_manifest("/bin/a"));
        },
        _ => panic!("expected a file write"),
    }
    assert_eq!(install(TargetOs::MacOs, "/bin/a").len(), 6 + install_macos().len());
    assert_eq!(install(TargetOs::Windows, "C:\\a.exe").len(), 6 + 7);
    assert!(install(TargetOs::Other, "/bin/a").is_empty());
}

#[test]
fn windows_install_registers_open_command() {
    let steps = install_windows("C:\\Apps\\antarcticite.exe");
    match &steps[1] {
        InstallStep::Run(program, args) => {
            assert_eq!(program, "cmd");
            match &args[1] {
                PlannedArg::Text(t) => assert_eq!(
                    t,
                    "reg add \"HKCU\\Software\\Classes\\antarcticite.url\\shell\\open\\command\" /ve /t REG_SZ /d \"\\\"C:\\Apps\\antarcticite.exe\\\" \\\"%1\\\"\" /f"
                ),
                _ => panic!("expected text"),
            }
        },
        _ => panic!("expected a command"),
    }
}

#[test]
fn macos_install_copies_into_bundle() {
    let steps = install_macos();
    match &steps[2] {
        InstallStep::CopyCurrentExe(path) => {
            assert_eq!(path_parts(path), vec!["Applications/Antarcticite.app", "Contents", "MacOS", "antarcticite"])
        },
        _ => panic!("expected a copy"),
    }
    match &steps[4] {
        InstallStep::WriteFile(path, contents) => {
            assert_eq!(path_parts(path).last(), Some(&"Info.plist"));
            assert!(contents.contains("<string>com.antarcticite.router</string>"));
        },
        _ => panic!("expected a file write"),
    }
}

#[test]
fn manifest_names_the_host_and_program() {
    let text = native_host_manifest("/opt/my \"router\"/antarcticite");
    let value: serde_json::Value = serde_json::from_str(&text).expect("the manifest is JSON");
    assert_eq!(value["name"], "com.antarcticite.router");
    assert_eq!(value["description"], "Antarcticite Browser Profile Router");
    assert_eq!(value["path"], "/opt/my \"router\"/antarcticite");
    assert_eq!(value["type"], "stdio");
    assert_eq!(value["allowed_origins"][0], "chrome-extension://*");
    assert_eq!(value["allowed_origins"][1], "moz-extension://*");
}

#[test]
fn windows_registers_the_documented_prog_id() {
    let steps = install_windows("C:\\a.exe");
    match &steps[0] {
        InstallStep::Run(_, args) => match &args[1] {
            PlannedArg::Text(t) => assert!(t.contains("HKCU\\Software\\Classes\\antarcticite.url")),
            _ => panic!("expected text"),
        },
        _ => panic!("expected a command"),
    }
}

#[test]
fn suppressed_repeat_does_not_extend_window() {
    let mut recent = RecentRequests::new();
    assert!(recent.record_request("u", 1_000));
    assert!(!recent.record_request("u", 1_000 + 400_000_000));
    assert!(!recent.record_request("u", 1_000 + 499_999_999));
    assert!(recent.record_request("u", 1_000 + 500_000_000));
}

#[test]
fn manifest_path_is_escaped() {
    let text = native_host_manifest("a\"b\\c\n\u{1}");
    assert!(text.contains("\"path\": \"a\\\"b\\\\c\\n\\u0001\",\n"));
    assert!(text.ends_with(",\n  \"type\": \"stdio\"\n}"));
}
