//! The parts around the keystore: host channels, installation, the menu, names and output.

use signet_cli::dispatch::{
    answered_yes, broker_start, confirm_delete, delete_prompt, delete_targets, headless_idle,
    opens_keystore, plan, purpose_flag, rand_request, BrokerCredentialCheck, Confirmation,
    RandFormat, Request, Verb,
};
use signet_cli::error::CliError;
use signet_cli::host_channel::{
    channel_paths, check_unregistered, choose_channel_id, fresh_secret_hex, launchd_target,
    no_registry, pinned_handle, printed_uid, provision_core, provision_notice, provision_receipt,
    random_channel_id, register_channel, reload_notice, remove_channel, run_snippet,
    validate_channel_id, BROKER_LAUNCHD_LABEL, HOST_SIGNER_LAUNCHD_LABEL,
};
use signet_cli::host_signer::Registry;
use signet_cli::install::{
    app_bundle, broker_launchagent_plist, home_dir, install_paths, install_result,
    install_summary, is_gui_invocation, not_in_an_app,
};
use signet_cli::keystore::Purpose;
use signet_cli::menubar::{
    broker_menu, entered_handle, fragment_text, host_signer_menu, invalid_handle_text, is_newer,
    latest_version, latest_version_url, looks_like_version, menu_glyph, refresh_currency,
    running_line, update_is_available, update_poll_interval_secs, update_report,
    valid_prsn_handle, version_line, BrokerMenuState, MenuRow, UpdateOutcome, MENU_GLYPH,
};
use signet_cli::names::{dedupe_name, split_extension};
use signet_cli::output::{errors_as_json, render_error, OutputMode};

const DIR: &str = "/h/host-signer";
const CURRENT: &str = "0.1.0";

fn provision(reg: &mut Registry, id: &str) -> Result<(), CliError> {
    let paths = channel_paths(DIR, id);
    let secret = fresh_secret_hex().expect("entropy");
    register_channel(reg, id, &paths.channel_dir, &secret, &paths.registry)
}

fn empty() -> Registry {
    Registry::load_or_init(None, "/h/host-signer/state")
}

#[test]
fn provision_creates_channel_secret_and_registry() {
    let mut reg = empty();
    provision(&mut reg, "testchan").unwrap();
    let paths = channel_paths(DIR, "testchan");
    assert_eq!(paths.channel_dir, "/h/host-signer/channels/testchan");
    assert_eq!(paths.secret_file, "/h/host-signer/secrets/testchan/secret.hex");
    assert_eq!(paths.secret_dir, "/h/host-signer/secrets/testchan");
    assert_eq!(paths.registry, "/h/host-signer/registry.toml");
    assert_eq!(paths.state_dir, "/h/host-signer/state");
    assert_eq!(reg.channels.len(), 1);
    assert_eq!(reg.channels[0].id, "testchan");
    assert_eq!(reg.channels[0].secret_hex.len(), 64);
    assert_eq!(hex::decode(&reg.channels[0].secret_hex).unwrap().len(), 32);
    assert_eq!(reg.channels[0].dir, "/h/host-signer/channels/testchan");
}

#[test]
fn provision_refuses_duplicate_channel_id() {
    let mut reg = empty();
    provision(&mut reg, "dup").unwrap();
    assert!(check_unregistered(&reg, "dup", "/r").is_err());
    assert!(check_unregistered(&reg, "dup2", "/r").is_ok());
    let e = provision(&mut reg, "dup").unwrap_err();
    assert_eq!(
        e.message,
        "channel id 'dup' is already registered in /h/host-signer/registry.toml"
    );
    assert_eq!(reg.channels.len(), 1);
}

#[test]
fn provision_appends_to_existing_registry_with_distinct_secrets() {
    let mut reg = empty();
    provision(&mut reg, "c1").unwrap();
    provision(&mut reg, "c2").unwrap();
    assert_eq!(reg.channels.len(), 2);
    assert_ne!(reg.channels[0].secret_hex, reg.channels[1].secret_hex);
}

#[test]
fn random_channel_id_is_valid_and_unique() {
    let a = random_channel_id().unwrap();
    let b = random_channel_id().unwrap();
    assert_eq!(a.len(), 16);
    assert!(validate_channel_id(&a).is_ok());
    assert_ne!(a, b);
}

#[test]
fn validate_channel_id_rejects_bad() {
    assert!(validate_channel_id("").is_err());
    assert!(validate_channel_id("-x").is_err());
    assert!(validate_channel_id("x-").is_err());
    assert!(validate_channel_id("Has Caps").is_err());
    assert!(validate_channel_id("ok-id-1").is_ok());
    assert!(validate_channel_id(&"a".repeat(64)).is_ok());
    assert!(validate_channel_id(&"a".repeat(65)).is_err());
}

#[test]
fn remove_needs_force_then_drops_entry_and_folders() {
    let mut reg = empty();
    provision(&mut reg, "kept").unwrap();
    provision(&mut reg, "gone").unwrap();
    assert!(remove_channel(&mut reg, "gone", false).is_err());
    assert_eq!(reg.channels.len(), 2);
    let removed = remove_channel(&mut reg, "gone", true).unwrap();
    assert_eq!(removed.dir, "/h/host-signer/channels/gone");
    assert_eq!(reg.channels.len(), 1);
    assert_eq!(reg.channels[0].id, "kept");
}

#[test]
fn remove_unknown_channel_errors() {
    let mut reg = empty();
    provision(&mut reg, "here").unwrap();
    assert!(remove_channel(&mut reg, "nope", true).is_err());
    assert_eq!(reg.channels.len(), 1);
}

#[test]
fn run_snippet_includes_bin_mount_only_when_delivered() {
    let with = run_snippet("docker", "c1", "/h/chan", "/h/sec", Some("/h/bin"), None);
    let without = run_snippet("docker", "c1", "/h/chan", "/h/sec", None, None);
    assert!(with.contains("/h/bin:/run/signet/bin:ro"));
    assert!(!without.contains("/run/signet/bin"));
    assert!(with.contains("SIGNET_HOST_CHANNEL_ID=c1"));
    assert!(without.contains("/h/chan:/run/signet/channel"));
}

#[test]
fn run_snippet_carries_signet_handle_placeholder_or_value() {
    let placeholder = run_snippet("docker", "c1", "/h/chan", "/h/sec", None, None);
    assert!(placeholder.contains("-e SIGNET_HANDLE=<your-PRSN-handle>"));
    let filled = run_snippet("docker", "c1", "/h/chan", "/h/sec", None, Some("ada-ai"));
    assert!(filled.contains("-e SIGNET_HANDLE=ada-ai"));
    assert!(!filled.contains("<your-PRSN-handle>"));
}

#[test]
fn provision_core_returns_a_usable_receipt() {
    let reg = provision_core(DIR, "chan-a", None, "ab").unwrap();
    assert_eq!(reg.state_dir, "/h/host-signer/state");
    assert_eq!(reg.channels.len(), 1);
    assert_eq!(reg.channels[0].dir, "/h/host-signer/channels/chan-a");
    assert_eq!(reg.channels[0].secret_hex, "ab");
    let r = provision_receipt(DIR, "chan-a", Some("/h/bin"), Some("ada-ai"));
    assert_eq!(r.channel_id, "chan-a");
    assert!(r.secret_file.ends_with("secret.hex"));
    assert!(r.bin_delivered);
    assert!(r.docker_snippet.contains("-e SIGNET_HANDLE=ada-ai"));
    assert!(r.docker_snippet.starts_with("docker run"));
    assert!(r.apple_snippet.contains("container run"));
    assert!(!provision_receipt(DIR, "chan-a", None, None).bin_delivered);
    assert!(provision_core(DIR, "chan-a", Some(reg), "cd").is_err());
}

#[test]
fn an_id_is_asked_for_or_drawn() {
    assert_eq!(choose_channel_id(Some("c-1")).unwrap(), "c-1");
    assert!(choose_channel_id(Some("-")).is_err());
    assert_eq!(choose_channel_id(None).unwrap().len(), 16);
    assert_eq!(no_registry("/r").message, "no host-signer registry at /r");
}

#[test]
fn the_operator_is_told_what_comes_next() {
    let r = provision_receipt(DIR, "c1", Some("/h/bin"), None);
    let text = provision_notice(&r);
    assert!(text.starts_with("✓ provisioned host-delegation channel 'c1'\n\nNext:\n1. "));
    assert!(text.contains("run `/run/signet/bin/signet enroll`"));
    assert!(text.ends_with(&format!(
        "delivered into the container at /run/signet/bin/signet.\n\nDocker:\n{}\n\nApple \
         container:\n{}\n",
        r.docker_snippet, r.apple_snippet
    )));
    let r = provision_receipt(DIR, "c1", None, None);
    assert!(provision_notice(&r).contains("(No bundled `signet` found."));
    assert!(reload_notice(true).starts_with('✓'));
    assert!(reload_notice(false).contains("launchctl kickstart -k"));
}

#[test]
fn the_daemons_are_addressed_in_the_users_session() {
    assert_eq!(pinned_handle(" hlin-ai\n").as_deref(), Some("hlin-ai"));
    assert_eq!(pinned_handle(" \n"), None);
    assert_eq!(printed_uid(true, b"501\n").as_deref(), Some("501"));
    assert_eq!(printed_uid(false, b"501\n"), None);
    assert_eq!(
        launchd_target("501", HOST_SIGNER_LAUNCHD_LABEL),
        "gui/501/ai.prsnex.signet.host-signer"
    );
}

#[test]
fn gui_invocation_needs_no_subcommand_and_no_tty() {
    assert!(is_gui_invocation(&vec![], false, false));
    assert!(is_gui_invocation(&vec!["-psn_0_123456".into()], false, false));
    assert!(is_gui_invocation(&vec!["-NSDocumentRevisionsDebugMode".into()], false, false));
}

#[test]
fn a_real_subcommand_is_never_a_gui_launch() {
    assert!(!is_gui_invocation(&vec!["host-signer".into()], false, false));
    assert!(!is_gui_invocation(&vec!["enroll".into()], false, false));
}

#[test]
fn a_terminal_with_a_tty_is_never_a_gui_launch() {
    assert!(!is_gui_invocation(&vec![], true, true));
    assert!(!is_gui_invocation(&vec![], true, false));
    assert!(!is_gui_invocation(&vec![], false, true));
    assert!(!is_gui_invocation(&vec!["--quiet".into()], true, true));
}

#[test]
fn a_flag_without_a_tty_is_not_a_gui_launch() {
    assert!(!is_gui_invocation(&vec!["--version".into()], false, false));
    assert!(!is_gui_invocation(&vec!["--help".into()], false, false));
    assert!(!is_gui_invocation(&vec!["-V".into()], false, false));
    assert!(!is_gui_invocation(&vec!["-h".into()], false, false));
    assert!(!is_gui_invocation(&vec!["--quiet".into()], false, false));
    assert!(!is_gui_invocation(
        &vec!["--server-url".into(), "https://x".into()],
        false,
        false
    ));
}

#[test]
fn a_binary_in_an_app_knows_its_bundle() {
    assert_eq!(
        app_bundle("/Applications/signet.app/Contents/MacOS/signet").as_deref(),
        Some("/Applications/signet.app")
    );
    assert_eq!(app_bundle("/home/x/target/debug/signet"), None);
    assert_eq!(app_bundle("/Applications/.app/Contents/MacOS/signet"), None);
    assert_eq!(app_bundle("/Applications/signet.app/MacOS/signet"), None);
    assert_eq!(app_bundle("/signet"), None);
    assert_eq!(app_bundle(""), None);
    assert_eq!(not_in_an_app().exit_code, 2);
}

#[test]
fn broker_launchagent_plist_is_always_on_from_install() {
    let cred = "/Users/x/.config/signet/broker/credential.json";
    let plist = broker_launchagent_plist(
        "/Users/x/Library/Application Support/Signet/signet.app/Contents/MacOS/signet",
        cred,
        "127.0.0.1:8765",
        "/Users/x/Library/Logs/Signet/broker.log",
    );
    assert!(plist.contains(&format!("<string>{BROKER_LAUNCHD_LABEL}</string>")));
    assert!(plist.contains("<string>broker</string>"));
    assert!(plist.contains("<string>serve</string>"));
    assert!(plist.contains("<string>--credential</string>"));
    assert!(plist.contains(&format!("<string>{cred}</string>")));
    assert!(plist.contains("<string>--bind</string>"));
    assert!(plist.contains("<string>127.0.0.1:8765</string>"));
    assert!(plist.contains("<key>RunAtLoad</key><true/>"));
    assert!(plist.contains("<key>KeepAlive</key><true/>"));
    assert!(!plist.contains("<key>PathState</key>"));
    assert!(plist.contains("broker.log"));
}

#[test]
fn the_installation_lives_under_the_home() {
    assert_eq!(home_dir(Some("/Users/x")).unwrap(), "/Users/x");
    assert!(home_dir(None).is_err());
    let p = install_paths("/Users/x");
    assert_eq!(p.support_dir, "/Users/x/Library/Application Support/Signet");
    assert_eq!(p.app_bin, format!("{}/Contents/MacOS/signet", p.app));
    assert_eq!(p.log, "/Users/x/Library/Logs/Signet/broker.log");
    assert_eq!(p.plist, "/Users/x/Library/LaunchAgents/ai.prsnex.signet.broker.plist");
    let summary = install_summary(&p.app, "/usr/local/bin/signet");
    assert!(summary.contains(&p.app) && summary.contains("/usr/local/bin/signet"));
    let (_, text, code) = install_result(Ok("done".into()));
    assert_eq!((text.as_str(), code), ("done", 0));
    let (_, text, code) = install_result(Err(CliError::filesystem("full")));
    assert!(text.starts_with(&CliError::filesystem("full").to_line()));
    assert_eq!(code, 1);
}

#[test]
fn version_line_without_latest_has_no_currency_suffix() {
    let line = version_line(CURRENT, None);
    assert!(line.starts_with("Version "));
    assert!(!line.contains("—"));
    assert_eq!(line, "Version 0.1.0");
}

#[test]
fn version_line_flags_an_update_when_latest_is_newer() {
    assert!(version_line(CURRENT, Some("999.0.0")).ends_with("update available"));
}

#[test]
fn version_line_says_up_to_date_when_not_newer() {
    assert!(version_line(CURRENT, Some("0.0.1")).ends_with("up to date"));
}

#[test]
fn running_line_reflects_credential_state() {
    let (serving, ready, impaired) =
        (BrokerMenuState::Serving, BrokerMenuState::Ready, BrokerMenuState::Impaired);
    assert_eq!(running_line(serving), "● Running");
    assert!(running_line(ready).contains("Ready"));
    assert!(running_line(ready).contains("no PRSNs"));
    assert!(running_line(impaired).contains("Not serving"));
    assert!(running_line(impaired).contains("re-provision"));
    assert!(!running_line(impaired).contains("Running"));
    assert_ne!(running_line(serving), running_line(ready));
    assert_ne!(running_line(serving), running_line(impaired));
}

#[test]
fn running_lines_are_worded_exactly() {
    assert_eq!(running_line(BrokerMenuState::Ready), "○ Ready — no PRSNs yet");
    assert_eq!(running_line(BrokerMenuState::Impaired), "✕ Not serving — re-provision needed");
}

#[test]
fn menu_glyph_badges_only_when_an_update_is_available() {
    assert_eq!(menu_glyph(false), MENU_GLYPH);
    assert_ne!(menu_glyph(true), MENU_GLYPH);
    assert!(menu_glyph(true).contains(MENU_GLYPH));
}

#[test]
fn update_is_available_compares_against_the_running_version() {
    assert!(update_is_available(CURRENT, Some("999.0.0")));
    assert!(!update_is_available(CURRENT, Some("0.0.1")));
    assert!(!update_is_available(CURRENT, None));
}

#[test]
fn versions_are_compared_number_by_number() {
    assert!(is_newer("0.10.0", "0.9.9"));
    assert!(!is_newer("0.1", "0.1.0"));
    assert!(is_newer("0.1.0.1", "0.1.0"));
    assert!(!is_newer("0.1.0", "0.1.0"));
}

#[test]
fn valid_prsn_handle_accepts_ai_handles_only() {
    assert!(valid_prsn_handle("ada-ai"));
    assert!(valid_prsn_handle("h2-ai"));
    assert!(!valid_prsn_handle("ada"));
    assert!(!valid_prsn_handle("Ada-ai"));
    assert!(!valid_prsn_handle(""));
    assert!(!valid_prsn_handle("-ai"));
}

#[test]
fn looks_like_version_accepts_dotted_numerics_only() {
    assert!(looks_like_version("0.1.0"));
    assert!(looks_like_version("12.0"));
    assert!(!looks_like_version(""));
    assert!(!looks_like_version("v0.1.0"));
    assert!(!looks_like_version("0..1"));
    assert!(!looks_like_version("<!doctype html>"));
    assert!(!looks_like_version("no CLI release is published"));
    assert!(!looks_like_version("+1.0"));
}

#[test]
fn latest_version_best_effort_returns_a_served_version() {
    assert_eq!(latest_version("0.9.9\n").as_deref(), Some("0.9.9"), "trimmed body version");
    assert_eq!(latest_version_url("https://h"), "https://h/cli/latest-version");
}

#[test]
fn latest_version_best_effort_discards_non_version_bodies_and_errors() {
    assert_eq!(
        latest_version("<!doctype html><title>oops</title>"),
        None,
        "an HTML body must not feed the currency comparison"
    );
    assert_eq!(latest_version("no CLI release is published"), None);
}

#[test]
fn an_update_stays_known_and_currency_is_rechecked() {
    let some = |s: &str| Some(s.to_string());
    assert_eq!(refresh_currency(CURRENT, some("0.2.0"), None), some("0.2.0"));
    assert_eq!(refresh_currency(CURRENT, some("0.1.0"), None), None);
    assert_eq!(refresh_currency(CURRENT, some("0.2.0"), some("0.1.0")), some("0.1.0"));
}

#[test]
fn the_menus_hold_their_rows_in_order() {
    let rows = broker_menu(CURRENT, Some("9.0"), BrokerMenuState::Ready);
    let labels: Vec<&str> = rows
        .iter()
        .filter_map(|r| match r {
            MenuRow::Label(t) => Some(t.as_str()),
            _ => None,
        })
        .collect();
    assert!(labels.contains(&"Version 0.1.0 — update available"));
    assert!(labels.contains(&"○ Ready — no PRSNs yet"));
    assert!(matches!(rows.last(), Some(MenuRow::Quit)));
    assert!(rows.iter().any(|r| matches!(r, MenuRow::Update)));
    let rows = host_signer_menu(CURRENT, None);
    assert_eq!(rows.len(), 5);
    assert!(matches!(rows.last(), Some(MenuRow::AddContainer)));
    assert_eq!(update_poll_interval_secs(999_999_999), 7200 + 999_999_999 % 1800);
}

#[test]
fn only_an_installed_update_restarts() {
    let done = UpdateOutcome::Installed { from: "0.1.0".into(), to: "0.2.0".into() };
    let (title, text, restart) = update_report(Ok(done));
    assert_eq!(title, "Signet updated");
    assert_eq!(text, "Updated from 0.1.0 to 0.2.0. Signet will restart now.");
    assert!(restart);
    let same = UpdateOutcome::AlreadyCurrent { version: "0.2.0".into() };
    let (_, text, restart) = update_report(Ok(same));
    assert_eq!(text, "You're already on the latest version (0.2.0).");
    assert!(!restart);
    let (title, text, restart) = update_report(Err(CliError::generic("x")));
    assert_eq!(title, "Update failed");
    assert!(text.contains(&CliError::generic("x").to_line()));
    assert!(!restart);
}

#[test]
fn an_entered_handle_is_trimmed_and_checked() {
    assert_eq!(entered_handle(" ada-ai ").as_deref(), Some("ada-ai"));
    assert_eq!(entered_handle("   "), None);
    assert!(invalid_handle_text("ada").contains("ada"));
    let receipt = provision_receipt(DIR, "c1", None, Some("ada-ai"));
    let text = fragment_text(&receipt, "ada-ai");
    assert!(text.contains("ada-ai") && text.contains(&receipt.docker_snippet));
}

#[test]
fn shared_parity_vectors() {
    let cases: &[(&str, &[&str], &str)] = &[
        ("report.pdf", &[], "report.pdf"),
        ("report.pdf", &["report.pdf"], "report (1).pdf"),
        ("report.pdf", &["report.pdf", "report (1).pdf"], "report (2).pdf"),
        ("archive.tar.gz", &["archive.tar.gz"], "archive.tar (1).gz"),
        ("README", &["README"], "README (1)"),
        (".env", &[".env"], ".env (1)"),
        ("trailing.", &["trailing."], "trailing. (1)"),
        ("wave-a-renamed.bin", &["wave-a-renamed.bin"], "wave-a-renamed (1).bin"),
        ("a (1).txt", &["a (1).txt"], "a (1) (1).txt"),
    ];
    for (desired, existing, expected) in cases {
        let taken: Vec<String> = existing.iter().map(|s| s.to_string()).collect();
        assert_eq!(dedupe_name(desired, &taken), *expected, "dedupe({desired:?}, {existing:?})");
    }
}

#[test]
fn an_extension_needs_something_on_both_sides() {
    assert_eq!(split_extension("a.b"), ("a", ".b"));
    assert_eq!(split_extension(".env"), (".env", ""));
    assert_eq!(split_extension("a."), ("a.", ""));
    assert_eq!(split_extension("ä.ö"), ("ä", ".ö"));
}

#[test]
fn errors_are_rendered_as_asked() {
    assert!(OutputMode::asked(true, "json").pretty);
    assert!(OutputMode::asked(false, "pretty").pretty);
    assert!(!OutputMode::asked(false, "json").pretty);
    assert!(errors_as_json(true, "text"));
    assert!(errors_as_json(false, "json"));
    assert!(!errors_as_json(false, "text"));
    let e = CliError::not_found("no \"x\"");
    assert_eq!(
        render_error(&e, true, false).as_deref(),
        Some(r#"{"error":{"code":"not_found","message":"no \"x\""}}"#)
    );
    assert_eq!(
        render_error(&e, false, false),
        Some(format!("signet error: {}", e.to_line()))
    );
    assert_eq!(render_error(&e, false, true), None);
    let silent = CliError::new(8, "x", "m");
    assert_eq!(render_error(&silent, true, false), None);
}

#[test]
fn a_delete_waits_for_its_confirmation() {
    assert!(matches!(confirm_delete(true, false), Confirmation::Given));
    assert!(matches!(confirm_delete(false, true), Confirmation::Ask));
    assert!(matches!(confirm_delete(false, false), Confirmation::Refused(_)));
    for yes in ["y", "Y\n", " yes ", "YES"] {
        assert!(answered_yes(yes), "{yes:?}");
    }
    for no in ["", "n", "Yes please", "yEs"] {
        assert!(!answered_yes(no), "{no:?}");
    }
    let targets = delete_targets(&vec!["/a".into()], "--file-id", &vec!["7".into()]);
    assert_eq!(targets, ["/a", "--file-id 7"]);
    assert!(delete_prompt("file(s)", 2).contains("file(s)"));
}

#[test]
fn a_request_is_planned_before_anything_runs() {
    let request = Request::FileDelete { paths: vec!["/a".into()], ids: vec![], yes: false };
    let p = plan(&request).ok().unwrap();
    assert_eq!(p.verb, Verb::File);
    let (what, targets) = p.confirm.unwrap();
    assert_eq!(what, "file(s)");
    assert_eq!(targets, ["/a"]);
    assert!(p.opens_keystore);
    let request = Request::FolderDelete { paths: vec![], ids: vec!["3".into()], yes: true };
    assert!(plan(&request).ok().unwrap().confirm.is_none());
    let request = Request::Rand { hex: Some(4), base64url: None, bytes: None };
    assert_eq!(plan(&request).ok().unwrap().rand, Some((RandFormat::Hex, 4)));
    assert!(rand_request(Some(1), Some(1), None).is_err());
    assert!(rand_request(None, None, None).is_err());
    assert_eq!(rand_request(None, None, Some(2)).unwrap(), (RandFormat::Bytes, 2));
    assert_eq!(purpose_flag(Some("kem-pq")).unwrap(), Some(Purpose::KemPq));
    assert_eq!(purpose_flag(None).unwrap(), None);
    let e = purpose_flag(Some("pq")).unwrap_err();
    assert_eq!(e.message, "unknown --purpose 'pq' (expected signing|kem|signing-pq|kem-pq)");
    let request = Request::KeysDelete { purpose: Some("pq".into()) };
    assert!(plan(&request).is_err());
    assert!(opens_keystore(Verb::Sign));
    assert!(!opens_keystore(Verb::Encrypt));
    assert!(!plan(&Request::Other(Verb::Version)).ok().unwrap().opens_keystore);
}

#[test]
fn broker_serve_with_no_credential_exits_cleanly() {
    let missing = "/nonexistent/signet-broker-credential-xyz.json";
    assert!(headless_idle(false, missing).is_some());
    assert_eq!(headless_idle(true, missing), None);
}

#[test]
fn a_broker_without_a_sound_credential_is_not_running() {
    let (state, notice) = broker_start(BrokerCredentialCheck::Absent);
    assert_eq!(state, BrokerMenuState::Ready);
    assert!(notice.is_none() || !notice.unwrap().is_empty());
    let bad = BrokerCredentialCheck::Unreadable(CliError::filesystem("torn"));
    let (state, notice) = broker_start(bad);
    assert_eq!(state, BrokerMenuState::Impaired);
    assert!(notice.unwrap().contains("torn"));
    let bad = BrokerCredentialCheck::Unbound(CliError::key_not_found("gone"));
    assert_eq!(broker_start(bad).0, BrokerMenuState::Impaired);
    assert_eq!(broker_start(BrokerCredentialCheck::Sound).0, BrokerMenuState::Serving);
}
