use wasm_pack_startup::{
    classify, classify_stem, conclude, deprecation_notice, error_report, format_authors,
    is_actionable, startup, update_notice, CrashMetadata, CrashReporter, ErrorChain,
    HandlerState, IdentityError, InvocationIdentity, StartupAction, UpdateNotifier, VersionPair,
};

fn args(v: &[&str]) -> Vec<String> {
    v.iter().map(|s| s.to_string()).collect()
}

const NOTICE_0_9_TO_0_10: &str = "There's a newer version of wasm-pack available, the new version is: 0.10.0, you are using: 0.9.0. To update, navigate to: https://rustwasm.github.io/wasm-pack/installer/";

#[test]
fn installer_prefix_names_are_installer_mode() {
    for stem in ["wasm-pack-init", "wasm-pack-init-x86_64", "wasm-pack-init2"] {
        assert_eq!(classify_stem(stem), InvocationIdentity::InstallerMode);
    }
}

#[test]
fn other_names_are_normal_mode() {
    for stem in ["wasm-pack", "", "wasm-pack-ini", "my-wasm-pack-init", "Wasm-pack-init"] {
        assert_eq!(classify_stem(stem), InvocationIdentity::NormalMode);
    }
}

#[test]
fn missing_file_name_is_an_error() {
    assert_eq!(classify(None), Err(IdentityError::MissingFileName));
    assert_eq!(classify(Some("wasm-pack")), Ok(InvocationIdentity::NormalMode));
    assert_eq!(classify(Some("wasm-pack-init")), Ok(InvocationIdentity::InstallerMode));
}

#[test]
fn installer_ignores_arguments() {
    for a in [args(&["wasm-pack-init"]), args(&["wasm-pack-init", "init"]), args(&["x", "build", "--help"])] {
        let s = startup(classify_stem("wasm-pack-init"), &a);
        assert_eq!(s.action, StartupAction::Install);
        assert!(s.notice.is_none());
    }
}

#[test]
fn init_prints_deprecation_then_runs() {
    let s = startup(InvocationIdentity::NormalMode, &args(&["wasm-pack", "init"]));
    assert_eq!(s.action, StartupAction::RunCommand);
    assert_eq!(
        s.notice.as_deref(),
        Some("wasm-pack init is deprecated, consider using wasm-pack build")
    );
}

#[test]
fn deprecation_ignores_trailing_arguments() {
    let a = deprecation_notice(&args(&["wasm-pack", "init"]));
    let b = deprecation_notice(&args(&["wasm-pack", "init", "--scope", "x", "init"]));
    assert!(a.is_some());
    assert_eq!(a, b);
}

#[test]
fn no_deprecation_for_other_commands() {
    assert_eq!(deprecation_notice(&args(&["wasm-pack", "build"])), None);
    assert_eq!(deprecation_notice(&args(&["wasm-pack", "build", "init"])), None);
    assert_eq!(deprecation_notice(&args(&["wasm-pack"])), None);
    assert_eq!(deprecation_notice(&args(&[])), None);
    assert_eq!(deprecation_notice(&args(&["wasm-pack", "initx"])), None);
    let s = startup(InvocationIdentity::NormalMode, &args(&["wasm-pack", "build"]));
    assert_eq!(s.action, StartupAction::RunCommand);
    assert!(s.notice.is_none());
}

#[test]
fn poll_before_completion_is_empty() {
    let mut n = UpdateNotifier::start();
    assert!(!n.is_completed());
    assert!(n.poll().is_none());
    assert!(n.poll().is_none());
}

#[test]
fn poll_yields_pair_exactly_once() {
    let mut n = UpdateNotifier::start();
    n.complete(Some(("0.9.0".to_string(), "0.10.0".to_string())));
    assert!(n.is_completed());
    let p = n.poll().expect("pair");
    assert_eq!(p.local, "0.9.0");
    assert_eq!(p.latest, "0.10.0");
    assert!(n.poll().is_none());
    n.complete(Some(("0.9.0".to_string(), "0.11.0".to_string())));
    assert!(n.poll().is_none());
}

#[test]
fn no_pair_for_equal_or_empty_versions_or_failure() {
    let outcomes = [
        Some(("0.9.0", "0.9.0")),
        Some(("", "0.10.0")),
        Some(("0.9.0", "")),
        Some(("", "")),
        None,
    ];
    for probe in outcomes {
        let mut n = UpdateNotifier::start();
        n.complete(probe.map(|(a, b)| (a.to_string(), b.to_string())));
        assert!(n.is_completed());
        assert!(n.poll().is_none());
        assert!(n.poll().is_none());
    }
}

#[test]
fn actionable_versions() {
    assert!(is_actionable("0.9.0", "0.10.0"));
    assert!(!is_actionable("0.9.0", "0.9.0"));
    assert!(!is_actionable("", "0.9.0"));
    assert!(!is_actionable("0.9.0", ""));
}

#[test]
fn update_notice_names_both_versions() {
    let p = VersionPair { local: "0.9.0".to_string(), latest: "0.10.0".to_string() };
    assert_eq!(update_notice(&p), NOTICE_0_9_TO_0_10);
}

#[test]
fn build_success_with_update_prints_notice() {
    let s = startup(classify_stem("wasm-pack"), &args(&["wasm-pack", "build"]));
    assert_eq!(s.action, StartupAction::RunCommand);
    assert!(s.notice.is_none());
    let mut n = UpdateNotifier::start();
    n.complete(Some(("0.9.0".to_string(), "0.10.0".to_string())));
    let out = conclude(&Ok(()), &mut n);
    assert_eq!(out.stdout, vec![NOTICE_0_9_TO_0_10.to_string()]);
    assert!(out.stderr.is_empty());
    assert_eq!(out.exit_code, 0);
}

#[test]
fn success_without_update_prints_nothing() {
    let mut n = UpdateNotifier::start();
    let out = conclude(&Ok(()), &mut n);
    assert!(out.stdout.is_empty());
    assert!(out.stderr.is_empty());
    assert_eq!(out.exit_code, 0);
}

#[test]
fn failure_reports_cause_chain_in_order() {
    let e = ErrorChain {
        message: "build failed".to_string(),
        causes: vec!["cargo exited".to_string(), "missing target".to_string()],
    };
    let mut n = UpdateNotifier::start();
    n.complete(Some(("0.9.0".to_string(), "0.10.0".to_string())));
    let out = conclude(&Err(e), &mut n);
    assert_eq!(
        out.stderr,
        vec![
            "Error: build failed".to_string(),
            "Caused by: cargo exited".to_string(),
            "Caused by: missing target".to_string(),
        ]
    );
    assert!(out.stdout.is_empty());
    assert_eq!(out.exit_code, 1);
    // The failure leaves the waiting pair untouched.
    assert!(n.poll().is_some());
}

#[test]
fn failure_without_causes_is_one_line() {
    let e = ErrorChain { message: "oops".to_string(), causes: vec![] };
    assert_eq!(error_report(&e), vec!["Error: oops".to_string()]);
}

#[test]
fn authors_are_comma_separated() {
    assert_eq!(format_authors("Ann <a@x>:Bob <b@y>"), "Ann <a@x>, Bob <b@y>");
    assert_eq!(format_authors(""), "");
    assert_eq!(format_authors("solo"), "solo");
    assert_eq!(format_authors("a::b"), "a, , b");
    let m = CrashMetadata::new("wasm-pack".to_string(), "0.6.0".to_string(), "A:B", "h".to_string());
    assert_eq!(m.authors, "A, B");
    assert_eq!(m.name, "wasm-pack");
}

#[test]
fn crash_handler_installed_once() {
    let mut r = CrashReporter::new();
    assert_eq!(r.state(), HandlerState::DefaultHandler);
    assert!(r.install(false));
    assert_eq!(r.state(), HandlerState::AugmentedHandler);
    assert!(!r.install(false));
    assert_eq!(r.state(), HandlerState::AugmentedHandler);
}

#[test]
fn raw_diagnostics_keep_default_handler() {
    let mut r = CrashReporter::new();
    assert!(!r.install(true));
    assert_eq!(r.state(), HandlerState::DefaultHandler);
}
