use bindgen_install::pipeline::{
    AcquireAction, AcquireError, AcquireEvent, AcquireOutcome, AcquireRequest, AcquireState,
    acquire_start, canonical_dirname, cargo_install_wasm_bindgen, download_prebuilt_wasm_bindgen,
    expected_binaries, install_wasm_bindgen, staging_dirname,
};
use bindgen_install::platform::{TargetArch, TargetOs, prebuilt_triple, prebuilt_url};
use bindgen_install::probe::wasm_bindgen_version_check;

const LINUX_URL: &str =
    "https://github.com/rustwasm/wasm-bindgen/releases/download/0.2.74/wasm-bindgen-0.2.74-x86_64-unknown-linux-musl.tar.gz";

fn linux_request(install_permitted: bool) -> AcquireRequest {
    AcquireRequest {
        version: String::from("0.2.74"),
        install_permitted,
        os: TargetOs::Linux,
        arch: TargetArch::X86_64,
    }
}

fn unsupported_request(install_permitted: bool) -> AcquireRequest {
    AcquireRequest {
        version: String::from("0.2.74"),
        install_permitted,
        os: TargetOs::Linux,
        arch: TargetArch::Other,
    }
}

#[test]
fn supported_triples_are_nonempty() {
    let combos = [
        (TargetOs::Linux, "x86_64-unknown-linux-musl"),
        (TargetOs::MacOs, "x86_64-apple-darwin"),
        (TargetOs::Windows, "x86_64-pc-windows-msvc"),
    ];
    for (os, expected) in combos {
        let triple = prebuilt_triple(os, TargetArch::X86_64);
        assert_eq!(triple, Some(expected));
        assert!(!triple.unwrap().is_empty());
    }
}

#[test]
fn unsupported_platforms_have_no_triple() {
    assert_eq!(prebuilt_triple(TargetOs::Linux, TargetArch::Other), None);
    assert_eq!(prebuilt_triple(TargetOs::Other, TargetArch::X86_64), None);
    assert_eq!(prebuilt_triple(TargetOs::Other, TargetArch::Other), None);
    assert_eq!(prebuilt_url("0.2.74", TargetOs::MacOs, TargetArch::Other), None);
}

#[test]
fn prebuilt_url_is_deterministic() {
    let url = prebuilt_url("0.2.74", TargetOs::Linux, TargetArch::X86_64).unwrap();
    assert_eq!(url, LINUX_URL);
    let url = prebuilt_url("0.2.74", TargetOs::Windows, TargetArch::X86_64).unwrap();
    assert_eq!(
        url,
        "https://github.com/rustwasm/wasm-bindgen/releases/download/0.2.74/wasm-bindgen-0.2.74-x86_64-pc-windows-msvc.tar.gz"
    );
}

#[test]
fn version_check_takes_second_token() {
    assert!(wasm_bindgen_version_check("wasm-bindgen 0.2.74", "0.2.74"));
    assert!(wasm_bindgen_version_check("wasm-bindgen 0.2.74\n", "0.2.74"));
    assert!(wasm_bindgen_version_check("  wasm-bindgen   0.2.74  extra", "0.2.74"));
    assert!(wasm_bindgen_version_check("wasm-bindgen 0.2.74\r\n", "0.2.74"));
    assert!(wasm_bindgen_version_check("wasm-bindgén 0.2.74 münchen", "0.2.74"));
}

#[test]
fn version_check_rejects_mismatch() {
    assert!(!wasm_bindgen_version_check("wasm-bindgen 0.2.70", "0.2.74"));
    assert!(!wasm_bindgen_version_check("wasm-bindgen 0.2.74-beta", "0.2.74"));
    assert!(!wasm_bindgen_version_check("0.2.74 wasm-bindgen", "0.2.74"));
}

#[test]
fn version_check_rejects_malformed_output() {
    assert!(!wasm_bindgen_version_check("", "0.2.74"));
    assert!(!wasm_bindgen_version_check("   \n\t ", "0.2.74"));
    assert!(!wasm_bindgen_version_check("wasm-bindgen", "0.2.74"));
    assert!(!wasm_bindgen_version_check("  wasm-bindgen  ", "0.2.74"));
}

#[test]
fn expected_binaries_are_fixed() {
    let bins = expected_binaries();
    assert_eq!(bins.len(), 2);
    assert_eq!(bins[0], "wasm-bindgen");
    assert_eq!(bins[1], "wasm-bindgen-test-runner");
}

#[test]
fn dirnames_are_version_keyed() {
    assert_eq!(canonical_dirname("0.2.74"), "wasm-bindgen-cargo-install-0.2.74");
    assert_eq!(staging_dirname("0.2.74"), ".wasm-bindgen-cargo-install-0.2.74");
}

#[test]
fn pipeline_starts_with_global_search() {
    let (state, action) = acquire_start();
    assert!(matches!(state, AcquireState::SearchingGlobal));
    assert!(matches!(action, AcquireAction::SearchGlobal));
}

#[test]
fn matching_global_binary_is_reused() {
    let req = linux_request(false);
    let (state, action) = install_wasm_bindgen(
        &req,
        AcquireState::SearchingGlobal,
        AcquireEvent::GlobalFound {
            binary: String::from("/usr/bin/wasm-bindgen"),
            dir: String::from("/usr/bin"),
        },
    );
    match &action {
        AcquireAction::ProbeVersion { binary } => assert_eq!(binary, "/usr/bin/wasm-bindgen"),
        other => panic!("expected a version probe, got {:?}", action_name(other)),
    }
    let (_, action) = install_wasm_bindgen(
        &req,
        state,
        AcquireEvent::ProbeOutput { stdout: Some(String::from("wasm-bindgen 0.2.74")) },
    );
    match action {
        AcquireAction::Finish { outcome: AcquireOutcome::ReusedGlobal { dir } } => {
            assert_eq!(dir, "/usr/bin");
        },
        other => panic!("expected the global install to be reused, got {}", action_name(&other)),
    }
}

#[test]
fn mismatched_global_version_falls_through_to_download() {
    let req = linux_request(true);
    let (state, _) = install_wasm_bindgen(
        &req,
        AcquireState::SearchingGlobal,
        AcquireEvent::GlobalFound {
            binary: String::from("/usr/bin/wasm-bindgen"),
            dir: String::from("/usr/bin"),
        },
    );
    let (state, action) = install_wasm_bindgen(
        &req,
        state,
        AcquireEvent::ProbeOutput { stdout: Some(String::from("wasm-bindgen 0.2.40")) },
    );
    assert!(matches!(state, AcquireState::Downloading));
    match action {
        AcquireAction::Download { url, binaries, permitted } => {
            assert_eq!(url, LINUX_URL);
            assert_eq!(binaries, ["wasm-bindgen", "wasm-bindgen-test-runner"]);
            assert!(permitted);
        },
        other => panic!("expected a download, got {}", action_name(&other)),
    }
}

#[test]
fn failed_probe_falls_through_like_a_mismatch() {
    let req = linux_request(true);
    let (_, action) = install_wasm_bindgen(
        &req,
        AcquireState::ProbingGlobal { dir: String::from("/usr/bin") },
        AcquireEvent::ProbeOutput { stdout: None },
    );
    assert!(matches!(action, AcquireAction::Download { .. }));
}

#[test]
fn withheld_consent_with_nothing_cached_is_permission_denied() {
    let req = unsupported_request(false);
    let (state, action) = install_wasm_bindgen(
        &req,
        AcquireState::ProbingGlobal { dir: String::from("/usr/bin") },
        AcquireEvent::ProbeOutput { stdout: None },
    );
    // No prebuilt archive for this platform: no download is even attempted.
    match &action {
        AcquireAction::CheckCacheDir { dirname } => {
            assert_eq!(dirname, "wasm-bindgen-cargo-install-0.2.74");
        },
        other => panic!("expected a cache check, got {}", action_name(other)),
    }
    let (_, action) =
        install_wasm_bindgen(&req, state, AcquireEvent::CacheChecked { present: false });
    match action {
        AcquireAction::Finish { outcome: AcquireOutcome::Failed { error } } => {
            assert_eq!(error, AcquireError::PermissionDenied);
        },
        other => panic!("expected a terminal failure, got {}", action_name(&other)),
    }
}

#[test]
fn present_cache_entry_is_reused_without_consent() {
    let req = linux_request(false);
    let (_, action) = install_wasm_bindgen(
        &req,
        AcquireState::CheckingCache,
        AcquireEvent::CacheChecked { present: true },
    );
    match action {
        AcquireAction::Finish { outcome: AcquireOutcome::BuiltFromSource { dirname } } => {
            assert_eq!(dirname, "wasm-bindgen-cargo-install-0.2.74");
        },
        other => panic!("expected the cached install to be reused, got {}", action_name(&other)),
    }
}

#[test]
fn download_strategy_entry_skips_network_when_unsupported() {
    let req = unsupported_request(true);
    let (state, action) = download_prebuilt_wasm_bindgen(&req);
    assert!(matches!(state, AcquireState::CheckingCache));
    assert!(matches!(action, AcquireAction::CheckCacheDir { .. }));
}

#[test]
fn cargo_install_entry_checks_cache_first() {
    let req = linux_request(true);
    let (state, action) = cargo_install_wasm_bindgen(&req);
    assert!(matches!(state, AcquireState::CheckingCache));
    match action {
        AcquireAction::CheckCacheDir { dirname } => {
            assert_eq!(dirname, "wasm-bindgen-cargo-install-0.2.74");
        },
        other => panic!("expected a cache check, got {}", action_name(&other)),
    }
}

#[test]
fn successful_download_ends_the_pipeline() {
    // Required version 0.2.74, 64-bit Linux, no global binary, install
    // permitted, cache empty: the pipeline downloads the exact archive and
    // returns a handle to the extraction directory.
    let req = linux_request(true);
    let (state, action) = acquire_start();
    assert!(matches!(action, AcquireAction::SearchGlobal));
    let (state, action) = install_wasm_bindgen(&req, state, AcquireEvent::GlobalMissing);
    match &action {
        AcquireAction::Download { url, binaries, permitted } => {
            assert_eq!(url, LINUX_URL);
            assert_eq!(binaries, &["wasm-bindgen", "wasm-bindgen-test-runner"]);
            assert!(permitted);
        },
        other => panic!("expected a download, got {}", action_name(other)),
    }
    let (_, action) = install_wasm_bindgen(
        &req,
        state,
        AcquireEvent::DownloadFinished { dir: String::from("/cache/wasm-bindgen-0.2.74") },
    );
    match action {
        AcquireAction::Finish { outcome: AcquireOutcome::Downloaded { dir } } => {
            assert_eq!(dir, "/cache/wasm-bindgen-0.2.74");
        },
        other => panic!("expected the download handle, got {}", action_name(&other)),
    }
}

#[test]
fn failed_download_falls_back_to_source_install() {
    // Same inputs as a successful download, but the store reports a
    // failure: the pipeline builds from source in a staging directory and
    // promotes it onto the canonical one.
    let req = linux_request(true);
    let (state, _) = acquire_start();
    let (state, _) = install_wasm_bindgen(&req, state, AcquireEvent::GlobalMissing);
    let (state, action) = install_wasm_bindgen(&req, state, AcquireEvent::DownloadUnavailable);
    match &action {
        AcquireAction::CheckCacheDir { dirname } => {
            assert_eq!(dirname, "wasm-bindgen-cargo-install-0.2.74");
        },
        other => panic!("expected a cache check, got {}", action_name(other)),
    }
    let (state, action) =
        install_wasm_bindgen(&req, state, AcquireEvent::CacheChecked { present: false });
    match &action {
        AcquireAction::PrepareStaging { dirname } => {
            assert_eq!(dirname, ".wasm-bindgen-cargo-install-0.2.74");
        },
        other => panic!("expected the staging directory, got {}", action_name(other)),
    }
    let (state, action) =
        install_wasm_bindgen(&req, state, AcquireEvent::StagingPrepared { ok: true });
    match &action {
        AcquireAction::CargoInstall { version, dirname } => {
            assert_eq!(version, "0.2.74");
            assert_eq!(dirname, ".wasm-bindgen-cargo-install-0.2.74");
        },
        other => panic!("expected the package-manager install, got {}", action_name(other)),
    }
    let (state, action) =
        install_wasm_bindgen(&req, state, AcquireEvent::InstallFinished { ok: true });
    match &action {
        AcquireAction::Promote { from, to } => {
            assert_eq!(from, ".wasm-bindgen-cargo-install-0.2.74");
            assert_eq!(to, "wasm-bindgen-cargo-install-0.2.74");
        },
        other => panic!("expected the atomic rename, got {}", action_name(other)),
    }
    let (_, action) = install_wasm_bindgen(&req, state, AcquireEvent::PromoteFinished { ok: true });
    match action {
        AcquireAction::Finish { outcome: AcquireOutcome::BuiltFromSource { dirname } } => {
            assert_eq!(dirname, "wasm-bindgen-cargo-install-0.2.74");
        },
        other => panic!("expected the source-install handle, got {}", action_name(&other)),
    }
}

#[test]
fn source_install_subprocess_failure_is_terminal() {
    let req = linux_request(true);
    let (_, action) = install_wasm_bindgen(
        &req,
        AcquireState::Installing,
        AcquireEvent::InstallFinished { ok: false },
    );
    match action {
        AcquireAction::Finish { outcome: AcquireOutcome::Failed { error } } => {
            assert_eq!(error, AcquireError::SourceInstallFailed);
        },
        other => panic!("expected a terminal failure, got {}", action_name(&other)),
    }
}

#[test]
fn staging_and_promote_failures_are_terminal() {
    let req = linux_request(true);
    let (_, action) = install_wasm_bindgen(
        &req,
        AcquireState::PreparingStaging,
        AcquireEvent::StagingPrepared { ok: false },
    );
    assert!(matches!(
        action,
        AcquireAction::Finish {
            outcome: AcquireOutcome::Failed { error: AcquireError::SourceInstallFailed },
        }
    ));
    let (_, action) = install_wasm_bindgen(
        &req,
        AcquireState::Promoting,
        AcquireEvent::PromoteFinished { ok: false },
    );
    assert!(matches!(
        action,
        AcquireAction::Finish {
            outcome: AcquireOutcome::Failed { error: AcquireError::SourceInstallFailed },
        }
    ));
}

#[test]
fn rerun_after_source_install_returns_the_same_handle() {
    let req = linux_request(true);
    // First run, tail of the source install: the staging directory is
    // promoted onto the canonical one.
    let (state, action) = install_wasm_bindgen(
        &req,
        AcquireState::Installing,
        AcquireEvent::InstallFinished { ok: true },
    );
    let promoted_to = match action {
        AcquireAction::Promote { to, .. } => to,
        other => panic!("expected the atomic rename, got {}", action_name(&other)),
    };
    let (_, action) = install_wasm_bindgen(&req, state, AcquireEvent::PromoteFinished { ok: true });
    let first_handle = match action {
        AcquireAction::Finish { outcome: AcquireOutcome::BuiltFromSource { dirname } } => dirname,
        other => panic!("expected the source-install handle, got {}", action_name(&other)),
    };
    assert_eq!(first_handle, promoted_to);
    // Second run with the same inputs: the cache check now reports the
    // canonical directory present, and the same handle comes back without
    // any download or install action.
    let (state, _) = acquire_start();
    let (state, _) = install_wasm_bindgen(&req, state, AcquireEvent::GlobalMissing);
    let (state, _) = install_wasm_bindgen(&req, state, AcquireEvent::DownloadUnavailable);
    let (_, action) =
        install_wasm_bindgen(&req, state, AcquireEvent::CacheChecked { present: true });
    match action {
        AcquireAction::Finish { outcome: AcquireOutcome::BuiltFromSource { dirname } } => {
            assert_eq!(dirname, first_handle);
        },
        other => panic!("expected the cached handle, got {}", action_name(&other)),
    }
}

fn action_name(action: &AcquireAction) -> &'static str {
    match action {
        AcquireAction::SearchGlobal => "SearchGlobal",
        AcquireAction::ProbeVersion { .. } => "ProbeVersion",
        AcquireAction::Download { .. } => "Download",
        AcquireAction::CheckCacheDir { .. } => "CheckCacheDir",
        AcquireAction::PrepareStaging { .. } => "PrepareStaging",
        AcquireAction::CargoInstall { .. } => "CargoInstall",
        AcquireAction::Promote { .. } => "Promote",
        AcquireAction::Finish { .. } => "Finish",
    }
}
