//! The multi-strategy acquisition pipeline for the `wasm-bindgen` tool.
//!
//! Three strategies are tried in order until one yields an installation
//! handle: reuse of a global binary found on the executable search path,
//! download of a prebuilt per-platform archive into the cache, and a
//! source build through the package manager promoted into the cache by an
//! atomic rename. A strategy's failure falls through to the next; past the
//! source install there is nothing left to try and failure is terminal.
//!
//! The pipeline is a state machine. [`install_wasm_bindgen`] consumes the
//! outcome of the previous outside operation (an [`AcquireEvent`]) and
//! decides the next one (an [`AcquireAction`]); the caller performs the
//! operation — the search, the version probe, the download, the
//! filesystem work — and feeds the outcome back, until the action is
//! [`AcquireAction::Finish`]. Every decision, and the order of the
//! strategies, is thereby verified, while the I/O stays with the caller.

use crate::platform::{TargetArch, TargetOs, prebuilt_url, spec_prebuilt_url, spec_triple,
    supported_platform};
use crate::probe::{spec_version_matches, wasm_bindgen_version_check};
use vstd::prelude::*;
use vstd::string::*;

verus! {

/// What a caller asks of the pipeline: an exact version, whether network
/// and compute work is permitted, and the host platform.
pub struct AcquireRequest {
    pub version: String,
    pub install_permitted: bool,
    pub os: TargetOs,
    pub arch: TargetArch,
}

/// The terminal failures of the pipeline. Strategy-local failures are
/// absorbed by falling through to the next strategy and never appear here.
#[derive(Clone, Copy, PartialEq, Eq, Structural, Debug)]
pub enum AcquireError {
    /// Nothing is cached and installing was not permitted.
    PermissionDenied,
    /// The source install failed: staging, the package-manager run, or the
    /// final rename.
    SourceInstallFailed,
}

/// How the pipeline ended. Exactly one strategy outcome is returned per
/// run.
pub enum AcquireOutcome {
    /// A matching global install is reused where it stands; its directory
    /// is not managed by the cache.
    ReusedGlobal { dir: String },
    /// A prebuilt archive was downloaded and extracted; `dir` is the
    /// extraction directory inside the cache.
    Downloaded { dir: String },
    /// A source install stands at the canonical, version-keyed cache
    /// subdirectory `dirname`.
    BuiltFromSource { dirname: String },
    /// Every strategy was exhausted.
    Failed { error: AcquireError },
}

/// Where the pipeline stands between two operations.
pub enum AcquireState {
    /// The executable search path is being searched for a global binary.
    SearchingGlobal,
    /// A global binary was found in `dir` and its version is being probed.
    ProbingGlobal { dir: String },
    /// The prebuilt archive is being downloaded.
    Downloading,
    /// The canonical source-install directory is being checked for.
    CheckingCache,
    /// The staging directory is being cleared and recreated.
    PreparingStaging,
    /// The package manager is installing into the staging directory.
    Installing,
    /// The staging directory is being renamed to the canonical one.
    Promoting,
    /// The pipeline has finished.
    Done,
}

/// The outcome of the operation the pipeline asked for last.
pub enum AcquireEvent {
    /// The search found a binary: its full path, and the directory that
    /// contains it.
    GlobalFound { binary: String, dir: String },
    /// The search found no binary.
    GlobalMissing,
    /// The probe ran: the captured standard output, or `None` where the
    /// subprocess could not be run or exited nonzero.
    ProbeOutput { stdout: Option<String> },
    /// The download-and-extract succeeded into `dir`.
    DownloadFinished { dir: String },
    /// The download failed or the store refused it; the reason is
    /// absorbed.
    DownloadUnavailable,
    /// Whether the canonical cache directory exists.
    CacheChecked { present: bool },
    /// Whether the staging directory could be cleared and recreated.
    StagingPrepared { ok: bool },
    /// Whether the package-manager install exited successfully.
    InstallFinished { ok: bool },
    /// Whether the rename to the canonical directory succeeded.
    PromoteFinished { ok: bool },
}

/// The next operation the caller must perform for the pipeline.
pub enum AcquireAction {
    /// Search the executable search path for the tool's binary name.
    SearchGlobal,
    /// Run `binary` with the version flag and capture its output.
    ProbeVersion { binary: String },
    /// Ask the cache store for a download-and-extract of `binaries` from
    /// `url`, gated by `permitted`.
    Download { url: String, binaries: Vec<String>, permitted: bool },
    /// Check whether the version-keyed cache subdirectory exists.
    CheckCacheDir { dirname: String },
    /// Remove any stale staging subdirectory of that name and recreate it
    /// empty.
    PrepareStaging { dirname: String },
    /// Run the package manager to install the exact `version` into the
    /// staging subdirectory.
    CargoInstall { version: String, dirname: String },
    /// Atomically rename the staging subdirectory onto the canonical one.
    Promote { from: String, to: String },
    /// The pipeline is done; nothing more is to be performed.
    Finish { outcome: AcquireOutcome },
}

/// The canonical, version-keyed cache subdirectory of a source install.
pub open spec fn spec_canonical_dirname(version: Seq<char>) -> Seq<char> {
    "wasm-bindgen-cargo-install-"@ + version
}

/// The staging subdirectory a source install is built in before the
/// atomic rename: the canonical name behind a hidden prefix.
pub open spec fn spec_staging_dirname(version: Seq<char>) -> Seq<char> {
    "."@ + spec_canonical_dirname(version)
}

/// The fixed binary names a prebuilt archive is expected to contain.
pub open spec fn spec_expected_binaries() -> Seq<Seq<char>> {
    seq!["wasm-bindgen"@, "wasm-bindgen-test-runner"@]
}

/// Whether a probe outcome reports the required version: the probe ran,
/// and the second whitespace token of its output equals the version.
pub open spec fn spec_probe_matches(stdout: Option<String>, required: Seq<char>) -> bool {
    stdout matches Some(out) && spec_version_matches(out@, required)
}

/// The step into the prebuilt-download strategy: on a supported platform
/// the pipeline asks for the download of the versioned archive, gated by
/// the consent flag; on an unsupported one it asks for no network
/// operation at all and moves on to the source-install strategy.
pub open spec fn download_step(req: AcquireRequest, r: (AcquireState, AcquireAction)) -> bool {
    if supported_platform(req.os, req.arch) {
        &&& r.0 is Downloading
        &&& r.1 matches AcquireAction::Download { url, binaries, permitted }
        &&& url@ == spec_prebuilt_url(req.version@, spec_triple(req.os, req.arch))
        &&& binaries.deep_view() == spec_expected_binaries()
        &&& permitted == req.install_permitted
    } else {
        cache_check_step(req, r)
    }
}

/// The step into the source-install strategy: the pipeline asks whether
/// the canonical cache directory for the version already exists.
pub open spec fn cache_check_step(req: AcquireRequest, r: (AcquireState, AcquireAction)) -> bool {
    &&& r.0 is CheckingCache
    &&& r.1 matches AcquireAction::CheckCacheDir { dirname } && dirname@ == spec_canonical_dirname(
        req.version@,
    )
}

/// The pipeline finishes with a handle to the canonical source-install
/// directory of the required version.
pub open spec fn built_finish(req: AcquireRequest, r: (AcquireState, AcquireAction)) -> bool {
    &&& r.0 is Done
    &&& r.1 matches AcquireAction::Finish {
        outcome: AcquireOutcome::BuiltFromSource { dirname },
    } && dirname@ == spec_canonical_dirname(req.version@)
}

/// The pipeline finishes with the given terminal error.
pub open spec fn failed_finish(r: (AcquireState, AcquireAction), error: AcquireError) -> bool {
    &&& r.0 is Done
    &&& r.1 matches AcquireAction::Finish { outcome: AcquireOutcome::Failed { error: e } } && e
        == error
}

/// Which events can answer which states.
pub open spec fn event_fits(state: AcquireState, event: AcquireEvent) -> bool {
    match (state, event) {
        (AcquireState::SearchingGlobal, AcquireEvent::GlobalFound { .. }) => true,
        (AcquireState::SearchingGlobal, AcquireEvent::GlobalMissing) => true,
        (AcquireState::ProbingGlobal { .. }, AcquireEvent::ProbeOutput { .. }) => true,
        (AcquireState::Downloading, AcquireEvent::DownloadFinished { .. }) => true,
        (AcquireState::Downloading, AcquireEvent::DownloadUnavailable) => true,
        (AcquireState::CheckingCache, AcquireEvent::CacheChecked { .. }) => true,
        (AcquireState::PreparingStaging, AcquireEvent::StagingPrepared { .. }) => true,
        (AcquireState::Installing, AcquireEvent::InstallFinished { .. }) => true,
        (AcquireState::Promoting, AcquireEvent::PromoteFinished { .. }) => true,
        _ => false,
    }
}

/// The transition relation of the pipeline: what the step taken from
/// `state` on `event` must decide.
pub open spec fn step_spec(
    req: AcquireRequest,
    state: AcquireState,
    event: AcquireEvent,
    r: (AcquireState, AcquireAction),
) -> bool {
    match (state, event) {
        (AcquireState::SearchingGlobal, AcquireEvent::GlobalFound { binary, dir }) => {
            &&& r.0 matches AcquireState::ProbingGlobal { dir: d } && d@ == dir@
            &&& r.1 matches AcquireAction::ProbeVersion { binary: b } && b@ == binary@
        },
        (AcquireState::SearchingGlobal, AcquireEvent::GlobalMissing) => download_step(req, r),
        (AcquireState::ProbingGlobal { dir }, AcquireEvent::ProbeOutput { stdout }) => {
            if spec_probe_matches(stdout, req.version@) {
                &&& r.0 is Done
                &&& r.1 matches AcquireAction::Finish {
                    outcome: AcquireOutcome::ReusedGlobal { dir: d },
                } && d@ == dir@
            } else {
                download_step(req, r)
            }
        },
        (AcquireState::Downloading, AcquireEvent::DownloadFinished { dir }) => {
            &&& r.0 is Done
            &&& r.1 matches AcquireAction::Finish {
                outcome: AcquireOutcome::Downloaded { dir: d },
            } && d@ == dir@
        },
        (AcquireState::Downloading, AcquireEvent::DownloadUnavailable) => cache_check_step(req, r),
        (AcquireState::CheckingCache, AcquireEvent::CacheChecked { present }) => {
            if present {
                built_finish(req, r)
            } else if !req.install_permitted {
                failed_finish(r, AcquireError::PermissionDenied)
            } else {
                &&& r.0 is PreparingStaging
                &&& r.1 matches AcquireAction::PrepareStaging { dirname } && dirname@
                    == spec_staging_dirname(req.version@)
            }
        },
        (AcquireState::PreparingStaging, AcquireEvent::StagingPrepared { ok }) => {
            if ok {
                &&& r.0 is Installing
                &&& r.1 matches AcquireAction::CargoInstall { version, dirname } && version@
                    == req.version@ && dirname@ == spec_staging_dirname(req.version@)
            } else {
                failed_finish(r, AcquireError::SourceInstallFailed)
            }
        },
        (AcquireState::Installing, AcquireEvent::InstallFinished { ok }) => {
            if ok {
                &&& r.0 is Promoting
                &&& r.1 matches AcquireAction::Promote { from, to } && from@
                    == spec_staging_dirname(req.version@) && to@ == spec_canonical_dirname(
                    req.version@,
                )
            } else {
                failed_finish(r, AcquireError::SourceInstallFailed)
            }
        },
        (AcquireState::Promoting, AcquireEvent::PromoteFinished { ok }) => {
            if ok {
                built_finish(req, r)
            } else {
                failed_finish(r, AcquireError::SourceInstallFailed)
            }
        },
        _ => false,
    }
}

/// Begin the pipeline: the first operation is always the search for a
/// global binary on the executable search path.
pub fn acquire_start() -> (r: (AcquireState, AcquireAction))
    ensures
        r.0 is SearchingGlobal,
        r.1 is SearchGlobal,
{
    (AcquireState::SearchingGlobal, AcquireAction::SearchGlobal)
}

/// The canonical cache subdirectory name for a source install of
/// `version`.
pub fn canonical_dirname(version: &str) -> (r: String)
    ensures
        r@ == spec_canonical_dirname(version@),
{
    let mut d = "wasm-bindgen-cargo-install-".to_owned();
    d.append(version);
    d
}

/// The staging subdirectory name for a source install of `version`.
pub fn staging_dirname(version: &str) -> (r: String)
    ensures
        r@ == spec_staging_dirname(version@),
{
    let mut d = ".".to_owned();
    let c = canonical_dirname(version);
    d.append(c.as_str());
    d
}

/// The fixed binary names expected inside a prebuilt archive.
pub fn expected_binaries() -> (r: Vec<String>)
    ensures
        r.deep_view() == spec_expected_binaries(),
{
    let mut v: Vec<String> = Vec::new();
    v.push("wasm-bindgen".to_owned());
    v.push("wasm-bindgen-test-runner".to_owned());
    proof {
        assert(v.deep_view() =~= spec_expected_binaries());
    }
    v
}

/// Enter the prebuilt-download strategy. On a supported platform the next
/// operation downloads the versioned archive from the fixed releases URL,
/// gated by the consent flag; on an unsupported platform the strategy is
/// skipped — no network operation is asked for — and the source-install
/// strategy's cache check is next.
pub fn download_prebuilt_wasm_bindgen(req: &AcquireRequest) -> (r: (AcquireState, AcquireAction))
    ensures
        download_step(*req, r),
{
    match prebuilt_url(req.version.as_str(), req.os, req.arch) {
        Some(url) => (
            AcquireState::Downloading,
            AcquireAction::Download {
                url,
                binaries: expected_binaries(),
                permitted: req.install_permitted,
            },
        ),
        None => cargo_install_wasm_bindgen(req),
    }
}

/// Enter the source-install strategy: the next operation checks whether
/// the canonical cache directory for this version already exists, so that
/// a finished install is reused and never rebuilt.
pub fn cargo_install_wasm_bindgen(req: &AcquireRequest) -> (r: (AcquireState, AcquireAction))
    ensures
        cache_check_step(*req, r),
{
    (
        AcquireState::CheckingCache,
        AcquireAction::CheckCacheDir { dirname: canonical_dirname(req.version.as_str()) },
    )
}

/// Advance the acquisition pipeline by one step: consume the outcome of
/// the operation asked for last and decide the next one. The strategies
/// are tried in order — global reuse, prebuilt download, source install —
/// the first success finishes the pipeline, a strategy's failure falls
/// through to the next, and past the source install any failure is
/// terminal.
pub fn install_wasm_bindgen(
    req: &AcquireRequest,
    state: AcquireState,
    event: AcquireEvent,
) -> (r: (AcquireState, AcquireAction))
    requires
        event_fits(state, event),
    ensures
        step_spec(*req, state, event, r),
{
    match (state, event) {
        (AcquireState::SearchingGlobal, AcquireEvent::GlobalFound { binary, dir }) => (
            AcquireState::ProbingGlobal { dir },
            AcquireAction::ProbeVersion { binary },
        ),
        (AcquireState::SearchingGlobal, AcquireEvent::GlobalMissing) => {
            download_prebuilt_wasm_bindgen(req)
        },
        (AcquireState::ProbingGlobal { dir }, AcquireEvent::ProbeOutput { stdout }) => {
            let version_ok = match &stdout {
                Some(out) => wasm_bindgen_version_check(out.as_str(), req.version.as_str()),
                None => false,
            };
            if version_ok {
                (
                    AcquireState::Done,
                    AcquireAction::Finish { outcome: AcquireOutcome::ReusedGlobal { dir } },
                )
            } else {
                download_prebuilt_wasm_bindgen(req)
            }
        },
        (AcquireState::Downloading, AcquireEvent::DownloadFinished { dir }) => (
            AcquireState::Done,
            AcquireAction::Finish { outcome: AcquireOutcome::Downloaded { dir } },
        ),
        (AcquireState::Downloading, AcquireEvent::DownloadUnavailable) => {
            cargo_install_wasm_bindgen(req)
        },
        (AcquireState::CheckingCache, AcquireEvent::CacheChecked { present }) => {
            if present {
                (
                    AcquireState::Done,
                    AcquireAction::Finish {
                        outcome: AcquireOutcome::BuiltFromSource {
                            dirname: canonical_dirname(req.version.as_str()),
                        },
                    },
                )
            } else if !req.install_permitted {
                (
                    AcquireState::Done,
                    AcquireAction::Finish {
                        outcome: AcquireOutcome::Failed { error: AcquireError::PermissionDenied },
                    },
                )
            } else {
                (
                    AcquireState::PreparingStaging,
                    AcquireAction::PrepareStaging {
                        dirname: staging_dirname(req.version.as_str()),
                    },
                )
            }
        },
        (AcquireState::PreparingStaging, AcquireEvent::StagingPrepared { ok }) => {
            if ok {
                (
                    AcquireState::Installing,
                    AcquireAction::CargoInstall {
                        version: req.version.clone(),
                        dirname: staging_dirname(req.version.as_str()),
                    },
                )
            } else {
                (
                    AcquireState::Done,
                    AcquireAction::Finish {
                        outcome: AcquireOutcome::Failed {
                            error: AcquireError::SourceInstallFailed,
                        },
                    },
                )
            }
        },
        (AcquireState::Installing, AcquireEvent::InstallFinished { ok }) => {
            if ok {
                (
                    AcquireState::Promoting,
                    AcquireAction::Promote {
                        from: staging_dirname(req.version.as_str()),
                        to: canonical_dirname(req.version.as_str()),
                    },
                )
            } else {
                (
                    AcquireState::Done,
                    AcquireAction::Finish {
                        outcome: AcquireOutcome::Failed {
                            error: AcquireError::SourceInstallFailed,
                        },
                    },
                )
            }
        },
        (AcquireState::Promoting, AcquireEvent::PromoteFinished { ok }) => {
            if ok {
                (
                    AcquireState::Done,
                    AcquireAction::Finish {
                        outcome: AcquireOutcome::BuiltFromSource {
                            dirname: canonical_dirname(req.version.as_str()),
                        },
                    },
                )
            } else {
                (
                    AcquireState::Done,
                    AcquireAction::Finish {
                        outcome: AcquireOutcome::Failed {
                            error: AcquireError::SourceInstallFailed,
                        },
                    },
                )
            }
        },
        _ => {
            proof {
                assert(false);
            }
            (AcquireState::Done, AcquireAction::SearchGlobal)
        },
    }
}

/// A whole run of the pipeline: `states[i]` is the state before step `i`,
/// which consumes `events[i]` and emits `actions[i]`, ending in
/// `states[i + 1]`; the run begins at the global search. Nothing here
/// forces the run to be complete: every law over runs holds of every
/// prefix as well.
pub open spec fn valid_run(
    req: AcquireRequest,
    states: Seq<AcquireState>,
    events: Seq<AcquireEvent>,
    actions: Seq<AcquireAction>,
) -> bool {
    &&& states.len() == events.len() + 1
    &&& actions.len() == events.len()
    &&& states[0] is SearchingGlobal
    &&& forall|i: int|
        0 <= i < events.len() ==> event_fits(states[i], #[trigger] events[i]) && step_spec(
            req,
            states[i],
            events[i],
            (states[i + 1], actions[i]),
        )
}

/// The staging half of the machine has a single way in: the step that
/// sees the canonical cache directory absent while installing is
/// permitted. A run in which that step never happens never stages,
/// installs or promotes.
proof fn lemma_staging_has_one_gateway(
    req: AcquireRequest,
    states: Seq<AcquireState>,
    events: Seq<AcquireEvent>,
    actions: Seq<AcquireAction>,
    i: int,
)
    requires
        valid_run(req, states, events, actions),
        !req.install_permitted || forall|j: int|
            0 <= j < events.len() ==> !(#[trigger] events[j] matches AcquireEvent::CacheChecked {
                present: false,
            }),
        0 <= i < states.len(),
    ensures
        !(states[i] is PreparingStaging) && !(states[i] is Installing) && !(states[i]
            is Promoting),
    decreases i,
{
    if i > 0 {
        lemma_staging_has_one_gateway(req, states, events, actions, i - 1);
        assert(event_fits(states[i - 1], events[i - 1]) && step_spec(
            req,
            states[i - 1],
            events[i - 1],
            (states[i], actions[i - 1]),
        ));
    }
}

/// On an unsupported platform the download stage is never entered: the
/// only steps into it go through the platform match.
proof fn lemma_unsupported_never_reaches_downloading(
    req: AcquireRequest,
    states: Seq<AcquireState>,
    events: Seq<AcquireEvent>,
    actions: Seq<AcquireAction>,
    i: int,
)
    requires
        valid_run(req, states, events, actions),
        !supported_platform(req.os, req.arch),
        0 <= i < states.len(),
    ensures
        !(states[i] is Downloading),
    decreases i,
{
    if i > 0 {
        lemma_unsupported_never_reaches_downloading(req, states, events, actions, i - 1);
        assert(event_fits(states[i - 1], events[i - 1]) && step_spec(
            req,
            states[i - 1],
            events[i - 1],
            (states[i], actions[i - 1]),
        ));
    }
}

/// On an unsupported platform a run of the pipeline never asks for a
/// download, at no step: the absence of a platform triple short-circuits
/// the download strategy before any network operation.
pub proof fn lemma_unsupported_run_never_downloads(
    req: AcquireRequest,
    states: Seq<AcquireState>,
    events: Seq<AcquireEvent>,
    actions: Seq<AcquireAction>,
)
    requires
        valid_run(req, states, events, actions),
        !supported_platform(req.os, req.arch),
    ensures
        forall|i: int| 0 <= i < actions.len() ==> !(#[trigger] actions[i] is Download),
{
    assert forall|i: int| 0 <= i < actions.len() implies !(#[trigger] actions[i]
        is Download) by {
        assert(event_fits(states[i], events[i]) && step_spec(
            req,
            states[i],
            events[i],
            (states[i + 1], actions[i]),
        ));
    }
}

/// Withheld consent is terminal where nothing helps out: over a whole run
/// on an unsupported platform in which every probe mismatches and every
/// cache check finds nothing, the pipeline asks only for the version
/// probe, the cache check and nothing else — no download, no
/// package-manager run, no staging — and every way it can finish is the
/// `PermissionDenied` failure.
pub proof fn lemma_run_without_consent_is_refused(
    req: AcquireRequest,
    states: Seq<AcquireState>,
    events: Seq<AcquireEvent>,
    actions: Seq<AcquireAction>,
)
    requires
        valid_run(req, states, events, actions),
        !req.install_permitted,
        !supported_platform(req.os, req.arch),
        forall|j: int|
            0 <= j < events.len() ==> (#[trigger] events[j] matches AcquireEvent::ProbeOutput {
                stdout,
            } ==> !spec_probe_matches(stdout, req.version@)),
        forall|j: int|
            0 <= j < events.len() ==> (#[trigger] events[j] matches AcquireEvent::CacheChecked {
                present,
            } ==> !present),
    ensures
        forall|i: int|
            0 <= i < actions.len() ==> (#[trigger] actions[i] is ProbeVersion || actions[i]
                is CheckCacheDir || actions[i] is Finish),
        forall|i: int|
            0 <= i < actions.len() ==> (#[trigger] actions[i] matches AcquireAction::Finish {
                outcome,
            } ==> outcome matches AcquireOutcome::Failed {
                error: AcquireError::PermissionDenied,
            }),
{
    assert forall|i: int| 0 <= i < actions.len() implies (#[trigger] actions[i] is ProbeVersion
        || actions[i] is CheckCacheDir || actions[i] is Finish) && (actions[i]
        matches AcquireAction::Finish { outcome } ==> outcome matches AcquireOutcome::Failed {
        error: AcquireError::PermissionDenied,
    }) by {
        lemma_staging_has_one_gateway(req, states, events, actions, i);
        lemma_unsupported_never_reaches_downloading(req, states, events, actions, i);
        assert(event_fits(states[i], events[i]) && step_spec(
            req,
            states[i],
            events[i],
            (states[i + 1], actions[i]),
        ));
    }
}

/// Once the canonical directory stands in the cache, every later run is
/// read-only towards it: a run in which every cache check finds the
/// directory present never stages, never runs the package manager and
/// never renames, and every handle it hands out of the source-install
/// strategy names that same canonical directory.
pub proof fn lemma_rerun_with_cache_present_rebuilds_nothing(
    req: AcquireRequest,
    states: Seq<AcquireState>,
    events: Seq<AcquireEvent>,
    actions: Seq<AcquireAction>,
)
    requires
        valid_run(req, states, events, actions),
        forall|j: int|
            0 <= j < events.len() ==> (#[trigger] events[j] matches AcquireEvent::CacheChecked {
                present,
            } ==> present),
    ensures
        forall|i: int|
            0 <= i < actions.len() ==> !(#[trigger] actions[i] is PrepareStaging) && !(actions[i]
                is CargoInstall) && !(actions[i] is Promote),
        forall|i: int|
            0 <= i < actions.len() ==> (#[trigger] actions[i] matches AcquireAction::Finish {
                outcome: AcquireOutcome::BuiltFromSource { dirname },
            } ==> dirname@ == spec_canonical_dirname(req.version@)),
{
    assert forall|i: int| 0 <= i < actions.len() implies !(#[trigger] actions[i]
        is PrepareStaging) && !(actions[i] is CargoInstall) && !(actions[i] is Promote) && (
    actions[i] matches AcquireAction::Finish {
        outcome: AcquireOutcome::BuiltFromSource { dirname },
    } ==> dirname@ == spec_canonical_dirname(req.version@)) by {
        lemma_staging_has_one_gateway(req, states, events, actions, i);
        assert(event_fits(states[i], events[i]) && step_spec(
            req,
            states[i],
            events[i],
            (states[i + 1], actions[i]),
        ));
    }
}

/// A global binary whose probe does not report the required version never
/// ends the pipeline: the step after the probe proceeds to the
/// prebuilt-download strategy — on a supported platform it asks for the
/// download, on an unsupported one for the source-install cache check —
/// it does not finish.
pub proof fn lemma_version_mismatch_falls_through(
    req: AcquireRequest,
    dir: String,
    stdout: Option<String>,
    r: (AcquireState, AcquireAction),
)
    requires
        !spec_probe_matches(stdout, req.version@),
        step_spec(
            req,
            AcquireState::ProbingGlobal { dir },
            AcquireEvent::ProbeOutput { stdout },
            r,
        ),
    ensures
        !(r.1 is Finish),
        download_step(req, r),
        supported_platform(req.os, req.arch) ==> r.1 is Download,
{
}

/// A canonical cache directory already present for the required version
/// is reused as it stands: the pipeline finishes with a handle to it and
/// never asks for the package manager, whatever the consent flag says.
pub proof fn lemma_present_cache_entry_reused(
    req: AcquireRequest,
    r: (AcquireState, AcquireAction),
)
    requires
        step_spec(req, AcquireState::CheckingCache, AcquireEvent::CacheChecked { present: true }, r),
    ensures
        built_finish(req, r),
        !(r.1 is CargoInstall) && !(r.1 is PrepareStaging) && !(r.1 is Download),
{
}

/// Acquisition through a source install is idempotent: a successful
/// install is promoted onto exactly the canonical directory whose
/// presence a later run's cache check reports, so the later run hands
/// back the same handle without downloading, staging or building again.
pub proof fn lemma_source_install_idempotent(
    req: AcquireRequest,
    install_step: (AcquireState, AcquireAction),
    rerun_step: (AcquireState, AcquireAction),
)
    requires
        step_spec(
            req,
            AcquireState::Installing,
            AcquireEvent::InstallFinished { ok: true },
            install_step,
        ),
        step_spec(
            req,
            AcquireState::CheckingCache,
            AcquireEvent::CacheChecked { present: true },
            rerun_step,
        ),
    ensures
        install_step.1 matches AcquireAction::Promote { from, to } && to@
            == spec_canonical_dirname(req.version@),
        rerun_step.1 matches AcquireAction::Finish {
            outcome: AcquireOutcome::BuiltFromSource { dirname },
        } && dirname@ == spec_canonical_dirname(req.version@),
        !(rerun_step.1 is Download) && !(rerun_step.1 is CargoInstall) && !(rerun_step.1
            is PrepareStaging),
{
}

} // verus!
