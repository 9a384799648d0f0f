//! The publish run, as a state machine. The run decides; an unverified
//! runner performs each returned [`Action`] (network fetches, git
//! operations, external tools, waiting) and hands back the outcome as an
//! [`Event`]. Every phase failure is fatal and non-resumable; only a
//! failed propagation probe is retried, until a shared deadline that
//! starts when probing starts.

use crate::bytes::{copy_bytes, lit, lit_bytes};
use crate::digest::{digest, digest_of};
use crate::errors::PublishError;
use crate::gzip::{gzip_named, gzip_of};
use crate::manifest::{
    arch_name, arch_names, archive_url, archive_url_of, commit_message, commit_message_of,
    deb_download_url, deb_download_url_of, formula_vars, formula_vars_of, propagation_url,
    propagation_url_of, ARCH_COUNT,
};
use crate::template::{mustache_accepts, mustache_render, plain_tags, CompiledTemplate};
use crate::version::{semver_canon, stripped_v, ReleaseVersion};
use vstd::prelude::*;

verus! {

/// Seconds between two propagation probes of one target.
pub const PROBE_INTERVAL_SECS: u64 = 5;

/// The shared propagation deadline in seconds, started once when probing
/// starts.
pub const PROPAGATION_DEADLINE_SECS: u64 = 2000;

/// The remote URL of the tap repository.
pub open spec fn tap_repo_url() -> Seq<u8> {
    lit("https://github.com/exogress/homebrew-brew.git")
}

/// The path of the formula file inside the tap repository.
pub open spec fn tap_formula_path() -> Seq<u8> {
    lit("exogress.rb")
}

/// Where a publish run stands: each phase awaits the outcome of one
/// action the runner performs.
#[derive(Clone, Copy, Debug, PartialEq, Eq, Structural)]
pub enum Phase {
    /// Awaiting the source-archive bytes.
    FetchingArchive,
    /// Awaiting the tap-repository clone.
    OpeningTap,
    /// Awaiting the staged write of the rendered formula.
    WritingTap,
    /// Awaiting the tap commit.
    CommittingTap,
    /// Awaiting the tap push.
    PushingTap,
    /// Awaiting the package bytes of one architecture.
    FetchingPackage,
    /// Awaiting the staging of one fetched package.
    StagingPackage,
    /// Awaiting the package-index generator.
    GeneratingIndex,
    /// Awaiting the staging of the `Packages` blob.
    StagingPackagesIndex,
    /// Awaiting the staging of the `Packages.gz` blob.
    StagingPackagesGz,
    /// Awaiting the release-metadata generator.
    GeneratingRelease,
    /// Awaiting the staging of the `Release` blob.
    StagingRelease,
    /// Awaiting the detached-signature tool.
    SigningDetached,
    /// Awaiting the staging of the `Release.gpg` blob.
    StagingReleaseGpg,
    /// Awaiting the clear-sign tool.
    SigningClear,
    /// Awaiting the staging of the `InRelease` blob.
    StagingInRelease,
    /// Awaiting the push of the index surface.
    PushingIndex,
    /// Awaiting a propagation probe of one target.
    Probing,
    /// Awaiting the probe-interval wait.
    WaitingRetry,
    /// Every phase completed; the run succeeded.
    Done,
    /// A fatal failure ended the run.
    Failed,
}

/// The outcome of one performed action, reported by the runner.
#[derive(Debug)]
pub enum Event {
    /// Fetched bytes arrived with a success status.
    FetchSucceeded(Vec<u8>),
    /// The fetch errored or the response status was not a success.
    FetchFailed,
    /// The working copy stands.
    CloneSucceeded,
    /// The clone failed: unreachable remote or rejected authentication.
    CloneFailed,
    /// The file was written and staged.
    WriteSucceeded,
    /// Writing the file failed.
    WriteIoFailed,
    /// Staging the written file into the index failed.
    WriteIndexFailed,
    /// The commit was recorded.
    CommitSucceeded,
    /// The working copy holds no commit to grow from.
    CommitNoParent,
    /// The push was accepted.
    PushSucceeded,
    /// The push was rejected for authentication reasons.
    PushAuthRejected,
    /// The push was rejected as not fast-forward.
    PushNonFastForward,
    /// The blob was stored in the repository surface.
    PutSucceeded,
    /// Storing the blob failed.
    PutFailed,
    /// The external tool exited zero; its captured standard output.
    ToolSucceeded(Vec<u8>),
    /// The external tool exited non-zero, or signalled failure on its
    /// error stream.
    ToolFailed,
    /// The probed target is reachable.
    ProbeSucceeded,
    /// The probed target is not reachable yet.
    ProbeFailed,
    /// The probe-interval wait elapsed.
    WaitElapsed,
}

/// What the runner must perform next.
#[derive(Debug)]
pub enum Action {
    /// Fetch this URL over HTTP; any non-success status is a failure.
    Fetch(Vec<u8>),
    /// Clone the tap repository at this URL into a fresh working copy.
    CloneTap(Vec<u8>),
    /// Write this file at this path in the tap working copy and stage it.
    WriteTapFile(Vec<u8>, Vec<u8>),
    /// Commit the tap stage with this message, under the bot identity.
    CommitTap(Vec<u8>),
    /// Push the tap branch, authenticating with this credential.
    PushTap(Vec<u8>),
    /// Store this blob under this name in the repository surface.
    Put(Vec<u8>, Vec<u8>),
    /// Run the package-index generator over the surface; its standard
    /// output is the produced artifact.
    RunPackagesTool,
    /// Run the release-metadata generator over the surface.
    RunReleaseTool,
    /// Produce a detached signature over exactly these bytes with this
    /// signing key.
    SignDetached(Vec<u8>, Vec<u8>),
    /// Clear-sign exactly these bytes with this signing key.
    SignClear(Vec<u8>, Vec<u8>),
    /// Push the repository surface, authenticating with this credential.
    PushIndexSurface(Vec<u8>),
    /// Probe this URL with a lightweight existence request.
    Probe(Vec<u8>),
    /// Wait this many seconds.
    Wait(u64),
    /// The run succeeded; nothing is left to perform.
    Conclude,
    /// The run failed fatally; report the failure and exit non-zero.
    Abort(PublishError),
    /// The event does not belong to the current phase; nothing changed.
    Ignored,
}

/// The mathematical state of a publish run.
pub ghost struct RunView {
    /// Where the run stands.
    pub phase: Phase,
    /// The parsed release version.
    pub version: ReleaseVersion,
    /// The operator's commit-message suffix.
    pub message: Seq<u8>,
    /// The push credential.
    pub token: Seq<u8>,
    /// The signing-key identifier handed to the signing tools.
    pub signing_key: Seq<u8>,
    /// The source text of the tap-formula template.
    pub formula_template: Seq<u8>,
    /// The hex digest of the source archive, once computed.
    pub archive_digest: Option<Seq<u8>>,
    /// The rendered tap formula, once rendered.
    pub formula: Option<Seq<u8>>,
    /// Which architecture is being fetched, staged or probed.
    pub arch_index: int,
    /// The `Packages` blob, once generated.
    pub packages_blob: Option<Seq<u8>>,
    /// The `Packages.gz` blob, once compressed.
    pub packages_gz_blob: Option<Seq<u8>>,
    /// The `Release` blob, once generated.
    pub release_blob: Option<Seq<u8>>,
    /// The `Release.gpg` blob, once signed.
    pub release_gpg_blob: Option<Seq<u8>>,
    /// The `InRelease` blob, once signed.
    pub in_release_blob: Option<Seq<u8>>,
    /// Seconds spent waiting between propagation probes.
    pub waited_secs: int,
    /// The failure that ended the run, if one did.
    pub error: Option<PublishError>,
}

/// An optional byte string, viewed.
pub open spec fn opt_view(o: Option<Vec<u8>>) -> Option<Seq<u8>> {
    match o {
        Some(v) => Some(v@),
        None => None,
    }
}

/// A publish run.
pub struct PublishRun {
    phase: Phase,
    version: ReleaseVersion,
    message: Vec<u8>,
    token: Vec<u8>,
    signing_key: Vec<u8>,
    formula_template: Vec<u8>,
    archive_digest: Option<Vec<u8>>,
    formula: Option<Vec<u8>>,
    arch_index: usize,
    packages_blob: Option<Vec<u8>>,
    packages_gz_blob: Option<Vec<u8>>,
    release_blob: Option<Vec<u8>>,
    release_gpg_blob: Option<Vec<u8>>,
    in_release_blob: Option<Vec<u8>>,
    waited_secs: u64,
    error: Option<PublishError>,
}

impl View for PublishRun {
    type V = RunView;

    closed spec fn view(&self) -> RunView {
        RunView {
            phase: self.phase,
            version: self.version,
            message: self.message@,
            token: self.token@,
            signing_key: self.signing_key@,
            formula_template: self.formula_template@,
            archive_digest: opt_view(self.archive_digest),
            formula: opt_view(self.formula),
            arch_index: self.arch_index as int,
            packages_blob: opt_view(self.packages_blob),
            packages_gz_blob: opt_view(self.packages_gz_blob),
            release_blob: opt_view(self.release_blob),
            release_gpg_blob: opt_view(self.release_gpg_blob),
            in_release_blob: opt_view(self.in_release_blob),
            waited_secs: self.waited_secs as int,
            error: self.error,
        }
    }
}

/// The phases that stand before the `Release` blob exists. The blob is
/// assigned in the transition out of `GeneratingRelease` and nowhere
/// else: past that it never changes, so both signatures cover exactly
/// the blob this run produced.
pub open spec fn before_release(phase: Phase) -> bool {
    ||| phase == Phase::FetchingArchive
    ||| phase == Phase::OpeningTap
    ||| phase == Phase::WritingTap
    ||| phase == Phase::CommittingTap
    ||| phase == Phase::PushingTap
    ||| phase == Phase::FetchingPackage
    ||| phase == Phase::StagingPackage
    ||| phase == Phase::GeneratingIndex
    ||| phase == Phase::StagingPackagesIndex
    ||| phase == Phase::StagingPackagesGz
    ||| phase == Phase::GeneratingRelease
}

/// The phases that stand before the `Packages` blob exists.
pub open spec fn before_index(phase: Phase) -> bool {
    ||| phase == Phase::FetchingArchive
    ||| phase == Phase::OpeningTap
    ||| phase == Phase::WritingTap
    ||| phase == Phase::CommittingTap
    ||| phase == Phase::PushingTap
    ||| phase == Phase::FetchingPackage
    ||| phase == Phase::StagingPackage
    ||| phase == Phase::GeneratingIndex
}

/// The phases that stand before the `Release.gpg` blob exists.
pub open spec fn before_detached_signature(phase: Phase) -> bool {
    ||| before_release(phase)
    ||| phase == Phase::StagingRelease
    ||| phase == Phase::SigningDetached
}

/// The phases that stand before the `InRelease` blob exists.
pub open spec fn before_clear_signature(phase: Phase) -> bool {
    ||| before_detached_signature(phase)
    ||| phase == Phase::StagingReleaseGpg
    ||| phase == Phase::SigningClear
}

/// What a valid run state holds: each phase has what its next action
/// needs, the deadline bound is kept, waiting advances in whole probe
/// intervals, and each index blob exists exactly from the phase its
/// producer completed on — so a run that reached the index push holds
/// all five.
pub open spec fn run_wf(r: RunView) -> bool {
    &&& r.version.wf()
    &&& (r.phase == Phase::Failed <==> r.error is Some)
    &&& (r.phase == Phase::OpeningTap ==> r.formula is Some)
    &&& ((r.phase == Phase::FetchingPackage || r.phase == Phase::StagingPackage || r.phase
        == Phase::Probing || r.phase == Phase::WaitingRetry) ==> 0 <= r.arch_index
        < ARCH_COUNT as int)
    &&& (before_index(r.phase) ==> r.packages_blob is None && r.packages_gz_blob is None)
    &&& (before_release(r.phase) ==> r.release_blob is None)
    &&& (before_detached_signature(r.phase) ==> r.release_gpg_blob is None)
    &&& (before_clear_signature(r.phase) ==> r.in_release_blob is None)
    &&& (!before_index(r.phase) && r.phase != Phase::Failed ==> r.packages_blob is Some
        && r.packages_gz_blob is Some)
    &&& (!before_release(r.phase) && r.phase != Phase::Failed ==> r.release_blob is Some)
    &&& (!before_detached_signature(r.phase) && r.phase != Phase::Failed
        ==> r.release_gpg_blob is Some)
    &&& (!before_clear_signature(r.phase) && r.phase != Phase::Failed
        ==> r.in_release_blob is Some)
    &&& 0 <= r.waited_secs <= PROPAGATION_DEADLINE_SECS as int
    &&& r.waited_secs % (PROBE_INTERVAL_SECS as int) == 0
    &&& (r.phase == Phase::WaitingRetry ==> r.waited_secs + PROBE_INTERVAL_SECS as int
        <= PROPAGATION_DEADLINE_SECS as int)
}

/// The run fails fatally: only the phase and the error change, and the
/// runner is told to abort with the failure.
pub open spec fn fails(pre: RunView, post: RunView, action: Action, e: PublishError) -> bool {
    &&& post == RunView { phase: Phase::Failed, error: Some(e), ..pre }
    &&& action == Action::Abort(e)
}

/// The event does not belong to the phase: nothing changes.
pub open spec fn ignored(pre: RunView, post: RunView, action: Action) -> bool {
    &&& post == pre
    &&& action == Action::Ignored
}

/// The transition relation of a publish run: from the state `pre` under
/// the reported `event`, the run moves to `post` and asks for `action`.
pub open spec fn step_rel(pre: RunView, event: Event, post: RunView, action: Action) -> bool {
    match pre.phase {
        Phase::FetchingArchive => match event {
            Event::FetchSucceeded(bytes) => {
                let dig = digest_of(bytes@);
                let with_digest = RunView { archive_digest: Some(dig), ..pre };
                let vars = formula_vars_of(pre.version, archive_url_of(pre.version), dig);
                &&& (post.phase == Phase::OpeningTap || post.phase == Phase::Failed)
                &&& (post.phase == Phase::Failed ==> fails(
                    with_digest,
                    post,
                    action,
                    PublishError::TemplateSyntaxError,
                ))
                &&& (post.phase == Phase::OpeningTap ==> {
                    &&& post.formula is Some
                    &&& post == RunView {
                        phase: Phase::OpeningTap,
                        formula: post.formula,
                        ..with_digest
                    }
                    &&& (action matches Action::CloneTap(u) && u@ == tap_repo_url())
                })
                &&& (plain_tags(pre.formula_template) ==> {
                    &&& (post.phase == Phase::OpeningTap <==> mustache_accepts(
                        pre.formula_template,
                    ))
                    &&& (mustache_accepts(pre.formula_template) ==> post.formula == Some(
                        mustache_render(pre.formula_template, vars),
                    ))
                })
            },
            Event::FetchFailed => fails(pre, post, action, PublishError::NetworkFailure),
            _ => ignored(pre, post, action),
        },
        Phase::OpeningTap => match event {
            Event::CloneSucceeded => {
                &&& post == RunView { phase: Phase::WritingTap, ..pre }
                &&& (action matches Action::WriteTapFile(p, c) && p@ == tap_formula_path()
                    && Some(c@) == pre.formula)
            },
            Event::CloneFailed => fails(pre, post, action, PublishError::CloneFailure),
            _ => ignored(pre, post, action),
        },
        Phase::WritingTap => match event {
            Event::WriteSucceeded => {
                &&& post == RunView { phase: Phase::CommittingTap, ..pre }
                &&& (action matches Action::CommitTap(m) && m@ == commit_message_of(
                    pre.version,
                    pre.message,
                ))
            },
            Event::WriteIoFailed => fails(pre, post, action, PublishError::IoFailure),
            Event::WriteIndexFailed => fails(pre, post, action, PublishError::IndexFailure),
            _ => ignored(pre, post, action),
        },
        Phase::CommittingTap => match event {
            Event::CommitSucceeded => {
                &&& post == RunView { phase: Phase::PushingTap, ..pre }
                &&& (action matches Action::PushTap(t) && t@ == pre.token)
            },
            Event::CommitNoParent => fails(pre, post, action, PublishError::NoParentFailure),
            _ => ignored(pre, post, action),
        },
        Phase::PushingTap => match event {
            Event::PushSucceeded => {
                &&& post == RunView { phase: Phase::FetchingPackage, arch_index: 0, ..pre }
                &&& (action matches Action::Fetch(u) && u@ == deb_download_url_of(
                    pre.version,
                    arch_names()[0],
                ))
            },
            Event::PushAuthRejected => fails(pre, post, action, PublishError::AuthFailure),
            Event::PushNonFastForward => fails(
                pre,
                post,
                action,
                PublishError::NonFastForwardFailure,
            ),
            _ => ignored(pre, post, action),
        },
        Phase::FetchingPackage => match event {
            Event::FetchSucceeded(bytes) => {
                &&& post == RunView { phase: Phase::StagingPackage, ..pre }
                &&& (action matches Action::Put(n, c) && n@ == crate::manifest::deb_filename_of(
                    pre.version,
                    arch_names()[pre.arch_index],
                ) && c@ == bytes@)
            },
            Event::FetchFailed => fails(pre, post, action, PublishError::NetworkFailure),
            _ => ignored(pre, post, action),
        },
        Phase::StagingPackage => match event {
            Event::PutSucceeded => {
                if pre.arch_index + 1 < ARCH_COUNT as int {
                    &&& post == RunView {
                        phase: Phase::FetchingPackage,
                        arch_index: pre.arch_index + 1,
                        ..pre
                    }
                    &&& (action matches Action::Fetch(u) && u@ == deb_download_url_of(
                        pre.version,
                        arch_names()[pre.arch_index + 1],
                    ))
                } else {
                    &&& post == RunView { phase: Phase::GeneratingIndex, ..pre }
                    &&& action == Action::RunPackagesTool
                }
            },
            Event::PutFailed => fails(pre, post, action, PublishError::IoFailure),
            _ => ignored(pre, post, action),
        },
        Phase::GeneratingIndex => match event {
            Event::ToolSucceeded(out) => {
                &&& post == RunView {
                    phase: Phase::StagingPackagesIndex,
                    packages_blob: Some(out@),
                    packages_gz_blob: Some(gzip_of(lit("Packages"), out@)),
                    ..pre
                }
                &&& (action matches Action::Put(n, c) && n@ == lit("Packages") && c@ == out@)
            },
            Event::ToolFailed => fails(pre, post, action, PublishError::ExternalToolFailure),
            _ => ignored(pre, post, action),
        },
        Phase::StagingPackagesIndex => match event {
            Event::PutSucceeded => {
                &&& post == RunView { phase: Phase::StagingPackagesGz, ..pre }
                &&& (action matches Action::Put(n, c) && n@ == lit("Packages.gz") && Some(c@)
                    == pre.packages_gz_blob)
            },
            Event::PutFailed => fails(pre, post, action, PublishError::IoFailure),
            _ => ignored(pre, post, action),
        },
        Phase::StagingPackagesGz => match event {
            Event::PutSucceeded => {
                &&& post == RunView { phase: Phase::GeneratingRelease, ..pre }
                &&& action == Action::RunReleaseTool
            },
            Event::PutFailed => fails(pre, post, action, PublishError::IoFailure),
            _ => ignored(pre, post, action),
        },
        Phase::GeneratingRelease => match event {
            Event::ToolSucceeded(out) => {
                &&& post == RunView {
                    phase: Phase::StagingRelease,
                    release_blob: Some(out@),
                    ..pre
                }
                &&& (action matches Action::Put(n, c) && n@ == lit("Release") && c@ == out@)
            },
            Event::ToolFailed => fails(pre, post, action, PublishError::ExternalToolFailure),
            _ => ignored(pre, post, action),
        },
        Phase::StagingRelease => match event {
            Event::PutSucceeded => {
                &&& post == RunView { phase: Phase::SigningDetached, ..pre }
                &&& (action matches Action::SignDetached(k, b) && k@ == pre.signing_key && Some(
                    b@,
                ) == pre.release_blob)
            },
            Event::PutFailed => fails(pre, post, action, PublishError::IoFailure),
            _ => ignored(pre, post, action),
        },
        Phase::SigningDetached => match event {
            Event::ToolSucceeded(sig) => {
                &&& post == RunView {
                    phase: Phase::StagingReleaseGpg,
                    release_gpg_blob: Some(sig@),
                    ..pre
                }
                &&& (action matches Action::Put(n, c) && n@ == lit("Release.gpg") && c@ == sig@)
            },
            Event::ToolFailed => fails(pre, post, action, PublishError::ExternalToolFailure),
            _ => ignored(pre, post, action),
        },
        Phase::StagingReleaseGpg => match event {
            Event::PutSucceeded => {
                &&& post == RunView { phase: Phase::SigningClear, ..pre }
                &&& (action matches Action::SignClear(k, b) && k@ == pre.signing_key && Some(b@)
                    == pre.release_blob)
            },
            Event::PutFailed => fails(pre, post, action, PublishError::IoFailure),
            _ => ignored(pre, post, action),
        },
        Phase::SigningClear => match event {
            Event::ToolSucceeded(sig) => {
                &&& post == RunView {
                    phase: Phase::StagingInRelease,
                    in_release_blob: Some(sig@),
                    ..pre
                }
                &&& (action matches Action::Put(n, c) && n@ == lit("InRelease") && c@ == sig@)
            },
            Event::ToolFailed => fails(pre, post, action, PublishError::ExternalToolFailure),
            _ => ignored(pre, post, action),
        },
        Phase::StagingInRelease => match event {
            Event::PutSucceeded => {
                &&& post == RunView { phase: Phase::PushingIndex, ..pre }
                &&& (action matches Action::PushIndexSurface(t) && t@ == pre.token)
            },
            Event::PutFailed => fails(pre, post, action, PublishError::IoFailure),
            _ => ignored(pre, post, action),
        },
        Phase::PushingIndex => match event {
            Event::PushSucceeded => {
                &&& post == RunView {
                    phase: Phase::Probing,
                    arch_index: 0,
                    waited_secs: 0,
                    ..pre
                }
                &&& (action matches Action::Probe(u) && u@ == propagation_url_of(
                    pre.version,
                    arch_names()[0],
                ))
            },
            Event::PushAuthRejected => fails(pre, post, action, PublishError::AuthFailure),
            Event::PushNonFastForward => fails(
                pre,
                post,
                action,
                PublishError::NonFastForwardFailure,
            ),
            _ => ignored(pre, post, action),
        },
        Phase::Probing => match event {
            Event::ProbeSucceeded => {
                if pre.arch_index + 1 < ARCH_COUNT as int {
                    &&& post == RunView {
                        phase: Phase::Probing,
                        arch_index: pre.arch_index + 1,
                        ..pre
                    }
                    &&& (action matches Action::Probe(u) && u@ == propagation_url_of(
                        pre.version,
                        arch_names()[pre.arch_index + 1],
                    ))
                } else {
                    &&& post == RunView { phase: Phase::Done, ..pre }
                    &&& action == Action::Conclude
                }
            },
            Event::ProbeFailed => {
                if pre.waited_secs + PROBE_INTERVAL_SECS as int
                    <= PROPAGATION_DEADLINE_SECS as int {
                    &&& post == RunView { phase: Phase::WaitingRetry, ..pre }
                    &&& action == Action::Wait(PROBE_INTERVAL_SECS)
                } else {
                    fails(pre, post, action, PublishError::TimeoutFailure)
                }
            },
            _ => ignored(pre, post, action),
        },
        Phase::WaitingRetry => match event {
            Event::WaitElapsed => {
                &&& post == RunView {
                    phase: Phase::Probing,
                    waited_secs: pre.waited_secs + PROBE_INTERVAL_SECS as int,
                    ..pre
                }
                &&& (action matches Action::Probe(u) && u@ == propagation_url_of(
                    pre.version,
                    arch_names()[pre.arch_index],
                ))
            },
            _ => ignored(pre, post, action),
        },
        Phase::Done => {
            &&& post == pre
            &&& action == Action::Conclude
        },
        Phase::Failed => {
            &&& post == pre
            &&& (pre.error matches Some(e) && action == Action::Abort(e))
        },
    }
}

impl PublishRun {
    /// Fails the run fatally.
    fn fail(&mut self, e: PublishError) -> (action: Action)
        ensures
            final(self)@ == (RunView { phase: Phase::Failed, error: Some(e), ..old(self)@ }),
            action == Action::Abort(e),
    {
        self.phase = Phase::Failed;
        self.error = Some(e);
        Action::Abort(e)
    }

    /// Starts a publish run. The version text is parsed once — a leading
    /// `v` tag prefix is allowed — and the first action fetches the
    /// source archive; a text that is no semantic version refuses the
    /// run.
    pub fn new(
        version_text: &[u8],
        message: &[u8],
        token: &[u8],
        signing_key: &[u8],
        formula_template: &[u8],
    ) -> (r: Result<(PublishRun, Action), PublishError>)
        ensures
            r is Ok <==> semver_canon(stripped_v(version_text@)) is Some,
            r matches Err(e) ==> e == PublishError::VersionSyntaxFailure,
            r matches Ok(p) ==> {
                let run = p.0;
                let action = p.1;
                &&& run_wf(run@)
                &&& run@.phase == Phase::FetchingArchive
                &&& run@.version.canonical_view() == semver_canon(
                    stripped_v(version_text@),
                ).unwrap()
                &&& run@.message == message@
                &&& run@.token == token@
                &&& run@.signing_key == signing_key@
                &&& run@.formula_template == formula_template@
                &&& run@.archive_digest is None
                &&& run@.formula is None
                &&& run@.packages_blob is None
                &&& run@.packages_gz_blob is None
                &&& run@.release_blob is None
                &&& run@.release_gpg_blob is None
                &&& run@.in_release_blob is None
                &&& run@.error is None
                &&& run@.waited_secs == 0
                &&& (action matches Action::Fetch(u) && u@ == archive_url_of(run@.version))
            },
    {
        match ReleaseVersion::parse(version_text) {
            Some(version) => {
                let first = archive_url(&version);
                let run = PublishRun {
                    phase: Phase::FetchingArchive,
                    version,
                    message: copy_bytes(message),
                    token: copy_bytes(token),
                    signing_key: copy_bytes(signing_key),
                    formula_template: copy_bytes(formula_template),
                    archive_digest: None,
                    formula: None,
                    arch_index: 0,
                    packages_blob: None,
                    packages_gz_blob: None,
                    release_blob: None,
                    release_gpg_blob: None,
                    in_release_blob: None,
                    waited_secs: 0,
                    error: None,
                };
                Ok((run, Action::Fetch(first)))
            },
            None => Err(PublishError::VersionSyntaxFailure),
        }
    }

    /// Advances the run under one reported event and returns the next
    /// action to perform. The transition taken is exactly
    /// [`step_rel`]; a valid run state is kept valid.
    #[verifier::rlimit(100)]
    pub fn step(&mut self, event: Event) -> (action: Action)
        requires
            run_wf(old(self)@),
        ensures
            run_wf(final(self)@),
            step_rel(old(self)@, event, final(self)@, action),
    {
        match self.phase {
            Phase::FetchingArchive => match event {
                Event::FetchSucceeded(bytes) => {
                    let dig = digest(bytes.as_slice());
                    let url = archive_url(&self.version);
                    let vars = formula_vars(&self.version, url.as_slice(), dig.as_slice());
                    self.archive_digest = Some(dig);
                    match CompiledTemplate::compile(self.formula_template.as_slice()) {
                        Ok(template) => match template.render(&vars) {
                            Ok(formula) => {
                                self.formula = Some(formula);
                                self.phase = Phase::OpeningTap;
                                Action::CloneTap(
                                    lit_bytes("https://github.com/exogress/homebrew-brew.git"),
                                )
                            },
                            Err(_) => self.fail(PublishError::TemplateSyntaxError),
                        },
                        Err(_) => self.fail(PublishError::TemplateSyntaxError),
                    }
                },
                Event::FetchFailed => self.fail(PublishError::NetworkFailure),
                _ => Action::Ignored,
            },
            Phase::OpeningTap => match event {
                Event::CloneSucceeded => {
                    self.phase = Phase::WritingTap;
                    let content = match &self.formula {
                        Some(f) => copy_bytes(f.as_slice()),
                        None => vstd::pervasive::unreached(),
                    };
                    Action::WriteTapFile(lit_bytes("exogress.rb"), content)
                },
                Event::CloneFailed => self.fail(PublishError::CloneFailure),
                _ => Action::Ignored,
            },
            Phase::WritingTap => match event {
                Event::WriteSucceeded => {
                    self.phase = Phase::CommittingTap;
                    Action::CommitTap(commit_message(&self.version, self.message.as_slice()))
                },
                Event::WriteIoFailed => self.fail(PublishError::IoFailure),
                Event::WriteIndexFailed => self.fail(PublishError::IndexFailure),
                _ => Action::Ignored,
            },
            Phase::CommittingTap => match event {
                Event::CommitSucceeded => {
                    self.phase = Phase::PushingTap;
                    Action::PushTap(copy_bytes(self.token.as_slice()))
                },
                Event::CommitNoParent => self.fail(PublishError::NoParentFailure),
                _ => Action::Ignored,
            },
            Phase::PushingTap => match event {
                Event::PushSucceeded => {
                    self.phase = Phase::FetchingPackage;
                    self.arch_index = 0;
                    let arch = arch_name(0);
                    Action::Fetch(deb_download_url(&self.version, arch.as_slice()))
                },
                Event::PushAuthRejected => self.fail(PublishError::AuthFailure),
                Event::PushNonFastForward => self.fail(PublishError::NonFastForwardFailure),
                _ => Action::Ignored,
            },
            Phase::FetchingPackage => match event {
                Event::FetchSucceeded(bytes) => {
                    self.phase = Phase::StagingPackage;
                    let arch = arch_name(self.arch_index);
                    let name = crate::manifest::deb_filename(&self.version, arch.as_slice());
                    Action::Put(name, bytes)
                },
                Event::FetchFailed => self.fail(PublishError::NetworkFailure),
                _ => Action::Ignored,
            },
            Phase::StagingPackage => match event {
                Event::PutSucceeded => {
                    if self.arch_index + 1 < ARCH_COUNT {
                        self.arch_index = self.arch_index + 1;
                        self.phase = Phase::FetchingPackage;
                        let arch = arch_name(self.arch_index);
                        Action::Fetch(deb_download_url(&self.version, arch.as_slice()))
                    } else {
                        self.phase = Phase::GeneratingIndex;
                        Action::RunPackagesTool
                    }
                },
                Event::PutFailed => self.fail(PublishError::IoFailure),
                _ => Action::Ignored,
            },
            Phase::GeneratingIndex => match event {
                Event::ToolSucceeded(out) => {
                    let name = lit_bytes("Packages");
                    proof {
                        packages_name_nonzero();
                    }
                    let gz = gzip_named(name.as_slice(), out.as_slice());
                    self.packages_blob = Some(copy_bytes(out.as_slice()));
                    self.packages_gz_blob = Some(gz);
                    self.phase = Phase::StagingPackagesIndex;
                    Action::Put(name, out)
                },
                Event::ToolFailed => self.fail(PublishError::ExternalToolFailure),
                _ => Action::Ignored,
            },
            Phase::StagingPackagesIndex => match event {
                Event::PutSucceeded => {
                    self.phase = Phase::StagingPackagesGz;
                    let gz = match &self.packages_gz_blob {
                        Some(g) => copy_bytes(g.as_slice()),
                        None => vstd::pervasive::unreached(),
                    };
                    Action::Put(lit_bytes("Packages.gz"), gz)
                },
                Event::PutFailed => self.fail(PublishError::IoFailure),
                _ => Action::Ignored,
            },
            Phase::StagingPackagesGz => match event {
                Event::PutSucceeded => {
                    self.phase = Phase::GeneratingRelease;
                    Action::RunReleaseTool
                },
                Event::PutFailed => self.fail(PublishError::IoFailure),
                _ => Action::Ignored,
            },
            Phase::GeneratingRelease => match event {
                Event::ToolSucceeded(out) => {
                    self.release_blob = Some(copy_bytes(out.as_slice()));
                    self.phase = Phase::StagingRelease;
                    Action::Put(lit_bytes("Release"), out)
                },
                Event::ToolFailed => self.fail(PublishError::ExternalToolFailure),
                _ => Action::Ignored,
            },
            Phase::StagingRelease => match event {
                Event::PutSucceeded => {
                    self.phase = Phase::SigningDetached;
                    let rel = match &self.release_blob {
                        Some(b) => copy_bytes(b.as_slice()),
                        None => vstd::pervasive::unreached(),
                    };
                    Action::SignDetached(copy_bytes(self.signing_key.as_slice()), rel)
                },
                Event::PutFailed => self.fail(PublishError::IoFailure),
                _ => Action::Ignored,
            },
            Phase::SigningDetached => match event {
                Event::ToolSucceeded(sig) => {
                    self.release_gpg_blob = Some(copy_bytes(sig.as_slice()));
                    self.phase = Phase::StagingReleaseGpg;
                    Action::Put(lit_bytes("Release.gpg"), sig)
                },
                Event::ToolFailed => self.fail(PublishError::ExternalToolFailure),
                _ => Action::Ignored,
            },
            Phase::StagingReleaseGpg => match event {
                Event::PutSucceeded => {
                    self.phase = Phase::SigningClear;
                    let rel = match &self.release_blob {
                        Some(b) => copy_bytes(b.as_slice()),
                        None => vstd::pervasive::unreached(),
                    };
                    Action::SignClear(copy_bytes(self.signing_key.as_slice()), rel)
                },
                Event::PutFailed => self.fail(PublishError::IoFailure),
                _ => Action::Ignored,
            },
            Phase::SigningClear => match event {
                Event::ToolSucceeded(sig) => {
                    self.in_release_blob = Some(copy_bytes(sig.as_slice()));
                    self.phase = Phase::StagingInRelease;
                    Action::Put(lit_bytes("InRelease"), sig)
                },
                Event::ToolFailed => self.fail(PublishError::ExternalToolFailure),
                _ => Action::Ignored,
            },
            Phase::StagingInRelease => match event {
                Event::PutSucceeded => {
                    self.phase = Phase::PushingIndex;
                    Action::PushIndexSurface(copy_bytes(self.token.as_slice()))
                },
                Event::PutFailed => self.fail(PublishError::IoFailure),
                _ => Action::Ignored,
            },
            Phase::PushingIndex => match event {
                Event::PushSucceeded => {
                    self.phase = Phase::Probing;
                    self.arch_index = 0;
                    self.waited_secs = 0;
                    let arch = arch_name(0);
                    Action::Probe(propagation_url(&self.version, arch.as_slice()))
                },
                Event::PushAuthRejected => self.fail(PublishError::AuthFailure),
                Event::PushNonFastForward => self.fail(PublishError::NonFastForwardFailure),
                _ => Action::Ignored,
            },
            Phase::Probing => match event {
                Event::ProbeSucceeded => {
                    if self.arch_index + 1 < ARCH_COUNT {
                        self.arch_index = self.arch_index + 1;
                        let arch = arch_name(self.arch_index);
                        Action::Probe(propagation_url(&self.version, arch.as_slice()))
                    } else {
                        self.phase = Phase::Done;
                        Action::Conclude
                    }
                },
                Event::ProbeFailed => {
                    if self.waited_secs + PROBE_INTERVAL_SECS <= PROPAGATION_DEADLINE_SECS {
                        self.phase = Phase::WaitingRetry;
                        Action::Wait(PROBE_INTERVAL_SECS)
                    } else {
                        self.fail(PublishError::TimeoutFailure)
                    }
                },
                _ => Action::Ignored,
            },
            Phase::WaitingRetry => match event {
                Event::WaitElapsed => {
                    self.waited_secs = self.waited_secs + PROBE_INTERVAL_SECS;
                    self.phase = Phase::Probing;
                    let arch = arch_name(self.arch_index);
                    Action::Probe(propagation_url(&self.version, arch.as_slice()))
                },
                _ => Action::Ignored,
            },
            Phase::Done => Action::Conclude,
            Phase::Failed => {
                let e = match self.error {
                    Some(e) => e,
                    None => vstd::pervasive::unreached(),
                };
                Action::Abort(e)
            },
        }
    }

    /// Where the run stands.
    pub fn phase(&self) -> (r: Phase)
        ensures
            r == self@.phase,
    {
        self.phase
    }

    /// The failure that ended the run, if one did.
    pub fn error(&self) -> (r: Option<PublishError>)
        ensures
            r == self@.error,
    {
        self.error
    }

    /// The `Packages` blob, once the index generator produced it.
    pub fn packages_bytes(&self) -> (r: Option<&Vec<u8>>)
        ensures
            match r {
                Some(b) => self@.packages_blob == Some(b@),
                None => self@.packages_blob is None,
            },
    {
        self.packages_blob.as_ref()
    }

    /// The `Packages.gz` blob, once compressed.
    pub fn packages_gz_bytes(&self) -> (r: Option<&Vec<u8>>)
        ensures
            match r {
                Some(b) => self@.packages_gz_blob == Some(b@),
                None => self@.packages_gz_blob is None,
            },
    {
        self.packages_gz_blob.as_ref()
    }

    /// The `Release` blob, once the release generator produced it.
    pub fn release_bytes(&self) -> (r: Option<&Vec<u8>>)
        ensures
            match r {
                Some(b) => self@.release_blob == Some(b@),
                None => self@.release_blob is None,
            },
    {
        self.release_blob.as_ref()
    }

    /// The `Release.gpg` blob, once the detached signature arrived.
    pub fn release_gpg_bytes(&self) -> (r: Option<&Vec<u8>>)
        ensures
            match r {
                Some(b) => self@.release_gpg_blob == Some(b@),
                None => self@.release_gpg_blob is None,
            },
    {
        self.release_gpg_blob.as_ref()
    }

    /// The `InRelease` blob, once the clear signature arrived.
    pub fn in_release_bytes(&self) -> (r: Option<&Vec<u8>>)
        ensures
            match r {
                Some(b) => self@.in_release_blob == Some(b@),
                None => self@.in_release_blob is None,
            },
    {
        self.in_release_blob.as_ref()
    }

    /// Seconds spent waiting between propagation probes.
    pub fn waited_secs(&self) -> (r: u64)
        ensures
            r as int == self@.waited_secs,
    {
        self.waited_secs
    }
}

/// A run that has ended does not move: after `Done` every event returns
/// `Conclude` and after `Failed` every event returns the recorded
/// failure; the state never changes. In particular, a push rejection of
/// the tap repository leaves every later phase — the whole index build
/// among them — unattempted.
pub proof fn lemma_terminal_phases_absorb(
    pre: RunView,
    event: Event,
    post: RunView,
    action: Action,
)
    requires
        pre.phase == Phase::Done || pre.phase == Phase::Failed,
        step_rel(pre, event, post, action),
    ensures
        post == pre,
        pre.phase == Phase::Done ==> action == Action::Conclude,
        pre.phase == Phase::Failed ==> (pre.error matches Some(e) && action == Action::Abort(e)),
{
}

/// A rejected tap push fails the run on the spot: the state keeps the
/// committed-but-unpushed world exactly as it was, records the matching
/// failure, and — since the failed state absorbs every later event — no
/// index-build phase is ever attempted: no index blob exists in the
/// failed state.
pub proof fn lemma_push_rejection_halts(pre: RunView, event: Event, post: RunView, action: Action)
    requires
        run_wf(pre),
        step_rel(pre, event, post, action),
        pre.phase == Phase::PushingTap,
        event is PushAuthRejected || event is PushNonFastForward,
    ensures
        post.phase == Phase::Failed,
        event is PushAuthRejected ==> post == (RunView {
            phase: Phase::Failed,
            error: Some(PublishError::AuthFailure),
            ..pre
        }),
        event is PushNonFastForward ==> post == (RunView {
            phase: Phase::Failed,
            error: Some(PublishError::NonFastForwardFailure),
            ..pre
        }),
        post.packages_blob is None,
        post.packages_gz_blob is None,
        post.release_blob is None,
        post.release_gpg_blob is None,
        post.in_release_blob is None,
{
}

/// Both signatures cover exactly the `Release` bytes produced in this
/// run: a sign action always carries the run's own `Release` blob and
/// the signing key, and the blob — assigned once, by the transition out
/// of `GeneratingRelease` — never changes afterwards, so no signature
/// can cover a prior run's bytes.
pub proof fn lemma_signatures_cover_this_release(
    pre: RunView,
    event: Event,
    post: RunView,
    action: Action,
)
    requires
        run_wf(pre),
        step_rel(pre, event, post, action),
    ensures
        pre.release_blob is Some ==> post.release_blob == pre.release_blob,
        action matches Action::SignDetached(k, b) ==> k@ == pre.signing_key && Some(b@)
            == pre.release_blob && post.release_blob == pre.release_blob,
        action matches Action::SignClear(k, b) ==> k@ == pre.signing_key && Some(b@)
            == pre.release_blob && post.release_blob == pre.release_blob,
{
}

/// The shared propagation deadline is honored exactly: a run fails with
/// `TimeoutFailure` only out of probing, and only once the full
/// deadline has been spent waiting between probes.
pub proof fn lemma_timeout_spends_full_deadline(
    pre: RunView,
    event: Event,
    post: RunView,
    action: Action,
)
    requires
        run_wf(pre),
        step_rel(pre, event, post, action),
        pre.phase != Phase::Failed,
        post.error == Some(PublishError::TimeoutFailure),
    ensures
        pre.phase == Phase::Probing,
        event is ProbeFailed,
        pre.waited_secs == PROPAGATION_DEADLINE_SECS as int,
{
}

/// The package-fetch targets and the propagation-probe targets are
/// symmetric over the one architecture set: at position `i` of either
/// phase, the action's URL is derived for `arch_names()[i]`, so both
/// phases range over exactly the same architectures.
pub proof fn lemma_fetch_probe_symmetric(
    pre: RunView,
    event: Event,
    post: RunView,
    action: Action,
)
    requires
        run_wf(pre),
        step_rel(pre, event, post, action),
    ensures
        action matches Action::Fetch(u) ==> (post.phase == Phase::FetchingPackage ==> u@
            == deb_download_url_of(pre.version, arch_names()[post.arch_index])),
        action matches Action::Probe(u) ==> post.phase == Phase::Probing && u@
            == propagation_url_of(pre.version, arch_names()[post.arch_index]),
{
}

/// There is no partial-index publish state: a run that is pushing the
/// index surface — and any later state of it, through probing to the
/// concluded run — holds all five index blobs of this run.
pub proof fn lemma_no_partial_index_publish(r: RunView)
    requires
        run_wf(r),
        r.phase == Phase::PushingIndex || r.phase == Phase::Probing || r.phase
            == Phase::WaitingRetry || r.phase == Phase::Done,
    ensures
        r.packages_blob is Some,
        r.packages_gz_blob is Some,
        r.release_blob is Some,
        r.release_gpg_blob is Some,
        r.in_release_blob is Some,
{
}

/// The bytes of the `Packages` name hold no zero, as the compressor's
/// header requires.
proof fn packages_name_nonzero()
    ensures
        forall|i: int| 0 <= i < lit("Packages").len() ==> lit("Packages")[i] != 0,
{
    reveal_strlit("Packages");
    crate::bytes::lemma_ascii_lit("Packages");
}

} // verus!

