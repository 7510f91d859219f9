//! The update orchestrator, as an explicit state machine.
//!
//! The machine holds the decisions of the self-update flow: compare the
//! installed version with the feed's latest, resolve architecture and
//! install location before any artifact download, sequence download, atomic
//! install and unconditional temp-file cleanup, and phrase every user-facing
//! message. The application performs each returned [`UpdateAction`] (one GET,
//! one download, one rename, one remove, one report) and answers with the
//! matching [`UpdateEvent`]; [`UpdateMachine::step`] pins every transition.

use vstd::pervasive::unreached;
use vstd::prelude::*;
use vstd::string::StringExecFns;

use crate::feed::get_latest;
use crate::feed::lemma_get_latest_verdict;
use crate::feed::spec_bad_status_detail;
use crate::feed::spec_feed_error_text;
use crate::feed::spec_fetch_error_message;
use crate::feed::spec_latest_of;
use crate::feed::FeedResponse;
use crate::feed::FetchError;
use crate::locate::get_arch;
use crate::locate::github_download_url;
use crate::locate::github_releases_url;
use crate::locate::spec_arch_name;
use crate::locate::spec_download_url;
use crate::locate::spec_releases_url;
use crate::locate::spec_temp_download_path;
use crate::locate::spec_unsupported_arch_message;
use crate::locate::temp_download_path;
use crate::version::render_u64;
use crate::version::spec_version_lt;
use crate::version::spec_version_string;
use crate::version::Version;

verus! {

/// Where the self-update flow stands.
#[derive(Debug)]
pub enum UpdatePhase {
    /// Waiting for the release feed's answer.
    CheckingVersion,
    /// Terminal: the installed version is already the latest.
    UpToDate,
    /// The artifact for `latest` is being downloaded to the temp path.
    Downloading { latest: Version },
    /// The downloaded artifact is being renamed onto the install path.
    Installing { latest: Version },
    /// The temp file is being removed; `outcome` is what to report next:
    /// the install location on success, the failure message otherwise.
    CleaningUp { latest: Version, outcome: Result<String, String> },
    /// Terminal: the binary was replaced by `latest`.
    Done { latest: Version },
    /// Terminal: the update failed.
    Failed { message: String },
}

/// What the application reports back after performing an action.
#[derive(Debug)]
pub enum UpdateEvent {
    /// The feed request settled.
    FeedChecked { response: FeedResponse },
    /// The artifact download settled: fully on disk, or a failure message.
    Downloaded { result: Result<(), String> },
    /// The rename onto the install path settled.
    Installed { result: Result<(), String> },
    /// The temp file was removed (removal is best-effort and never fails).
    TempRemoved,
}

/// What the application must do next.
#[derive(Debug, Clone)]
pub enum UpdateAction {
    /// GET the release feed and answer with `FeedChecked`.
    FetchFeed { url: String },
    /// Download `url` to `dest`, set the file executable, and answer with
    /// `Downloaded`; render a progress indicator while `show_progress`.
    Download { url: String, dest: String, show_progress: bool },
    /// Atomically rename `from` onto `to` and answer with `Installed`.
    Install { from: String, to: String },
    /// Remove the temp file, ignoring a missing file, and answer with
    /// `TempRemoved`.
    RemoveTempFile { path: String },
    /// Terminal: report the message; the flow succeeded with exit code 0.
    ReportUpToDate { message: String },
    /// Terminal: report the message; the flow succeeded with exit code 0.
    ReportUpdated { message: String },
    /// Terminal: report the failure; the caller exits non-zero.
    Fail { message: String },
}

/// The self-update orchestrator.
#[derive(Debug)]
pub struct UpdateMachine {
    /// The build-injected version of the running binary.
    pub installed: Version,
    /// The platform's reported architecture, e.g. `x86_64`.
    pub platform_arch: String,
    /// The running executable's own path, if the system could resolve it.
    pub bin_location: Option<String>,
    /// Render a progress indicator during the download.
    pub show_progress: bool,
    /// Where the flow stands.
    pub phase: UpdatePhase,
}

/// Message reported when the installed version is already the latest.
pub open spec fn spec_up_to_date_message(v: Version) -> Seq<char> {
    "Already on the latest version ("@ + spec_version_string(v) + ")"@
}

/// Message reported after a completed update.
pub open spec fn spec_upgraded_message(location: Seq<char>, from: Version, to: Version) -> Seq<
    char,
> {
    "Upgraded "@ + location + " from "@ + spec_version_string(from) + " to "@
        + spec_version_string(to)
}

/// Failure text when the feed check fails.
pub open spec fn spec_feed_failure_text(response: FeedResponse) -> Seq<char> {
    "Could not get latest available version: "@ + spec_feed_error_text(response)
}

/// Failure text when the running executable's path cannot be resolved.
pub open spec fn spec_locate_failure_message() -> Seq<char> {
    "Could not determine binary location"@
}

/// Failure text for an artifact response with a non-success status.
pub open spec fn spec_download_failure_message(status: u16) -> Seq<char> {
    "Failed to download binary: "@ + spec_bad_status_detail(status)
}

/// Render the up-to-date report.
pub fn up_to_date_message(v: &Version) -> (r: String)
    ensures
        r@ == spec_up_to_date_message(*v),
{
    let mut s = "Already on the latest version (".to_owned();
    let ver = v.version_string();
    s.append(ver.as_str());
    s.append(")");
    s
}

/// Render the post-update report.
pub fn upgraded_message(location: &str, from: &Version, to: &Version) -> (r: String)
    ensures
        r@ == spec_upgraded_message(location@, *from, *to),
{
    let mut s = "Upgraded ".to_owned();
    s.append(location);
    s.append(" from ");
    let old_ver = from.version_string();
    s.append(old_ver.as_str());
    s.append(" to ");
    let new_ver = to.version_string();
    s.append(new_ver.as_str());
    s
}

/// Wrap a fetch error as the update flow reports it.
pub fn feed_failure_message(e: &FetchError) -> (r: String)
    ensures
        r@ == "Could not get latest available version: "@ + spec_fetch_error_message(*e),
{
    let mut s = "Could not get latest available version: ".to_owned();
    let detail = e.message();
    s.append(detail.as_str());
    s
}

/// Render the locate failure.
pub fn locate_failure_message() -> (r: String)
    ensures
        r@ == spec_locate_failure_message(),
{
    "Could not determine binary location".to_owned()
}

/// Render the failure for an artifact response with a non-success status.
pub fn download_failure_message(status: u16) -> (r: String)
    ensures
        r@ == spec_download_failure_message(status),
{
    let mut s = "Failed to download binary: ".to_owned();
    s.append("HTTP status ");
    let digits = render_u64(status as u64);
    s.append(digits.as_str());
    s
}

impl UpdateMachine {
    /// The machine's phase never outruns what it has resolved: an artifact is
    /// downloaded or installed only once the install location is known.
    pub open spec fn wf(self) -> bool {
        match self.phase {
            UpdatePhase::Downloading { .. } => self.bin_location is Some,
            UpdatePhase::Installing { .. } => self.bin_location is Some,
            _ => true,
        }
    }

    /// The event the machine can take in its current phase.
    pub open spec fn expects(self, event: UpdateEvent) -> bool {
        match (self.phase, event) {
            (UpdatePhase::CheckingVersion, UpdateEvent::FeedChecked { .. }) => true,
            (UpdatePhase::Downloading { .. }, UpdateEvent::Downloaded { .. }) => true,
            (UpdatePhase::Installing { .. }, UpdateEvent::Installed { .. }) => true,
            (UpdatePhase::CleaningUp { .. }, UpdateEvent::TempRemoved) => true,
            _ => false,
        }
    }

    /// Start a fresh update attempt.
    pub fn new(
        installed: Version,
        platform_arch: String,
        bin_location: Option<String>,
        show_progress: bool,
    ) -> (m: UpdateMachine)
        ensures
            m.installed == installed,
            m.platform_arch == platform_arch,
            m.bin_location == bin_location,
            m.show_progress == show_progress,
            m.phase is CheckingVersion,
            m.wf(),
    {
        UpdateMachine {
            installed,
            platform_arch,
            bin_location,
            show_progress,
            phase: UpdatePhase::CheckingVersion,
        }
    }

    /// The first action of every attempt: fetch the release feed.
    pub fn start(&self) -> (action: UpdateAction)
        ensures
            action matches UpdateAction::FetchFeed { url } && url@ == spec_releases_url(),
    {
        UpdateAction::FetchFeed { url: github_releases_url() }
    }

    /// Take one event and produce the next action; the full transition
    /// relation is [`step_spec`].
    pub fn step(&mut self, event: UpdateEvent) -> (action: UpdateAction)
        requires
            old(self).wf(),
            old(self).expects(event),
        ensures
            final(self).wf(),
            step_spec(*old(self), event, *final(self), action),
    {
        match event {
            UpdateEvent::FeedChecked { response } => {
                match get_latest(&response) {
                    Err(e) => {
                        proof {
                            lemma_get_latest_verdict(response, Err(e));
                        }
                        let msg = feed_failure_message(&e);
                        self.phase = UpdatePhase::Failed { message: msg.clone() };
                        UpdateAction::Fail { message: msg }
                    },
                    Ok(latest) => {
                        proof {
                            lemma_get_latest_verdict(response, Ok(latest));
                        }
                        if !self.installed.lt(&latest) {
                            let msg = up_to_date_message(&self.installed);
                            self.phase = UpdatePhase::UpToDate;
                            UpdateAction::ReportUpToDate { message: msg }
                        } else if self.bin_location.is_none() {
                            self.phase = UpdatePhase::CleaningUp {
                                latest,
                                outcome: Err(locate_failure_message()),
                            };
                            UpdateAction::RemoveTempFile { path: temp_download_path() }
                        } else {
                            match get_arch(self.platform_arch.as_str()) {
                                Err(m) => {
                                    self.phase = UpdatePhase::CleaningUp {
                                        latest,
                                        outcome: Err(m),
                                    };
                                    UpdateAction::RemoveTempFile { path: temp_download_path() }
                                },
                                Ok(arch) => {
                                    let tag = latest.version_string();
                                    let url = github_download_url(tag.as_str(), arch.as_str());
                                    let show_progress = self.show_progress;
                                    self.phase = UpdatePhase::Downloading { latest };
                                    UpdateAction::Download {
                                        url,
                                        dest: temp_download_path(),
                                        show_progress,
                                    }
                                },
                            }
                        }
                    },
                }
            },
            UpdateEvent::Downloaded { result } => {
                let latest = match &self.phase {
                    UpdatePhase::Downloading { latest } => *latest,
                    _ => unreached(),
                };
                match result {
                    Ok(_) => {
                        let to = match &self.bin_location {
                            Some(loc) => loc.clone(),
                            None => unreached(),
                        };
                        self.phase = UpdatePhase::Installing { latest };
                        UpdateAction::Install { from: temp_download_path(), to }
                    },
                    Err(m) => {
                        self.phase = UpdatePhase::CleaningUp { latest, outcome: Err(m) };
                        UpdateAction::RemoveTempFile { path: temp_download_path() }
                    },
                }
            },
            UpdateEvent::Installed { result } => {
                let latest = match &self.phase {
                    UpdatePhase::Installing { latest } => *latest,
                    _ => unreached(),
                };
                match result {
                    Ok(_) => {
                        let loc = match &self.bin_location {
                            Some(loc) => loc.clone(),
                            None => unreached(),
                        };
                        self.phase = UpdatePhase::CleaningUp { latest, outcome: Ok(loc) };
                        UpdateAction::RemoveTempFile { path: temp_download_path() }
                    },
                    Err(m) => {
                        self.phase = UpdatePhase::CleaningUp { latest, outcome: Err(m) };
                        UpdateAction::RemoveTempFile { path: temp_download_path() }
                    },
                }
            },
            UpdateEvent::TempRemoved => {
                let (latest, outcome): (Version, Result<String, String>) = match &self.phase {
                    UpdatePhase::CleaningUp { latest, outcome } => {
                        let copied: Result<String, String> = match outcome {
                            Ok(loc) => Ok(loc.clone()),
                            Err(m) => Err(m.clone()),
                        };
                        (*latest, copied)
                    },
                    _ => unreached(),
                };
                match outcome {
                    Ok(loc) => {
                        let msg = upgraded_message(loc.as_str(), &self.installed, &latest);
                        self.phase = UpdatePhase::Done { latest };
                        UpdateAction::ReportUpdated { message: msg }
                    },
                    Err(m) => {
                        self.phase = UpdatePhase::Failed { message: m.clone() };
                        UpdateAction::Fail { message: m }
                    },
                }
            },
        }
    }
}

/// The untouched configuration fields of one step.
pub open spec fn frame_ok(pre: UpdateMachine, post: UpdateMachine) -> bool {
    &&& post.installed == pre.installed
    &&& post.platform_arch == pre.platform_arch
    &&& post.bin_location == pre.bin_location
    &&& post.show_progress == pre.show_progress
}

/// The full transition relation of [`UpdateMachine::step`]: for each phase
/// and event, exactly which phase the machine enters and which action it
/// returns, message texts included.
pub open spec fn step_spec(
    pre: UpdateMachine,
    event: UpdateEvent,
    post: UpdateMachine,
    action: UpdateAction,
) -> bool {
    frame_ok(pre, post) && match (pre.phase, event) {
        (UpdatePhase::CheckingVersion, UpdateEvent::FeedChecked { response }) => {
            match spec_latest_of(response) {
                None => {
                    &&& post.phase matches UpdatePhase::Failed { message } && message@
                        == spec_feed_failure_text(response)
                    &&& action matches UpdateAction::Fail { message } && message@
                        == spec_feed_failure_text(response)
                },
                Some(latest) => {
                    if !spec_version_lt(pre.installed, latest) {
                        &&& post.phase is UpToDate
                        &&& action matches UpdateAction::ReportUpToDate { message } && message@
                            == spec_up_to_date_message(pre.installed)
                    } else if pre.bin_location is None {
                        &&& post.phase matches UpdatePhase::CleaningUp { latest: l, outcome }
                            && l == latest && (outcome matches Err(m) && m@
                            == spec_locate_failure_message())
                        &&& action matches UpdateAction::RemoveTempFile { path } && path@
                            == spec_temp_download_path()
                    } else {
                        match spec_arch_name(pre.platform_arch@) {
                            None => {
                                &&& post.phase matches UpdatePhase::CleaningUp {
                                    latest: l,
                                    outcome,
                                } && l == latest && (outcome matches Err(m) && m@
                                    == spec_unsupported_arch_message(pre.platform_arch@))
                                &&& action matches UpdateAction::RemoveTempFile { path } && path@
                                    == spec_temp_download_path()
                            },
                            Some(arch) => {
                                &&& post.phase matches UpdatePhase::Downloading { latest: l } && l
                                    == latest
                                &&& action matches UpdateAction::Download {
                                    url,
                                    dest,
                                    show_progress,
                                } && url@ == spec_download_url(spec_version_string(latest), arch)
                                    && dest@ == spec_temp_download_path() && show_progress
                                    == pre.show_progress
                            },
                        }
                    }
                },
            }
        },
        (UpdatePhase::Downloading { latest }, UpdateEvent::Downloaded { result }) => {
            match result {
                Ok(_) => {
                    &&& post.phase matches UpdatePhase::Installing { latest: l } && l == latest
                    &&& action matches UpdateAction::Install { from, to } && from@
                        == spec_temp_download_path() && (pre.bin_location matches Some(loc) && to@
                        == loc@)
                },
                Err(m) => {
                    &&& post.phase matches UpdatePhase::CleaningUp { latest: l, outcome } && l
                        == latest && (outcome matches Err(mm) && mm@ == m@)
                    &&& action matches UpdateAction::RemoveTempFile { path } && path@
                        == spec_temp_download_path()
                },
            }
        },
        (UpdatePhase::Installing { latest }, UpdateEvent::Installed { result }) => {
            match result {
                Ok(_) => {
                    &&& post.phase matches UpdatePhase::CleaningUp { latest: l, outcome } && l
                        == latest && (outcome matches Ok(loc) && (pre.bin_location matches Some(b)
                        && loc@ == b@))
                    &&& action matches UpdateAction::RemoveTempFile { path } && path@
                        == spec_temp_download_path()
                },
                Err(m) => {
                    &&& post.phase matches UpdatePhase::CleaningUp { latest: l, outcome } && l
                        == latest && (outcome matches Err(mm) && mm@ == m@)
                    &&& action matches UpdateAction::RemoveTempFile { path } && path@
                        == spec_temp_download_path()
                },
            }
        },
        (UpdatePhase::CleaningUp { latest, outcome }, UpdateEvent::TempRemoved) => {
            match outcome {
                Ok(loc) => {
                    &&& post.phase matches UpdatePhase::Done { latest: l } && l == latest
                    &&& action matches UpdateAction::ReportUpdated { message } && message@
                        == spec_upgraded_message(loc@, pre.installed, latest)
                },
                Err(m) => {
                    &&& post.phase matches UpdatePhase::Failed { message } && message@ == m@
                    &&& action matches UpdateAction::Fail { message } && message@ == m@
                },
            }
        },
        _ => false,
    }
}

impl UpdateAction {
    /// The terminal outcome an action carries: both success reports yield
    /// exit code 0, a failure yields the message for the caller to report
    /// before exiting non-zero, and every other action is not terminal.
    pub fn outcome(&self) -> (r: Option<Result<i32, String>>)
        ensures
            match *self {
                UpdateAction::ReportUpToDate { .. } => r matches Some(Ok(code)) && code == 0,
                UpdateAction::ReportUpdated { .. } => r matches Some(Ok(code)) && code == 0,
                UpdateAction::Fail { message } => r matches Some(Err(m)) && m@ == message@,
                _ => r is None,
            },
    {
        match self {
            UpdateAction::ReportUpToDate { .. } => Some(Ok(0)),
            UpdateAction::ReportUpdated { .. } => Some(Ok(0)),
            UpdateAction::Fail { message } => Some(Err(message.clone())),
            _ => None,
        }
    }
}

/// How far along a phase is; every step moves strictly forward.
pub open spec fn phase_rank(p: UpdatePhase) -> nat {
    match p {
        UpdatePhase::CheckingVersion => 0,
        UpdatePhase::Downloading { .. } => 1,
        UpdatePhase::Installing { .. } => 2,
        UpdatePhase::CleaningUp { .. } => 3,
        UpdatePhase::UpToDate => 4,
        UpdatePhase::Done { .. } => 4,
        UpdatePhase::Failed { .. } => 4,
    }
}

/// Every step moves the flow strictly forward: no phase is ever revisited,
/// so no operation can begin before its predecessor settled, and the cleanup
/// phase is entered at most once per attempt.
pub proof fn lemma_step_moves_forward(
    pre: UpdateMachine,
    event: UpdateEvent,
    post: UpdateMachine,
    action: UpdateAction,
)
    requires
        step_spec(pre, event, post, action),
    ensures
        phase_rank(post.phase) > phase_rank(pre.phase),
{
}

/// The temp file is removed exactly on entry to the cleanup phase: once per
/// attempt that got past the version check, on success and on every failure
/// path alike.
pub proof fn lemma_cleanup_exactly_on_entry(
    pre: UpdateMachine,
    event: UpdateEvent,
    post: UpdateMachine,
    action: UpdateAction,
)
    requires
        step_spec(pre, event, post, action),
    ensures
        (action is RemoveTempFile) <==> (post.phase is CleaningUp),
        action matches UpdateAction::RemoveTempFile { path } ==> path@
            == spec_temp_download_path(),
{
}

/// A download is requested only from the version check, only when the feed
/// announced a strictly newer version, and only with the architecture
/// supported and the install location resolved. In particular: when the
/// installed version is already the latest, and when the architecture is
/// unsupported, no artifact request is ever issued.
pub proof fn lemma_no_download_unless_newer(
    pre: UpdateMachine,
    event: UpdateEvent,
    post: UpdateMachine,
    action: UpdateAction,
)
    requires
        step_spec(pre, event, post, action),
    ensures
        action is Download ==> {
            &&& pre.phase is CheckingVersion
            &&& event matches UpdateEvent::FeedChecked { response }
                && (spec_latest_of(response) matches Some(latest) && spec_version_lt(
                pre.installed,
                latest,
            ))
            &&& spec_arch_name(pre.platform_arch@) is Some
            &&& pre.bin_location is Some
            &&& post.phase is Downloading
        },
{
}

/// When the feed's latest version is not strictly newer than the installed
/// one, the attempt ends at once as a success: the machine reports being up
/// to date and issues no further action.
pub proof fn lemma_up_to_date_reports_success(
    pre: UpdateMachine,
    response: FeedResponse,
    post: UpdateMachine,
    action: UpdateAction,
    latest: Version,
)
    requires
        pre.phase is CheckingVersion,
        spec_latest_of(response) == Some(latest),
        !spec_version_lt(pre.installed, latest),
        step_spec(pre, UpdateEvent::FeedChecked { response }, post, action),
    ensures
        post.phase is UpToDate,
        action matches UpdateAction::ReportUpToDate { message } && message@
            == spec_up_to_date_message(pre.installed),
{
}

/// A feed check that yields no version aborts the attempt before anything
/// else happens: no download, no install, no cleanup — the machine fails
/// with the wrapped feed error.
pub proof fn lemma_feed_error_aborts(
    pre: UpdateMachine,
    response: FeedResponse,
    post: UpdateMachine,
    action: UpdateAction,
)
    requires
        pre.phase is CheckingVersion,
        spec_latest_of(response) is None,
        step_spec(pre, UpdateEvent::FeedChecked { response }, post, action),
    ensures
        post.phase is Failed,
        action matches UpdateAction::Fail { message } && message@ == spec_feed_failure_text(
            response,
        ),
{
}

/// An unsupported architecture fails the attempt before the artifact
/// download: the next action is the temp-file cleanup, never a download,
/// and the attempt then fails with the explicit message.
pub proof fn lemma_unsupported_arch_fails_before_download(
    pre: UpdateMachine,
    response: FeedResponse,
    post: UpdateMachine,
    action: UpdateAction,
    latest: Version,
)
    requires
        pre.phase is CheckingVersion,
        spec_latest_of(response) == Some(latest),
        spec_version_lt(pre.installed, latest),
        pre.bin_location is Some,
        spec_arch_name(pre.platform_arch@) is None,
        step_spec(pre, UpdateEvent::FeedChecked { response }, post, action),
    ensures
        action matches UpdateAction::RemoveTempFile { path } && path@
            == spec_temp_download_path(),
        post.phase matches UpdatePhase::CleaningUp { outcome, .. } && outcome matches Err(m) && m@
            == spec_unsupported_arch_message(pre.platform_arch@),
{
}

/// A failing install still cleans up, and leaves the previously installed
/// binary in place: the step after a failed rename is exactly the temp-file
/// removal, and the attempt then fails with the rename's own message.
pub proof fn lemma_failed_install_still_cleans(
    pre: UpdateMachine,
    message: String,
    post: UpdateMachine,
    action: UpdateAction,
)
    requires
        pre.phase is Installing,
        step_spec(
            pre,
            UpdateEvent::Installed { result: Err::<(), String>(message) },
            post,
            action,
        ),
    ensures
        action matches UpdateAction::RemoveTempFile { path } && path@
            == spec_temp_download_path(),
        post.phase matches UpdatePhase::CleaningUp { outcome, .. } && outcome matches Err(m) && m@
            == message@,
{
}

} // verus!
