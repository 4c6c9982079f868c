//! The desktop update lifecycle: checking, downloading with progress,
//! installing (after stopping only the owned proxy), restoring the proxy when
//! an install fails, and what the tray shows meanwhile.
//!
//! The update itself (its check, download and install) is done by the
//! caller; each method here takes one outcome and decides what follows.

use vstd::prelude::*;
use vstd::string::StringExecFns;
use crate::health::{dashboard_address, LiveProxy};
use crate::phase::{ProxyStatus, UpdatePhase};
use crate::proxy::{DesktopProxy, StartError};
use crate::text::{decimal, push_decimal, text_eq};

verus! {

/// The shell's record of the update lifecycle.
#[derive(Debug)]
pub struct DesktopUpdater {
    pub phase: UpdatePhase,
    /// Exit the shell, rather than restart it, once the update is installed.
    pub exit_after_update: bool,
    /// The owned proxy was stopped to install an update.
    pub owned_proxy_stopped: bool,
    /// A downloaded update waits to be installed (the caller holds it).
    pub pending_update: bool,
    pub pending_download: Option<Vec<u8>>,
    pub downloaded_bytes: u64,
    pub download_percent: Option<u8>,
}

/// The outcome of asking the update server for a newer version.
#[derive(Clone, Copy, Debug, PartialEq, Eq, Structural)]
pub enum UpdateCheck {
    Available,
    UpToDate,
    Failed,
}

/// What the tray's main update entry starts.
#[derive(Clone, Copy, Debug, PartialEq, Eq, Structural)]
pub enum UpdateAction {
    CheckForUpdates,
    Download,
    Install,
    RestoreProxy,
    Dismissed,
    Nothing,
}

/// What follows an install attempt.
#[derive(Clone, Copy, Debug, PartialEq, Eq, Structural)]
pub enum InstallOutcome {
    ExitApp,
    RestartApp,
    RestoreProxy,
    Failed,
}

/// The phases in which a pending "exit after update" choice is cleared.
pub open spec fn clears_exit_choice(phase: UpdatePhase) -> bool {
    !(phase is Checking || phase is Downloading || phase is Ready || phase is Installing)
}

/// An update is on its way: being downloaded, ready, or being installed.
pub open spec fn update_in_flight(phase: UpdatePhase) -> bool {
    phase is Downloading || phase is Ready || phase is Installing
}

/// Downloaded bytes after a chunk: the sum, held at `u64::MAX`.
pub open spec fn bytes_after(downloaded: u64, chunk: usize) -> u64 {
    if downloaded + chunk > u64::MAX {
        u64::MAX
    } else {
        (downloaded + chunk) as u64
    }
}

/// Download progress in percent: downloaded bytes times a hundred (held at
/// `u64::MAX`) over the announced length, at most a hundred; none where the
/// length is unknown or zero.
pub open spec fn progress_percent(downloaded: u64, content_length: Option<u64>) -> Option<u8> {
    match content_length {
        Some(len) => if len > 0 {
            let scaled = if downloaded * 100 > u64::MAX {
                u64::MAX as int
            } else {
                downloaded * 100
            };
            let p = scaled / (len as int);
            Some(
                (if p > 100 {
                    100
                } else {
                    p
                }) as u8,
            )
        } else {
            None
        },
        None => None,
    }
}

impl DesktopUpdater {
    /// The record is consistent: progress never exceeds a hundred percent,
    /// and a choice to exit after the update stands only while an update is
    /// on its way.
    pub open spec fn wf(&self) -> bool {
        &&& self.download_percent matches Some(p) ==> p <= 100
        &&& self.exit_after_update ==> update_in_flight(self.phase)
    }

    /// Idle, with nothing pending.
    pub fn new() -> (r: DesktopUpdater)
        ensures
            r.wf(),
            r.phase == UpdatePhase::Idle,
            !r.exit_after_update,
            !r.owned_proxy_stopped,
            !r.pending_update,
            r.pending_download is None,
            r.downloaded_bytes == 0,
            r.download_percent is None,
    {
        DesktopUpdater {
            phase: UpdatePhase::Idle,
            exit_after_update: false,
            owned_proxy_stopped: false,
            pending_update: false,
            pending_download: None,
            downloaded_bytes: 0,
            download_percent: None,
        }
    }

    /// Moves to `phase`. Phases in which the user can act again clear the
    /// choice to exit after the update; every phase but downloading clears
    /// the progress.
    pub fn set_phase(&mut self, phase: UpdatePhase)
        ensures
            final(self).phase == phase,
            final(self).exit_after_update == (!clears_exit_choice(phase) && old(self).exit_after_update),
            final(self).download_percent == (if phase is Downloading {
                old(self).download_percent
            } else {
                None
            }),
            final(self).owned_proxy_stopped == old(self).owned_proxy_stopped,
            final(self).pending_update == old(self).pending_update,
            final(self).pending_download == old(self).pending_download,
            final(self).downloaded_bytes == old(self).downloaded_bytes,
            old(self).wf() && (!(phase is Checking) || !old(self).exit_after_update) ==> final(self).wf(),
    {
        self.phase = phase;
        match phase {
            UpdatePhase::Checking | UpdatePhase::Downloading | UpdatePhase::Ready
            | UpdatePhase::Installing => {},
            _ => {
                self.exit_after_update = false;
            },
        }
        match phase {
            UpdatePhase::Downloading => {},
            _ => {
                self.download_percent = None;
            },
        }
    }

    /// The user asked to exit once the update is installed; this takes
    /// effect only while an update is being downloaded or installed.
    pub fn select_exit_after_update(&mut self)
        ensures
            final(self).exit_after_update == (old(self).exit_after_update
                || old(self).phase.spec_is_active()),
            final(self).phase == old(self).phase,
            final(self).owned_proxy_stopped == old(self).owned_proxy_stopped,
            final(self).pending_update == old(self).pending_update,
            final(self).pending_download == old(self).pending_download,
            final(self).downloaded_bytes == old(self).downloaded_bytes,
            final(self).download_percent == old(self).download_percent,
            old(self).wf() ==> final(self).wf(),
    {
        if self.phase.is_active() {
            self.exit_after_update = true;
        }
    }

    /// Counts a downloaded chunk and recomputes the progress.
    pub fn record_download_progress(&mut self, chunk_length: usize, content_length: Option<u64>)
        ensures
            final(self).downloaded_bytes == bytes_after(old(self).downloaded_bytes, chunk_length),
            final(self).download_percent == progress_percent(
                final(self).downloaded_bytes,
                content_length,
            ),
            final(self).phase == old(self).phase,
            final(self).exit_after_update == old(self).exit_after_update,
            final(self).owned_proxy_stopped == old(self).owned_proxy_stopped,
            final(self).pending_update == old(self).pending_update,
            final(self).pending_download == old(self).pending_download,
            old(self).wf() ==> final(self).wf(),
    {
        let downloaded = self.downloaded_bytes.saturating_add(chunk_length as u64);
        self.downloaded_bytes = downloaded;
        self.download_percent = match content_length {
            Some(len) => {
                if len > 0 {
                    let scaled = match downloaded.checked_mul(100) {
                        Some(v) => v,
                        None => u64::MAX,
                    };
                    let p = scaled / len;
                    let p = if p > 100 {
                        100
                    } else {
                        p
                    };
                    Some(p as u8)
                } else {
                    None
                }
            },
            None => None,
        };
    }

    /// A download starts: downloading, from zero bytes.
    pub fn begin_download(&mut self)
        ensures
            final(self).phase == UpdatePhase::Downloading,
            final(self).downloaded_bytes == 0,
            final(self).download_percent is None,
            final(self).exit_after_update == old(self).exit_after_update,
            final(self).owned_proxy_stopped == old(self).owned_proxy_stopped,
            final(self).pending_update == old(self).pending_update,
            final(self).pending_download == old(self).pending_download,
            old(self).wf() ==> final(self).wf(),
    {
        self.set_phase(UpdatePhase::Downloading);
        self.downloaded_bytes = 0;
        self.download_percent = None;
    }

    /// The download's update check answered: go on downloading only when an
    /// update is available.
    pub fn download_checked(&mut self, check: UpdateCheck) -> (r: bool)
        ensures
            r == (check == UpdateCheck::Available),
            r ==> *final(self) == *old(self),
            check == UpdateCheck::UpToDate ==> final(self).phase == UpdatePhase::NoUpdate,
            check == UpdateCheck::Failed ==> final(self).phase == UpdatePhase::DownloadFailed,
            !r ==> !final(self).exit_after_update && final(self).download_percent is None,
            final(self).pending_update == old(self).pending_update,
            final(self).pending_download == old(self).pending_download,
            final(self).owned_proxy_stopped == old(self).owned_proxy_stopped,
            old(self).wf() ==> final(self).wf(),
            final(self).downloaded_bytes == old(self).downloaded_bytes,
    {
        match check {
            UpdateCheck::Available => true,
            UpdateCheck::UpToDate => {
                self.set_phase(UpdatePhase::NoUpdate);
                false
            },
            UpdateCheck::Failed => {
                self.set_phase(UpdatePhase::DownloadFailed);
                false
            },
        }
    }

    /// The download could not be made (no updater, or the download broke
    /// off): the download failed, which the user can retry or dismiss.
    pub fn download_failed(&mut self)
        ensures
            final(self).phase == UpdatePhase::DownloadFailed,
            !final(self).exit_after_update,
            final(self).download_percent is None,
            final(self).owned_proxy_stopped == old(self).owned_proxy_stopped,
            final(self).pending_update == old(self).pending_update,
            final(self).pending_download == old(self).pending_download,
            final(self).downloaded_bytes == old(self).downloaded_bytes,
            old(self).wf() ==> final(self).wf(),
    {
        self.set_phase(UpdatePhase::DownloadFailed);
    }

    /// The download finished: the update waits to be installed.
    pub fn finish_download(&mut self, download: Vec<u8>)
        ensures
            final(self).phase == UpdatePhase::Ready,
            final(self).pending_update,
            final(self).pending_download == Some(download),
            final(self).download_percent is None,
            final(self).exit_after_update == old(self).exit_after_update,
            final(self).owned_proxy_stopped == old(self).owned_proxy_stopped,
            final(self).downloaded_bytes == old(self).downloaded_bytes,
            old(self).wf() ==> final(self).wf(),
    {
        self.pending_update = true;
        self.pending_download = Some(download);
        self.phase = UpdatePhase::Ready;
        self.download_percent = None;
    }

    /// An update check finished: available, up to date, or failed.
    pub fn check_finished(&mut self, check: UpdateCheck)
        ensures
            final(self).phase == match check {
                UpdateCheck::Available => UpdatePhase::Available,
                UpdateCheck::UpToDate => UpdatePhase::NoUpdate,
                UpdateCheck::Failed => UpdatePhase::CheckFailed,
            },
            !final(self).exit_after_update,
            final(self).download_percent is None,
            final(self).owned_proxy_stopped == old(self).owned_proxy_stopped,
            final(self).pending_update == old(self).pending_update,
            final(self).pending_download == old(self).pending_download,
            final(self).downloaded_bytes == old(self).downloaded_bytes,
            old(self).wf() ==> final(self).wf(),
    {
        let phase = match check {
            UpdateCheck::Available => UpdatePhase::Available,
            UpdateCheck::UpToDate => UpdatePhase::NoUpdate,
            UpdateCheck::Failed => UpdatePhase::CheckFailed,
        };
        self.set_phase(phase);
    }

    /// Before installing, the owned proxy (if any) was asked to stop:
    /// `stopped` is `Ok(true)` when an owned proxy stopped, `Ok(false)` when
    /// none was owned, and an error when stopping failed. Returns whether to
    /// go on with the install.
    pub fn proxy_stopped_for_install(&mut self, stopped: Result<bool, String>) -> (r: bool)
        ensures
            r == (stopped is Ok),
            match stopped {
                Ok(true) => final(self).owned_proxy_stopped && final(self).phase == old(self).phase && final(self).exit_after_update == old(self).exit_after_update,
                Ok(false) => *final(self) == *old(self),
                Err(_) => final(self).phase == UpdatePhase::StopFailed
                    && final(self).owned_proxy_stopped == old(self).owned_proxy_stopped
                    && !final(self).exit_after_update,
            },
            final(self).pending_update == old(self).pending_update,
            final(self).pending_download == old(self).pending_download,
            old(self).wf() ==> final(self).wf(),
            final(self).downloaded_bytes == old(self).downloaded_bytes,
            stopped is Ok ==> final(self).download_percent == old(self).download_percent,
            stopped is Err ==> final(self).download_percent is None,
    {
        match stopped {
            Ok(true) => {
                self.owned_proxy_stopped = true;
                true
            },
            Ok(false) => true,
            Err(_) => {
                self.set_phase(UpdatePhase::StopFailed);
                false
            },
        }
    }

    /// Takes the downloaded update for installing. Without a pending update
    /// nothing changes; a pending update without its download is dropped;
    /// otherwise the phase becomes installing and the download is handed out.
    pub fn take_pending_install(&mut self) -> (r: Option<Vec<u8>>)
        ensures
            !old(self).pending_update ==> r is None && *final(self) == *old(self),
            old(self).pending_update ==> {
                &&& !final(self).pending_update
                &&& r == old(self).pending_download
                &&& final(self).pending_download is None
                &&& final(self).phase == (if r is Some {
                    UpdatePhase::Installing
                } else {
                    old(self).phase
                })
            },
            final(self).exit_after_update == old(self).exit_after_update,
            final(self).owned_proxy_stopped == old(self).owned_proxy_stopped,
            final(self).download_percent == old(self).download_percent,
            old(self).wf() && (r is None || update_in_flight(old(self).phase) || !old(self).exit_after_update) ==> final(self).wf(),
            final(self).downloaded_bytes == old(self).downloaded_bytes,
    {
        if !self.pending_update {
            return None;
        }
        self.pending_update = false;
        match self.pending_download.take() {
            Some(download) => {
                self.phase = UpdatePhase::Installing;
                Some(download)
            },
            None => None,
        }
    }

    /// The install attempt ended. Success exits or restarts the shell, as the
    /// user chose; a failure restores the owned proxy when it was stopped for
    /// the install, and is otherwise reported as an install failure.
    pub fn install_finished(&mut self, succeeded: bool) -> (r: InstallOutcome)
        ensures
            succeeded ==> r == (if old(self).exit_after_update {
                InstallOutcome::ExitApp
            } else {
                InstallOutcome::RestartApp
            }) && *final(self) == *old(self),
            !succeeded && old(self).owned_proxy_stopped ==> r == InstallOutcome::RestoreProxy
                && *final(self) == *old(self),
            !succeeded && !old(self).owned_proxy_stopped ==> r == InstallOutcome::Failed
                && final(self).phase == UpdatePhase::InstallFailed && !final(self).exit_after_update,
            final(self).owned_proxy_stopped == old(self).owned_proxy_stopped,
            old(self).wf() ==> final(self).wf(),
            final(self).pending_update == old(self).pending_update,
            final(self).pending_download == old(self).pending_download,
            final(self).downloaded_bytes == old(self).downloaded_bytes,
            !succeeded && !old(self).owned_proxy_stopped ==> final(self).download_percent is None,
    {
        if succeeded {
            if self.exit_after_update {
                InstallOutcome::ExitApp
            } else {
                InstallOutcome::RestartApp
            }
        } else if self.owned_proxy_stopped {
            InstallOutcome::RestoreProxy
        } else {
            self.set_phase(UpdatePhase::InstallFailed);
            InstallOutcome::Failed
        }
    }

    /// Restoring the proxy begins, when it was stopped for an install;
    /// returns whether there is anything to restore.
    pub fn begin_recovery(&mut self) -> (r: bool)
        ensures
            r == old(self).owned_proxy_stopped,
            !r ==> *final(self) == *old(self),
            r ==> final(self).phase == UpdatePhase::Recovering && !final(self).exit_after_update,
            final(self).owned_proxy_stopped == old(self).owned_proxy_stopped,
            final(self).pending_update == old(self).pending_update,
            final(self).pending_download == old(self).pending_download,
            old(self).wf() ==> final(self).wf(),
            final(self).downloaded_bytes == old(self).downloaded_bytes,
            r ==> final(self).download_percent is None,
    {
        if !self.owned_proxy_stopped {
            return false;
        }
        self.set_phase(UpdatePhase::Recovering);
        true
    }

    /// Restoring the proxy ended: restored (the proxy is no longer marked as
    /// stopped) or failed.
    pub fn finish_recovery(&mut self, restarted: bool)
        ensures
            final(self).phase == (if restarted {
                UpdatePhase::Recovered
            } else {
                UpdatePhase::RecoveryFailed
            }),
            final(self).owned_proxy_stopped == (old(self).owned_proxy_stopped && !restarted),
            final(self).exit_after_update == old(self).exit_after_update,
            final(self).pending_update == old(self).pending_update,
            final(self).pending_download == old(self).pending_download,
            final(self).download_percent == old(self).download_percent,
            old(self).wf() && !old(self).exit_after_update ==> final(self).wf(),
            final(self).downloaded_bytes == old(self).downloaded_bytes,
    {
        if restarted {
            self.owned_proxy_stopped = false;
            self.phase = UpdatePhase::Recovered;
        } else {
            self.phase = UpdatePhase::RecoveryFailed;
        }
    }

    /// Drops the pending update and goes back to idle.
    pub fn dismiss(&mut self)
        ensures
            final(self).phase == UpdatePhase::Idle,
            !final(self).pending_update,
            final(self).pending_download is None,
            final(self).downloaded_bytes == 0,
            final(self).download_percent is None,
            !final(self).exit_after_update,
            final(self).owned_proxy_stopped == old(self).owned_proxy_stopped,
            final(self).wf(),
    {
        self.pending_update = false;
        self.pending_download = None;
        self.downloaded_bytes = 0;
        self.download_percent = None;
        self.phase = UpdatePhase::Idle;
        self.exit_after_update = false;
    }

    /// The tray's main update entry was clicked. Checking and downloading
    /// start here (their first step is taken); installing and restoring the
    /// proxy are left to the caller; a restored proxy's notice is dismissed;
    /// while work runs nothing happens.
    pub fn handle_update_action(&mut self) -> (r: UpdateAction)
        ensures
            r == match old(self).phase {
                UpdatePhase::Idle | UpdatePhase::NoUpdate | UpdatePhase::CheckFailed =>
                    UpdateAction::CheckForUpdates,
                UpdatePhase::Available | UpdatePhase::DownloadFailed
                | UpdatePhase::InstallFailed => UpdateAction::Download,
                UpdatePhase::Ready | UpdatePhase::StopFailed => UpdateAction::Install,
                UpdatePhase::RecoveryFailed => UpdateAction::RestoreProxy,
                UpdatePhase::Recovered => UpdateAction::Dismissed,
                _ => UpdateAction::Nothing,
            },
            r == UpdateAction::CheckForUpdates ==> final(self).phase == UpdatePhase::Checking
                && final(self).download_percent is None,
            r == UpdateAction::Download ==> final(self).phase == UpdatePhase::Downloading
                && final(self).downloaded_bytes == 0 && final(self).download_percent is None,
            r == UpdateAction::Dismissed ==> final(self).phase == UpdatePhase::Idle
                && !final(self).pending_update && final(self).pending_download is None,
            r == UpdateAction::Install || r == UpdateAction::RestoreProxy || r
                == UpdateAction::Nothing ==> *final(self) == *old(self),
            r != UpdateAction::Dismissed ==> final(self).pending_update == old(self).pending_update
                && final(self).pending_download == old(self).pending_download,
            final(self).owned_proxy_stopped == old(self).owned_proxy_stopped,
            r != UpdateAction::Dismissed ==> final(self).exit_after_update == old(self).exit_after_update,
            r == UpdateAction::Dismissed ==> !final(self).exit_after_update,
            old(self).wf() ==> final(self).wf(),
            r == UpdateAction::CheckForUpdates ==> final(self).downloaded_bytes == old(self).downloaded_bytes,
            r == UpdateAction::Dismissed ==> final(self).downloaded_bytes == 0 && final(self).download_percent is None,
    {
        match self.phase {
            UpdatePhase::Idle | UpdatePhase::NoUpdate | UpdatePhase::CheckFailed => {
                self.set_phase(UpdatePhase::Checking);
                UpdateAction::CheckForUpdates
            },
            UpdatePhase::Available | UpdatePhase::DownloadFailed | UpdatePhase::InstallFailed => {
                self.begin_download();
                UpdateAction::Download
            },
            UpdatePhase::Ready | UpdatePhase::StopFailed => UpdateAction::Install,
            UpdatePhase::RecoveryFailed => UpdateAction::RestoreProxy,
            UpdatePhase::Recovered => {
                self.dismiss();
                UpdateAction::Dismissed
            },
            _ => UpdateAction::Nothing,
        }
    }

    /// The tray's secondary update entry was clicked: where the phase offers
    /// it ("Not now" or "Dismiss"), the update is dismissed.
    pub fn handle_update_secondary_action(&mut self) -> (r: bool)
        ensures
            r == old(self).phase.spec_secondary_label() is Some,
            r <==> (old(self).phase is Available || old(self).phase is Ready || old(self).phase
                is DownloadFailed || old(self).phase is InstallFailed || old(self).phase
                is Recovered),
            r ==> final(self).phase == UpdatePhase::Idle && !final(self).pending_update
                && final(self).pending_download is None && final(self).downloaded_bytes == 0
                && final(self).download_percent is None && !final(self).exit_after_update
                && final(self).owned_proxy_stopped == old(self).owned_proxy_stopped,
            !r ==> *final(self) == *old(self),
            old(self).wf() ==> final(self).wf(),
    {
        match self.phase {
            UpdatePhase::Available | UpdatePhase::Ready | UpdatePhase::DownloadFailed
            | UpdatePhase::InstallFailed | UpdatePhase::Recovered => {
                self.dismiss();
                true
            },
            _ => false,
        }
    }
}

impl Default for DesktopUpdater {
    fn default() -> (r: DesktopUpdater)
        ensures
            r.wf(),
            r.phase == UpdatePhase::Idle,
            !r.exit_after_update,
            !r.owned_proxy_stopped,
            !r.pending_update,
            r.pending_download is None,
            r.downloaded_bytes == 0,
            r.download_percent is None,
    {
        DesktopUpdater::new()
    }
}

/// What the tray shows.
#[derive(Debug)]
pub struct TrayView {
    pub status: &'static str,
    pub restart_enabled: bool,
    pub update_status: String,
    pub update_action: &'static str,
    pub update_action_enabled: bool,
    /// The secondary entry's text where it is enabled; disabled where `None`.
    pub update_secondary: Option<&'static str>,
    pub exit_after_update_enabled: bool,
}

/// The update status line: the phase's label, followed by the progress
/// where there is one.
pub open spec fn update_status_text(phase: UpdatePhase, percent: Option<u8>) -> Seq<char> {
    match percent {
        Some(p) => phase.spec_label() + " "@ + decimal(p as nat) + "%"@,
        None => phase.spec_label(),
    }
}

/// What the tray shows for the proxy and the update. A restart is offered
/// only for an owned proxy and only while no update work blocks it; "exit
/// after update" only while an update is downloaded or installed and not yet
/// chosen.
pub fn update_tray(proxy: &DesktopProxy, updater: &DesktopUpdater) -> (r: TrayView)
    ensures
        r.status@ == proxy.status.spec_label(),
        r.restart_enabled == (proxy.owned is Some && !updater.phase.spec_blocks_proxy_restart()),
        r.update_status@ == update_status_text(updater.phase, updater.download_percent),
        r.update_action@ == updater.phase.spec_action_label(),
        r.update_action_enabled == !updater.phase.spec_is_working(),
        r.update_secondary is Some == updater.phase.spec_secondary_label() is Some,
        r.update_secondary matches Some(t) ==> t@ == updater.phase.spec_secondary_label()->0,
        r.exit_after_update_enabled == (updater.phase.spec_is_active()
            && !updater.exit_after_update),
{
    let mut update_status = String::from_str(updater.phase.label());
    match updater.download_percent {
        Some(p) => {
            update_status.append(" ");
            push_decimal(&mut update_status, p as u64);
            update_status.append("%");
        },
        None => {},
    }
    TrayView {
        status: proxy.status.label(),
        restart_enabled: proxy.owned.is_some() && !updater.phase.blocks_proxy_restart(),
        update_status,
        update_action: updater.phase.action_label(),
        update_action_enabled: updater.phase.action_enabled(),
        update_secondary: updater.phase.secondary_label(),
        exit_after_update_enabled: updater.phase.is_active() && !updater.exit_after_update,
    }
}

/// The event the dashboard window receives when a start ends.
#[derive(Debug)]
pub struct StartupEvent {
    pub state: &'static str,
    pub url: Option<String>,
}

/// The text a start error is reported with.
pub open spec fn start_error_text(e: StartError) -> Seq<char> {
    match e {
        StartError::Slow => "startup is still in progress"@,
        StartError::Failed(m) => m@,
    }
}

/// The event for the end of a start: ready with the dashboard's address;
/// slow when the start is still in progress; failed otherwise, with the
/// message to log.
pub fn startup_event(result: Result<LiveProxy, StartError>) -> (r: (StartupEvent, Option<String>))
    ensures
        match result {
            Ok(live) => {
                &&& r.0.state@ == "ready"@
                &&& r.0.url matches Some(u) && u@ == dashboard_address(live.hostname@, live.port)
                &&& r.1 is None
            },
            Err(e) => if start_error_text(e) == "startup is still in progress"@ {
                &&& r.0.state@ == "slow"@
                &&& r.0.url is None
                &&& r.1 is None
            } else {
                &&& r.0.state@ == "failed"@
                &&& r.0.url is None
                &&& r.1 matches Some(m) && m@ == start_error_text(e)
            },
        },
{
    match result {
        Ok(live) => (StartupEvent { state: "ready", url: Some(live.dashboard_url()) }, None),
        Err(e) => {
            let message = match e {
                StartError::Slow => String::from_str("startup is still in progress"),
                StartError::Failed(m) => m,
            };
            if text_eq(message.as_str(), "startup is still in progress") {
                (StartupEvent { state: "slow", url: None }, None)
            } else {
                (StartupEvent { state: "failed", url: None }, Some(message))
            }
        },
    }
}

/// Download progress reports a hundred percent exactly when the announced
/// length has been downloaded (while the byte count times a hundred fits
/// in 64 bits).
pub proof fn lemma_progress_complete(downloaded: u64, len: u64)
    requires
        len > 0,
        downloaded * 100 <= u64::MAX,
    ensures
        (progress_percent(downloaded, Some(len)) == Some(100u8)) <==> downloaded >= len,
{
    let scaled = downloaded * 100;
    if downloaded >= len {
        assert(scaled / (len as int) >= 100) by (nonlinear_arith)
            requires
                scaled == downloaded * 100,
                downloaded >= len,
                len > 0,
        ;
    } else {
        assert(scaled / (len as int) < 100) by (nonlinear_arith)
            requires
                scaled == downloaded * 100,
                downloaded < len,
                len > 0,
        ;
    }
}

/// Download progress is the whole percentage of the announced length that
/// has been downloaded: `p` percent means at least `p` and less than `p + 1`
/// hundredths of the length, capped at a hundred (while the byte count
/// times a hundred fits in 64 bits).
pub proof fn lemma_progress_is_whole_percent(downloaded: u64, len: u64)
    requires
        len > 0,
        downloaded * 100 <= u64::MAX,
    ensures
        progress_percent(downloaded, Some(len)) is Some,
        ({
            let p = progress_percent(downloaded, Some(len))->0 as int;
            &&& p <= 100
            &&& p < 100 ==> p * len <= downloaded * 100 < (p + 1) * len
            &&& p == 100 ==> 100 * len <= downloaded * 100
        }),
{
    let scaled = downloaded * 100;
    let q = scaled / (len as int);
    assert(q * len <= scaled < (q + 1) * len) by (nonlinear_arith)
        requires
            q == scaled / (len as int),
            len > 0,
            scaled >= 0,
    ;
    assert(q >= 0) by (nonlinear_arith)
        requires
            q == scaled / (len as int),
            len > 0,
            scaled >= 0,
    ;
    if q > 100 {
        assert(100 * len <= q * len) by (nonlinear_arith)
            requires
                q > 100,
                len > 0,
        ;
    }
}

/// Download progress never goes backwards: more downloaded bytes of the
/// same announced length never show a smaller percentage.
pub proof fn lemma_progress_monotonic(d1: u64, d2: u64, len: u64)
    requires
        d1 <= d2,
        len > 0,
    ensures
        progress_percent(d1, Some(len))->0 <= progress_percent(d2, Some(len))->0,
{
    let s1: int = if d1 * 100 > u64::MAX {
        u64::MAX as int
    } else {
        d1 * 100
    };
    let s2: int = if d2 * 100 > u64::MAX {
        u64::MAX as int
    } else {
        d2 * 100
    };
    assert(s1 <= s2);
    assert(s1 / (len as int) <= s2 / (len as int)) by (nonlinear_arith)
        requires
            s1 <= s2,
            0 <= s1,
            len > 0,
    ;
}

} // verus!
