//! Update phases and proxy statuses, and the tray texts that describe them.

use vstd::prelude::*;

verus! {

/// What the tray reports about the local proxy.
#[derive(Clone, Copy, Debug, PartialEq, Eq, Structural)]
pub enum ProxyStatus {
    Starting,
    Owned,
    Attached,
    Unavailable,
}

impl ProxyStatus {
    pub open spec fn spec_label(self) -> Seq<char> {
        match self {
            ProxyStatus::Starting => "Proxy: starting"@,
            ProxyStatus::Owned => "Proxy: running"@,
            ProxyStatus::Attached => "Proxy: attached"@,
            ProxyStatus::Unavailable => "Proxy: unavailable"@,
        }
    }

    /// The tray's status line for this proxy status.
    pub fn label(self) -> (r: &'static str)
        ensures
            r@ == self.spec_label(),
    {
        match self {
            ProxyStatus::Starting => "Proxy: starting",
            ProxyStatus::Owned => "Proxy: running",
            ProxyStatus::Attached => "Proxy: attached",
            ProxyStatus::Unavailable => "Proxy: unavailable",
        }
    }
}


/// Where the desktop update lifecycle stands.
#[derive(Clone, Copy, Debug, PartialEq, Eq, Structural)]
pub enum UpdatePhase {
    Idle,
    Checking,
    NoUpdate,
    CheckFailed,
    Available,
    Downloading,
    DownloadFailed,
    Ready,
    Installing,
    InstallFailed,
    StopFailed,
    Recovering,
    RecoveryFailed,
    Recovered,
}

impl UpdatePhase {
    pub open spec fn spec_label(self) -> Seq<char> {
        match self {
            UpdatePhase::Idle => "Update: Check for updates"@,
            UpdatePhase::Checking => "Update: Checking for updates..."@,
            UpdatePhase::NoUpdate => "Update: No updates available"@,
            UpdatePhase::CheckFailed => "Update: Couldn't check for updates"@,
            UpdatePhase::Available => "Update: Available"@,
            UpdatePhase::Downloading => "Update: Downloading\u{2026}"@,
            UpdatePhase::DownloadFailed => "Update: Download failed"@,
            UpdatePhase::Ready => "Update: Ready to install"@,
            UpdatePhase::Installing => "Update: Installing..."@,
            UpdatePhase::InstallFailed => "Update: Installation failed"@,
            UpdatePhase::StopFailed => "Update: Proxy couldn't stop"@,
            UpdatePhase::Recovering => "Update: Restoring proxy..."@,
            UpdatePhase::RecoveryFailed => "Update: Proxy restart failed"@,
            UpdatePhase::Recovered => "Update: Install failed; proxy restored"@,
        }
    }

    /// The tray's update status line for this phase.
    pub fn label(self) -> (r: &'static str)
        ensures
            r@ == self.spec_label(),
    {
        match self {
            UpdatePhase::Idle => "Update: Check for updates",
            UpdatePhase::Checking => "Update: Checking for updates...",
            UpdatePhase::NoUpdate => "Update: No updates available",
            UpdatePhase::CheckFailed => "Update: Couldn't check for updates",
            UpdatePhase::Available => "Update: Available",
            UpdatePhase::Downloading => "Update: Downloading\u{2026}",
            UpdatePhase::DownloadFailed => "Update: Download failed",
            UpdatePhase::Ready => "Update: Ready to install",
            UpdatePhase::Installing => "Update: Installing...",
            UpdatePhase::InstallFailed => "Update: Installation failed",
            UpdatePhase::StopFailed => "Update: Proxy couldn't stop",
            UpdatePhase::Recovering => "Update: Restoring proxy...",
            UpdatePhase::RecoveryFailed => "Update: Proxy restart failed",
            UpdatePhase::Recovered => "Update: Install failed; proxy restored",
        }
    }

    pub open spec fn spec_action_label(self) -> Seq<char> {
        match self {
            UpdatePhase::Idle | UpdatePhase::NoUpdate => "Check for Updates"@,
            UpdatePhase::CheckFailed => "Try again"@,
            UpdatePhase::Available => "Download and install"@,
            UpdatePhase::DownloadFailed => "Retry download"@,
            UpdatePhase::InstallFailed => "Retry download"@,
            UpdatePhase::Ready => "Install and restart"@,
            UpdatePhase::StopFailed => "Retry proxy stop"@,
            UpdatePhase::RecoveryFailed => "Retry proxy start"@,
            UpdatePhase::Recovered => "Dismiss"@,
            UpdatePhase::Checking | UpdatePhase::Downloading | UpdatePhase::Installing
            | UpdatePhase::Recovering => "Working..."@,
        }
    }

    /// The text of the tray's main update entry in this phase.
    pub fn action_label(self) -> (r: &'static str)
        ensures
            r@ == self.spec_action_label(),
    {
        match self {
            UpdatePhase::Idle | UpdatePhase::NoUpdate => "Check for Updates",
            UpdatePhase::CheckFailed => "Try again",
            UpdatePhase::Available => "Download and install",
            UpdatePhase::DownloadFailed => "Retry download",
            UpdatePhase::InstallFailed => "Retry download",
            UpdatePhase::Ready => "Install and restart",
            UpdatePhase::StopFailed => "Retry proxy stop",
            UpdatePhase::RecoveryFailed => "Retry proxy start",
            UpdatePhase::Recovered => "Dismiss",
            UpdatePhase::Checking | UpdatePhase::Downloading | UpdatePhase::Installing
            | UpdatePhase::Recovering => "Working...",
        }
    }

    /// Work runs in the background in this phase (checking, downloading,
    /// installing or restoring the proxy).
    pub open spec fn spec_is_working(self) -> bool {
        self is Checking || self is Downloading || self is Installing || self is Recovering
    }

    /// The tray's main update entry can be clicked in this phase: exactly
    /// when no background work runs.
    pub fn action_enabled(self) -> (r: bool)
        ensures
            r == !self.spec_is_working(),
    {
        match self {
            UpdatePhase::Idle | UpdatePhase::NoUpdate | UpdatePhase::CheckFailed
            | UpdatePhase::Available | UpdatePhase::DownloadFailed | UpdatePhase::Ready
            | UpdatePhase::InstallFailed | UpdatePhase::StopFailed | UpdatePhase::RecoveryFailed
            | UpdatePhase::Recovered => true,
            _ => false,
        }
    }

    pub open spec fn spec_blocks_proxy_restart(self) -> bool {
        self is Checking || self is Downloading || self is Installing
    }

    /// A proxy restart from the tray is refused in this phase.
    pub fn blocks_proxy_restart(self) -> (r: bool)
        ensures
            r == self.spec_blocks_proxy_restart(),
            r <==> (self is Checking || self is Downloading || self is Installing),
    {
        matches!(self, UpdatePhase::Checking | UpdatePhase::Downloading | UpdatePhase::Installing)
    }

    pub open spec fn spec_is_active(self) -> bool {
        self is Downloading || self is Installing
    }

    /// An update is being downloaded or installed.
    pub fn is_active(self) -> (r: bool)
        ensures
            r == self.spec_is_active(),
    {
        matches!(self, UpdatePhase::Downloading | UpdatePhase::Installing)
    }

    pub open spec fn spec_secondary_label(self) -> Option<Seq<char>> {
        match self {
            UpdatePhase::Available | UpdatePhase::Ready => Some("Not now"@),
            UpdatePhase::DownloadFailed | UpdatePhase::InstallFailed | UpdatePhase::Recovered => Some(
                "Dismiss"@,
            ),
            _ => None,
        }
    }

    /// The text of the tray's secondary update entry, where the phase offers one.
    pub fn secondary_label(self) -> (r: Option<&'static str>)
        ensures
            r is Some == self.spec_secondary_label() is Some,
            r matches Some(t) ==> t@ == self.spec_secondary_label()->0,
            r is Some <==> (self is Available || self is Ready || self is DownloadFailed
                || self is InstallFailed || self is Recovered),
    {
        match self {
            UpdatePhase::Available | UpdatePhase::Ready => Some("Not now"),
            UpdatePhase::DownloadFailed | UpdatePhase::InstallFailed | UpdatePhase::Recovered => Some(
                "Dismiss",
            ),
            _ => None,
        }
    }
}

/// Reads back the phase from its status line: the lines differ in their
/// length or in their first letter after "Update: ".
spec fn phase_of_label(t: Seq<char>) -> Option<UpdatePhase> {
    if t.len() == 25 {
        Some(UpdatePhase::Idle)
    } else if t.len() == 31 {
        Some(UpdatePhase::Checking)
    } else if t.len() == 28 && t[8] == 'N' {
        Some(UpdatePhase::NoUpdate)
    } else if t.len() == 34 {
        Some(UpdatePhase::CheckFailed)
    } else if t.len() == 17 {
        Some(UpdatePhase::Available)
    } else if t.len() == 20 {
        Some(UpdatePhase::Downloading)
    } else if t.len() == 23 {
        Some(UpdatePhase::DownloadFailed)
    } else if t.len() == 24 {
        Some(UpdatePhase::Ready)
    } else if t.len() == 21 {
        Some(UpdatePhase::Installing)
    } else if t.len() == 27 && t[8] == 'I' {
        Some(UpdatePhase::InstallFailed)
    } else if t.len() == 27 && t[8] == 'P' {
        Some(UpdatePhase::StopFailed)
    } else if t.len() == 26 {
        Some(UpdatePhase::Recovering)
    } else if t.len() == 28 && t[8] == 'P' {
        Some(UpdatePhase::RecoveryFailed)
    } else if t.len() == 38 {
        Some(UpdatePhase::Recovered)
    } else {
        None
    }
}

proof fn lemma_phase_of_label(p: UpdatePhase)
    ensures
        phase_of_label(p.spec_label()) == Some(p),
{
    match p {
        UpdatePhase::Idle => {
            reveal_strlit("Update: Check for updates");
        },
        UpdatePhase::Checking => {
            reveal_strlit("Update: Checking for updates...");
        },
        UpdatePhase::NoUpdate => {
            reveal_strlit("Update: No updates available");
        },
        UpdatePhase::CheckFailed => {
            reveal_strlit("Update: Couldn't check for updates");
        },
        UpdatePhase::Available => {
            reveal_strlit("Update: Available");
        },
        UpdatePhase::Downloading => {
            reveal_strlit("Update: Downloading\u{2026}");
        },
        UpdatePhase::DownloadFailed => {
            reveal_strlit("Update: Download failed");
        },
        UpdatePhase::Ready => {
            reveal_strlit("Update: Ready to install");
        },
        UpdatePhase::Installing => {
            reveal_strlit("Update: Installing...");
        },
        UpdatePhase::InstallFailed => {
            reveal_strlit("Update: Installation failed");
        },
        UpdatePhase::StopFailed => {
            reveal_strlit("Update: Proxy couldn't stop");
        },
        UpdatePhase::Recovering => {
            reveal_strlit("Update: Restoring proxy...");
        },
        UpdatePhase::RecoveryFailed => {
            reveal_strlit("Update: Proxy restart failed");
        },
        UpdatePhase::Recovered => {
            reveal_strlit("Update: Install failed; proxy restored");
        },
    }
}

/// Every update phase has a status line of its own: no two phases share
/// one, so the tray's status line always tells the phase.
pub proof fn lemma_update_labels_are_distinct(p: UpdatePhase, q: UpdatePhase)
    ensures
        p.spec_label() == q.spec_label() ==> p == q,
{
    lemma_phase_of_label(p);
    lemma_phase_of_label(q);
}

/// A proxy restart is refused exactly while update work other than
/// restoring the proxy runs: checking, downloading or installing. After a
/// failure, while an update waits, or while nothing happens, a restart is
/// allowed.
pub proof fn lemma_restart_blocked_only_by_update_work(p: UpdatePhase)
    ensures
        p.spec_blocks_proxy_restart() <==> (p.spec_is_working() && !(p is Recovering)),
        p.spec_is_active() ==> p.spec_blocks_proxy_restart(),
        p.spec_blocks_proxy_restart() <==> (p is Checking || p is Downloading || p is Installing),
{
}

/// The secondary update entry is offered exactly where an update or its
/// failure can be set aside: an available or ready update, a failed
/// download or install, or a proxy restored after a failed install. In
/// every other phase (in particular while work runs and after a failed
/// proxy restart) there is none.
pub proof fn lemma_secondary_entry_phases(p: UpdatePhase)
    ensures
        p.spec_secondary_label() is Some <==> (p is Available || p is Ready || p is DownloadFailed
            || p is InstallFailed || p is Recovered),
        p.spec_is_working() ==> p.spec_secondary_label() is None,
        p is RecoveryFailed || p is StopFailed ==> p.spec_secondary_label() is None,
{
}

} // verus!
