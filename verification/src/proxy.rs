//! The proxy state machine of the desktop shell. The shell either owns a
//! proxy it launched itself or attaches to a healthy proxy started by
//! something else; it may stop only the one it owns.
//!
//! Each method here is one decision of the shell, taken on what the outside
//! world reported (a health probe, a launch, a process exit); the caller
//! performs the launches, probes, waits and kills.

use vstd::prelude::*;
use vstd::string::StringExecFns;
use crate::health::{LiveProxy, LiveProxyView};
use crate::phase::ProxyStatus;

verus! {

/// The proxy process that this shell launched and may stop, with the
/// private control request that asks it to shut down.
#[derive(Debug)]
pub struct OwnedProxy {
    pub pid: u32,
    pub control_file: String,
    pub control_token: String,
}

/// What the shell knows of its proxy.
#[derive(Debug)]
pub struct DesktopProxy {
    pub owned: Option<OwnedProxy>,
    pub attached: Option<LiveProxy>,
    pub status: ProxyStatus,
}

/// Why a start did not end with a ready proxy.
#[derive(Debug)]
pub enum StartError {
    /// The owned proxy did not answer before the deadline; it may still come up.
    Slow,
    /// The start failed, with a message for the user.
    Failed(String),
}

/// The next thing to do to start or attach.
#[derive(Debug)]
pub enum StartStep {
    /// A proxy is owned already: wait for it to become ready.
    WaitForOwned,
    /// A healthy proxy was found and attached.
    Attached(LiveProxy),
    /// Nothing runs: launch a new owned proxy.
    StartNew,
}

/// The outcome of one look at a launched proxy.
#[derive(Debug)]
pub enum WaitStep {
    /// The owned proxy answered its health probe.
    Ready(LiveProxy),
    /// The owned proxy exited first.
    Exited(StartError),
    /// Neither yet: look again.
    Pending,
}

pub open spec fn opt_live_view(p: Option<LiveProxy>) -> Option<LiveProxyView> {
    match p {
        Some(l) => Some(l@),
        None => None,
    }
}

impl DesktopProxy {
    /// The shell's record is consistent: it never owns and attaches at once,
    /// and it reports a running or attached proxy only when it has one.
    pub open spec fn wf(&self) -> bool {
        &&& !(self.owned is Some && self.attached is Some)
        &&& self.status is Owned ==> self.owned is Some
        &&& self.status is Attached ==> self.attached is Some
    }

    /// Starting, with no proxy owned or attached.
    pub fn new() -> (r: DesktopProxy)
        ensures
            r.wf(),
            r.owned is None,
            r.attached is None,
            r.status == ProxyStatus::Starting,
    {
        DesktopProxy { owned: None, attached: None, status: ProxyStatus::Starting }
    }

    /// Decides how to start: wait for the owned proxy if there is one, else
    /// attach to the healthy proxy that the runtime probe found, else launch.
    /// `probe` is only consulted when nothing is owned.
    pub fn start_or_attach(&mut self, probe: Option<LiveProxy>) -> (r: StartStep)
        requires
            old(self).wf(),
        ensures
            final(self).wf(),
            old(self).owned is Some ==> r is WaitForOwned && *final(self) == *old(self),
            old(self).owned is None ==> match probe {
                Some(live) => {
                    &&& r matches StartStep::Attached(l) && l@ == live@
                    &&& opt_live_view(final(self).attached) == Some(live@)
                    &&& final(self).status == ProxyStatus::Attached
                    &&& final(self).owned is None
                },
                None => r is StartNew && *final(self) == *old(self),
            },
    {
        if self.owned.is_some() {
            return StartStep::WaitForOwned;
        }
        match probe {
            Some(live) => {
                let shown = live.duplicate();
                self.attached = Some(live);
                self.status = ProxyStatus::Attached;
                StartStep::Attached(shown)
            },
            None => StartStep::StartNew,
        }
    }

    /// Records the launch of a new owned proxy: any attached proxy is
    /// forgotten and the status is starting; a launched proxy becomes the
    /// owned one, a failed launch is reported.
    pub fn start_new_owned(&mut self, launch: Result<OwnedProxy, String>) -> (r: Result<
        (),
        StartError,
    >)
        requires
            old(self).wf(),
        ensures
            final(self).wf(),
            final(self).attached is None,
            final(self).status == ProxyStatus::Starting,
            match launch {
                Ok(o) => {
                    &&& r is Ok
                    &&& final(self).owned == Some(o)
                },
                Err(m) => {
                    &&& final(self).owned == old(self).owned
                    &&& r matches Err(StartError::Failed(e)) && e@ == m@
                },
            },
    {
        self.attached = None;
        self.status = ProxyStatus::Starting;
        match launch {
            Ok(o) => {
                self.owned = Some(o);
                Ok(())
            },
            Err(m) => Err(StartError::Failed(m)),
        }
    }

    /// One look at the owned proxy while it starts: ready once the runtime
    /// probe finds a proxy with the owned process id; failed once the process
    /// has exited (`exit_status` describes how); otherwise still pending.
    pub fn wait_step(&mut self, probe: Option<LiveProxy>, exit_status: Option<String>) -> (r:
        WaitStep)
        requires
            old(self).wf(),
            old(self).owned is Some,
        ensures
            final(self).wf(),
            ({
                let pid = old(self).owned->0.pid;
                if probe matches Some(l) && l.pid == pid {
                    &&& r matches WaitStep::Ready(l2) && l2@ == probe->0@
                    &&& final(self).owned == old(self).owned
                    &&& final(self).attached is None
                    &&& final(self).status == ProxyStatus::Owned
                } else if exit_status is Some {
                    &&& r matches WaitStep::Exited(StartError::Failed(m)) && m@
                        == "The bundled proxy exited before it became ready ("@
                        + exit_status->0@ + ")."@
                    &&& final(self).owned is None
                    &&& final(self).attached == old(self).attached
                    &&& final(self).status == ProxyStatus::Unavailable
                } else {
                    r is Pending && *final(self) == *old(self)
                }
            }),
    {
        let pid = match &self.owned {
            Some(o) => o.pid,
            None => {
                return WaitStep::Pending;
            },
        };
        if let Some(live) = probe {
            if live.pid == pid {
                self.attached = None;
                self.status = ProxyStatus::Owned;
                return WaitStep::Ready(live);
            }
        }
        match exit_status {
            Some(s) => {
                self.owned = None;
                self.status = ProxyStatus::Unavailable;
                let mut m = String::from_str("The bundled proxy exited before it became ready (");
                m.append(s.as_str());
                m.append(").");
                WaitStep::Exited(StartError::Failed(m))
            },
            None => WaitStep::Pending,
        }
    }

    /// The start deadline passed without a ready proxy: still starting.
    pub fn wait_timed_out(&mut self) -> (r: StartError)
        requires
            old(self).wf(),
        ensures
            final(self).wf(),
            r is Slow,
            final(self).status == ProxyStatus::Starting,
            final(self).owned == old(self).owned,
            final(self).attached == old(self).attached,
    {
        self.status = ProxyStatus::Starting;
        StartError::Slow
    }

    /// The owned proxy is gone (it exited, or the shell stopped it): the
    /// shell forgets it and reports the proxy unavailable. Returns the
    /// proxy that was owned, whose control file the caller removes.
    pub fn release_owned(&mut self) -> (r: Option<OwnedProxy>)
        requires
            old(self).wf(),
        ensures
            final(self).wf(),
            r == old(self).owned,
            final(self).owned is None,
            final(self).attached == old(self).attached,
            old(self).owned is Some ==> final(self).status == ProxyStatus::Unavailable,
            old(self).owned is None ==> *final(self) == *old(self),
    {
        match self.owned.take() {
            Some(o) => {
                self.status = ProxyStatus::Unavailable;
                Some(o)
            },
            None => None,
        }
    }

    /// The control request that asks the owned proxy to stop: its control
    /// file and the token to write there. Nothing is asked of a proxy that
    /// is not owned.
    pub fn shutdown_request(&self) -> (r: Option<(String, String)>)
        ensures
            match self.owned {
                Some(o) => r matches Some((f, t)) && f@ == o.control_file@ && t@ == o.control_token@,
                None => r is None,
            },
    {
        match &self.owned {
            Some(o) => Some((o.control_file.clone(), o.control_token.clone())),
            None => None,
        }
    }

    /// The owned proxy's process was polled during a shutdown: a failed poll
    /// ends the shutdown with its error, an exit ends it successfully (the
    /// proxy is released), and a running process means waiting on.
    pub fn shutdown_polled(&mut self, poll: Result<bool, String>) -> (r: Option<Result<(), String>>)
        requires
            old(self).wf(),
        ensures
            final(self).wf(),
            final(self).attached == old(self).attached,
            match poll {
                Err(e) => r == Some(Err::<(), String>(e)) && *final(self) == *old(self),
                Ok(true) => {
                    &&& r == Some(Ok::<(), String>(()))
                    &&& final(self).owned is None
                    &&& (old(self).owned is Some ==> final(self).status
                        == ProxyStatus::Unavailable)
                },
                Ok(false) => r is None && *final(self) == *old(self),
            },
    {
        match poll {
            Err(e) => Some(Err(e)),
            Ok(true) => {
                self.release_owned();
                Some(Ok(()))
            },
            Ok(false) => None,
        }
    }

    /// The owned proxy did not stop by the deadline and was killed: a failed
    /// kill ends the shutdown with its error and keeps the proxy owned; a
    /// kill releases it and hands back its control file for removal.
    pub fn shutdown_forced(&mut self, kill: Result<(), String>) -> (r: Result<Option<String>, String>)
        requires
            old(self).wf(),
        ensures
            final(self).wf(),
            final(self).attached == old(self).attached,
            match kill {
                Err(e) => r == Err::<Option<String>, String>(e) && *final(self) == *old(self),
                Ok(()) => {
                    &&& final(self).owned is None
                    &&& match old(self).owned {
                        Some(o) => {
                            &&& r matches Ok(Some(f)) && f@ == o.control_file@
                            &&& final(self).status == ProxyStatus::Unavailable
                        },
                        None => r == Ok::<Option<String>, String>(None),
                    }
                },
            },
    {
        match kill {
            Err(e) => Err(e),
            Ok(()) => match self.release_owned() {
                Some(o) => Ok(Some(o.control_file)),
                None => Ok(None),
            },
        }
    }

    /// The liveness monitor polled the owned proxy's process: `Ok(true)`
    /// when it has exited, `Ok(false)` while it runs, an error when the poll
    /// failed. Only an exit releases the proxy (its record is returned, so
    /// that its control file can be removed); a running owned proxy stays
    /// owned.
    pub fn owned_exit_polled(&mut self, poll: Result<bool, String>) -> (r: Option<OwnedProxy>)
        requires
            old(self).wf(),
        ensures
            final(self).wf(),
            final(self).attached == old(self).attached,
            poll == Ok::<bool, String>(true) ==> {
                &&& r == old(self).owned
                &&& final(self).owned is None
                &&& (old(self).owned is Some ==> final(self).status == ProxyStatus::Unavailable)
                &&& (old(self).owned is None ==> *final(self) == *old(self))
            },
            poll != Ok::<bool, String>(true) ==> r is None && *final(self) == *old(self),
    {
        match poll {
            Ok(true) => self.release_owned(),
            _ => None,
        }
    }

    /// The liveness monitor probed the attached proxy `seen`: unless the
    /// probe found that very proxy again, the shell forgets it, provided it
    /// is still the attached one. Returns whether anything changed.
    pub fn attached_probed(&mut self, seen: &LiveProxy, probe: Option<LiveProxy>) -> (r: bool)
        requires
            old(self).wf(),
        ensures
            final(self).wf(),
            final(self).owned == old(self).owned,
            r == (opt_live_view(probe) != Some(seen@) && opt_live_view(old(self).attached) == Some(
                seen@,
            )),
            r ==> final(self).attached is None && final(self).status == ProxyStatus::Unavailable,
            !r ==> *final(self) == *old(self),
    {
        let alive = match &probe {
            Some(p) => p.same_as(seen),
            None => false,
        };
        if alive {
            return false;
        }
        let still_attached = match &self.attached {
            Some(a) => a.same_as(seen),
            None => false,
        };
        if still_attached {
            self.attached = None;
            self.status = ProxyStatus::Unavailable;
            true
        } else {
            false
        }
    }
}

impl Default for DesktopProxy {
    fn default() -> (r: DesktopProxy)
        ensures
            r.wf(),
            r.owned is None,
            r.attached is None,
            r.status == ProxyStatus::Starting,
    {
        DesktopProxy::new()
    }
}

/// An attached proxy is never one the shell could stop: while a proxy is
/// attached, none is owned.
pub proof fn lemma_attached_proxy_is_not_owned(p: DesktopProxy)
    requires
        p.wf(),
        p.attached is Some,
    ensures
        p.owned is None,
{
}

} // verus!
