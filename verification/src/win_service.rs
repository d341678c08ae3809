//! Decisions of the Windows service loop, which keeps a server process
//! running in the right session. The caller performs the I/O (session
//! queries, IPC, process launches) and hands the results back.

use vstd::prelude::*;

verus! {

/// The session that the service serves, and the one a user asked for.
#[derive(Clone, Copy, Debug, PartialEq, Eq, Structural)]
pub struct ServiceLoop {
    pub session_id: u32,
    pub stored_usid: Option<u32>,
}

/// A message received on the service's IPC listener.
#[derive(Clone, Copy, Debug, PartialEq, Eq, Structural)]
pub enum ServiceMsg {
    Close,
    Sas,
    UserSid(Option<u32>),
    Other,
}

/// What the service does for a message.
#[derive(Clone, Copy, Debug, PartialEq, Eq, Structural)]
pub enum ServiceAction {
    /// Leave the loop.
    Stop,
    /// Send the secure attention sequence.
    SendSas,
    /// Launch the server in this session.
    Launch { session_id: u32 },
    Nothing,
}

/// The outcome of a wait that timed out.
#[derive(Clone, Copy, Debug, PartialEq, Eq, Structural)]
pub enum TimeoutStep {
    /// No active session (`0xFFFFFFFF`): wait again.
    Skip,
    /// The active session changed: the caller closes the old server when no
    /// port forwarding is running, then checks the server.
    Switched,
    /// Check that the server still runs.
    Same,
}

/// The session id that stands for no active session.
pub const NO_SESSION: u32 = 0xFFFF_FFFF;

pub open spec fn check_session_spec(s: ServiceLoop, available_sids: Seq<u32>, share_rdp: bool, active_session: u32) -> (ServiceLoop, bool) {
    if (!available_sids.contains(s.session_id) || !share_rdp) && s.session_id != active_session {
        (ServiceLoop { session_id: active_session, ..s }, true)
    } else {
        (s, false)
    }
}

pub open spec fn on_message_spec(s: ServiceLoop, msg: ServiceMsg) -> (ServiceLoop, ServiceAction) {
    match msg {
        ServiceMsg::Close => (s, ServiceAction::Stop),
        ServiceMsg::Sas => (s, ServiceAction::SendSas),
        ServiceMsg::UserSid(Some(u)) => if u != s.session_id {
            (
                ServiceLoop { session_id: u, stored_usid: Some(u) },
                ServiceAction::Launch { session_id: u },
            )
        } else {
            (s, ServiceAction::Nothing)
        },
        _ => (s, ServiceAction::Nothing),
    }
}

pub open spec fn on_timeout_spec(s: ServiceLoop, active_session: u32) -> (ServiceLoop, TimeoutStep) {
    if active_session == NO_SESSION {
        (s, TimeoutStep::Skip)
    } else if active_session != s.session_id && s.stored_usid != Some(s.session_id) {
        (ServiceLoop { session_id: active_session, ..s }, TimeoutStep::Switched)
    } else {
        (s, TimeoutStep::Same)
    }
}

impl ServiceLoop {
    pub fn new(session_id: u32) -> (s: ServiceLoop)
        ensures
            s.session_id == session_id,
            s.stored_usid is None,
    {
        ServiceLoop { session_id, stored_usid: None }
    }

    /// Follows the active session when the served one is gone or sessions
    /// are not shared; says whether it switched (the caller then launches
    /// the server there unless port forwarding is running).
    pub fn check_session(&mut self, available_sids: &[u32], share_rdp: bool, active_session: u32) -> (switched: bool)
        ensures
            (*final(self), switched) == check_session_spec(
                *old(self),
                available_sids@,
                share_rdp,
                active_session,
            ),
    {
        let mut present = false;
        let mut i: usize = 0;
        while i < available_sids.len()
            invariant
                i <= available_sids@.len(),
                present == exists|k: int| 0 <= k < i && available_sids@[k] == self.session_id,
            decreases available_sids@.len() - i,
        {
            if available_sids[i] == self.session_id {
                present = true;
            }
            i = i + 1;
        }
        proof {
            if present {
                let k = choose|k: int| 0 <= k < i && available_sids@[k] == self.session_id;
                assert(available_sids@.contains(self.session_id));
            } else {
                assert(!available_sids@.contains(self.session_id));
            }
        }
        if (!present || !share_rdp) && self.session_id != active_session {
            self.session_id = active_session;
            true
        } else {
            false
        }
    }

    /// Handles a message: `Close` stops, `Sas` is passed on, and a user's
    /// session id other than the current one becomes the served session.
    pub fn on_message(&mut self, msg: ServiceMsg) -> (a: ServiceAction)
        ensures
            (*final(self), a) == on_message_spec(*old(self), msg),
    {
        match msg {
            ServiceMsg::Close => ServiceAction::Stop,
            ServiceMsg::Sas => ServiceAction::SendSas,
            ServiceMsg::UserSid(Some(u)) => {
                if u != self.session_id {
                    self.session_id = u;
                    self.stored_usid = Some(u);
                    ServiceAction::Launch { session_id: u }
                } else {
                    ServiceAction::Nothing
                }
            },
            _ => ServiceAction::Nothing,
        }
    }

    /// Handles a wait that timed out: follows a changed active session
    /// unless the served session is the one a user asked for.
    pub fn on_timeout(&mut self, active_session: u32) -> (step: TimeoutStep)
        ensures
            (*final(self), step) == on_timeout_spec(*old(self), active_session),
    {
        if active_session == NO_SESSION {
            TimeoutStep::Skip
        } else if active_session != self.session_id && self.stored_usid != Some(self.session_id) {
            self.session_id = active_session;
            TimeoutStep::Switched
        } else {
            TimeoutStep::Same
        }
    }
}

/// After a switch, the server is (re)launched, or the old one closed, only
/// when no port forwarding session is running.
pub fn no_port_forwarding(port_forward_sessions: usize) -> (b: bool)
    ensures
        b == (port_forward_sessions == 0),
{
    port_forward_sessions == 0
}

/// After a timed-out wait: where the server is gone (never started, or
/// exited), it is launched again, told not to kill a running one unless
/// the old one was just sent a close. `None`: it still runs.
pub fn relaunch_after_timeout(server_alive: bool, close_sent: bool) -> (r: Option<bool>)
    ensures
        r == (if server_alive {
            None
        } else {
            Some(!close_sent)
        }),
{
    if server_alive {
        None
    } else {
        Some(!close_sent)
    }
}

/// A `Close` message always ends the loop and changes nothing.
pub proof fn law_close_stops(s: ServiceLoop)
    ensures
        on_message_spec(s, ServiceMsg::Close) == (s, ServiceAction::Stop),
{
}

/// A session that a user picked stays served: timeouts do not move the
/// service away from it, whatever session is active.
pub proof fn law_user_session_pinned(s: ServiceLoop, u: u32, active_session: u32)
    requires
        u != s.session_id,
    ensures
        on_message_spec(s, ServiceMsg::UserSid(Some(u))).0.session_id == u,
        on_timeout_spec(on_message_spec(s, ServiceMsg::UserSid(Some(u))).0, active_session).0.session_id
            == u,
        on_timeout_spec(on_message_spec(s, ServiceMsg::UserSid(Some(u))).0, active_session).1
            != TimeoutStep::Switched,
{
}

} // verus!
