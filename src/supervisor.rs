use vstd::prelude::*;

use crate::connection::Connection;

verus! {

/// Where the supervised client process stands. `Idle` and `Running` are the
/// resting states; the others last while the driver performs an action.
#[derive(Clone, Copy, Debug, PartialEq, Eq, Structural)]
pub enum Phase {
    Idle,
    Checking,
    Spawning,
    Running,
    Stopping,
}

/// Why connecting or stopping failed. Each kind keeps the operating system's
/// error code where there is one.
#[derive(Clone, Copy, Debug, PartialEq, Eq, Structural)]
pub enum SupervisorError {
    /// The client executable is missing, or its version probe did not succeed.
    ToolNotInstalled,
    /// The operating system refused to create the client process.
    SpawnFailed { os_code: Option<i32> },
    /// The termination signal could not be delivered.
    StopFailed { os_code: Option<i32> },
}

/// The line shown to the operator in the output pane for a failure.
pub open spec fn error_message(e: SupervisorError) -> Seq<char> {
    match e {
        SupervisorError::ToolNotInstalled => "OpenVPN is not installed or not found in PATH"@,
        SupervisorError::SpawnFailed { .. } => "Could not start OpenVPN"@,
        SupervisorError::StopFailed { .. } => "Could not stop OpenVPN"@,
    }
}

impl SupervisorError {
    pub fn message(&self) -> (r: String)
        ensures
            r@ == error_message(*self),
    {
        match self {
            SupervisorError::ToolNotInstalled => "OpenVPN is not installed or not found in PATH".to_owned(),
            SupervisorError::SpawnFailed { .. } => "Could not start OpenVPN".to_owned(),
            SupervisorError::StopFailed { .. } => "Could not stop OpenVPN".to_owned(),
        }
    }
}

/// Outside work that the driver performs and then reports as an `Event`.
#[derive(Clone, Copy, Debug, PartialEq, Eq, Structural)]
pub enum Action {
    /// Run the client's version probe; report `ToolChecked`.
    CheckTool,
    /// Start the client on the bound profile with piped output; report `Spawned`.
    Spawn,
    /// Signal the running client to terminate; report `Killed`.
    Kill,
}

/// What the driver observed after performing an `Action`, or on its own.
#[derive(Clone, Copy, Debug)]
pub enum Event {
    ToolChecked(bool),
    Spawned(Result<(), Option<i32>>),
    Killed(Result<(), Option<i32>>),
    /// The client process ended by itself.
    Exited,
}

/// The answer to a request or an event: more work, or the operation's result.
#[derive(Clone, Copy, Debug)]
pub enum Step {
    Perform(Action),
    Done(Result<(), SupervisorError>),
}

/// The handle of one client process bound to a profile: the catalog index and
/// a copy of the profile taken at binding time.
pub struct OpenVpnConnection {
    pub connected: bool,
    pub index: usize,
    pub connection: Connection,
    pub phase: Phase,
}

impl OpenVpnConnection {
    /// `connected` holds exactly while a spawned client has not been stopped
    /// or seen to exit.
    pub open spec fn wf(&self) -> bool {
        self.connected <==> (self.phase == Phase::Running || self.phase == Phase::Stopping)
    }

    pub open spec fn with_phase(self, phase: Phase, connected: bool) -> Self {
        OpenVpnConnection { phase, connected, ..self }
    }

    /// A `connect` request: starts the tool check from `Idle`; otherwise
    /// (already running, or busy) nothing changes.
    pub open spec fn after_connect(self) -> (Self, Step) {
        if self.phase == Phase::Idle {
            (self.with_phase(Phase::Checking, false), Step::Perform(Action::CheckTool))
        } else {
            (self, Step::Done(Ok(())))
        }
    }

    /// A `stop` request: a running client is signalled; in any other state
    /// nothing changes and the request succeeds.
    pub open spec fn after_stop(self) -> (Self, Step) {
        if self.phase == Phase::Running {
            (self.with_phase(Phase::Stopping, true), Step::Perform(Action::Kill))
        } else {
            (self, Step::Done(Ok(())))
        }
    }

    /// The transition taken on an event; an event that does not belong to the
    /// current phase changes nothing.
    pub open spec fn after_event(self, e: Event) -> (Self, Step) {
        match (self.phase, e) {
            (Phase::Checking, Event::ToolChecked(true)) => (
                self.with_phase(Phase::Spawning, false),
                Step::Perform(Action::Spawn),
            ),
            (Phase::Checking, Event::ToolChecked(false)) => (
                self.with_phase(Phase::Idle, false),
                Step::Done(Err(SupervisorError::ToolNotInstalled)),
            ),
            (Phase::Spawning, Event::Spawned(Ok(()))) => (
                self.with_phase(Phase::Running, true),
                Step::Done(Ok(())),
            ),
            (Phase::Spawning, Event::Spawned(Err(c))) => (
                self.with_phase(Phase::Idle, false),
                Step::Done(Err(SupervisorError::SpawnFailed { os_code: c })),
            ),
            (Phase::Stopping, Event::Killed(Ok(()))) => (
                self.with_phase(Phase::Idle, false),
                Step::Done(Ok(())),
            ),
            (Phase::Stopping, Event::Killed(Err(c))) => (
                self.with_phase(Phase::Idle, false),
                Step::Done(Err(SupervisorError::StopFailed { os_code: c })),
            ),
            (Phase::Running, Event::Exited) => (self.with_phase(Phase::Idle, false), Step::Done(Ok(()))),
            _ => (self, Step::Done(Ok(()))),
        }
    }

    /// A fresh, idle handle bound to catalog entry `index`.
    pub fn new(index: usize, connection: Connection) -> (r: Self)
        ensures
            r.wf(),
            r.phase == Phase::Idle,
            !r.connected,
            r.index == index,
            r.connection == connection,
    {
        OpenVpnConnection { connected: false, index, connection, phase: Phase::Idle }
    }

    pub fn connect(&mut self) -> (r: Step)
        requires
            old(self).wf(),
        ensures
            final(self).wf(),
            (*final(self), r) == old(self).after_connect(),
    {
        if self.phase == Phase::Idle {
            self.phase = Phase::Checking;
            Step::Perform(Action::CheckTool)
        } else {
            Step::Done(Ok(()))
        }
    }

    pub fn stop(&mut self) -> (r: Step)
        requires
            old(self).wf(),
        ensures
            final(self).wf(),
            (*final(self), r) == old(self).after_stop(),
    {
        if self.phase == Phase::Running {
            self.phase = Phase::Stopping;
            Step::Perform(Action::Kill)
        } else {
            Step::Done(Ok(()))
        }
    }

    pub fn on_event(&mut self, e: Event) -> (r: Step)
        requires
            old(self).wf(),
        ensures
            final(self).wf(),
            (*final(self), r) == old(self).after_event(e),
    {
        match (self.phase, e) {
            (Phase::Checking, Event::ToolChecked(true)) => {
                self.phase = Phase::Spawning;
                Step::Perform(Action::Spawn)
            },
            (Phase::Checking, Event::ToolChecked(false)) => {
                self.phase = Phase::Idle;
                Step::Done(Err(SupervisorError::ToolNotInstalled))
            },
            (Phase::Spawning, Event::Spawned(Ok(()))) => {
                self.phase = Phase::Running;
                self.connected = true;
                Step::Done(Ok(()))
            },
            (Phase::Spawning, Event::Spawned(Err(c))) => {
                self.phase = Phase::Idle;
                Step::Done(Err(SupervisorError::SpawnFailed { os_code: c }))
            },
            (Phase::Stopping, Event::Killed(Ok(()))) => {
                self.phase = Phase::Idle;
                self.connected = false;
                Step::Done(Ok(()))
            },
            (Phase::Stopping, Event::Killed(Err(c))) => {
                self.phase = Phase::Idle;
                self.connected = false;
                Step::Done(Err(SupervisorError::StopFailed { os_code: c }))
            },
            (Phase::Running, Event::Exited) => {
                self.phase = Phase::Idle;
                self.connected = false;
                Step::Done(Ok(()))
            },
            _ => Step::Done(Ok(())),
        }
    }
}

/// Owns at most one client handle. While a running client is being replaced,
/// `pending` holds the entry to bind once the old client has been stopped.
pub struct Supervisor {
    pub current: Option<OpenVpnConnection>,
    pub pending: Option<(usize, Connection)>,
}

/// A handle for a newly confirmed entry, at the start of its tool check.
pub open spec fn fresh_handle(index: usize, profile: Connection) -> OpenVpnConnection {
    OpenVpnConnection { connected: false, index, connection: profile, phase: Phase::Checking }
}

impl Supervisor {
    pub open spec fn wf(&self) -> bool {
        &&& (self.current matches Some(h) ==> h.wf())
        &&& (self.pending is Some ==> (self.current matches Some(h) && h.phase
            == Phase::Stopping))
    }

    /// No operation is under way: nothing waits, and the handle, if any, rests.
    pub open spec fn settled(&self) -> bool {
        &&& self.pending is None
        &&& (self.current matches Some(h) ==> (h.phase == Phase::Idle || h.phase
            == Phase::Running))
    }

    /// Confirming entry `index`: a client already running for it is left alone;
    /// a client running for another entry is stopped first, and `index` waits;
    /// otherwise a new handle for `index` starts its tool check.
    pub open spec fn after_confirm(self, index: usize, profile: Connection) -> (Self, Step) {
        match self.current {
            Some(h) => if h.phase == Phase::Running && h.index == index {
                (self, Step::Done(Ok(())))
            } else if h.phase == Phase::Running {
                (
                    Supervisor {
                        current: Some(h.with_phase(Phase::Stopping, true)),
                        pending: Some((index, profile)),
                    },
                    Step::Perform(Action::Kill),
                )
            } else {
                (
                    Supervisor { current: Some(fresh_handle(index, profile)), pending: None },
                    Step::Perform(Action::CheckTool),
                )
            },
            None => (
                Supervisor { current: Some(fresh_handle(index, profile)), pending: None },
                Step::Perform(Action::CheckTool),
            ),
        }
    }

    /// Stopping: the handle, if any, takes its `stop` transition.
    pub open spec fn after_stop(self) -> (Self, Step) {
        match self.current {
            Some(h) => (
                Supervisor { current: Some(h.after_stop().0), pending: self.pending },
                h.after_stop().1,
            ),
            None => (self, Step::Done(Ok(()))),
        }
    }

    /// An event goes to the handle; once a replaced client is back to `Idle`,
    /// the waiting entry gets its own handle and starts its tool check.
    pub open spec fn after_event(self, e: Event) -> (Self, Step) {
        match self.current {
            Some(h) => {
                let (h2, st) = h.after_event(e);
                if st is Done && h2.phase == Phase::Idle && self.pending is Some {
                    let (index, profile) = self.pending->0;
                    (
                        Supervisor {
                            current: Some(fresh_handle(index, profile)),
                            pending: None,
                        },
                        Step::Perform(Action::CheckTool),
                    )
                } else {
                    (Supervisor { current: Some(h2), pending: self.pending }, st)
                }
            },
            None => (self, Step::Done(Ok(()))),
        }
    }

    pub fn new() -> (r: Self)
        ensures
            r.wf(),
            r.settled(),
            r.current is None,
    {
        Supervisor { current: None, pending: None }
    }

    pub fn is_settled(&self) -> (r: bool)
        ensures
            r == self.settled(),
    {
        self.pending.is_none() && match &self.current {
            Some(h) => h.phase == Phase::Idle || h.phase == Phase::Running,
            None => true,
        }
    }

    pub fn confirm(&mut self, index: usize, profile: Connection) -> (r: Step)
        requires
            old(self).wf(),
            old(self).settled(),
        ensures
            final(self).wf(),
            (*final(self), r) == old(self).after_confirm(index, profile),
    {
        let cur = self.current.take();
        match cur {
            Some(mut h) => {
                if h.phase == Phase::Running && h.index == index {
                    self.current = Some(h);
                    Step::Done(Ok(()))
                } else if h.phase == Phase::Running {
                    let st = h.stop();
                    self.current = Some(h);
                    self.pending = Some((index, profile));
                    st
                } else {
                    let mut n = OpenVpnConnection::new(index, profile);
                    let st = n.connect();
                    self.current = Some(n);
                    st
                }
            },
            None => {
                let mut n = OpenVpnConnection::new(index, profile);
                let st = n.connect();
                self.current = Some(n);
                st
            },
        }
    }

    pub fn stop(&mut self) -> (r: Step)
        requires
            old(self).wf(),
            old(self).settled(),
        ensures
            final(self).wf(),
            (*final(self), r) == old(self).after_stop(),
    {
        let cur = self.current.take();
        match cur {
            Some(mut h) => {
                let st = h.stop();
                self.current = Some(h);
                st
            },
            None => Step::Done(Ok(())),
        }
    }

    pub fn on_event(&mut self, e: Event) -> (r: Step)
        requires
            old(self).wf(),
        ensures
            final(self).wf(),
            (*final(self), r) == old(self).after_event(e),
    {
        let cur = self.current.take();
        match cur {
            Some(mut h) => {
                let st = h.on_event(e);
                if matches!(st, Step::Done(_)) && h.phase == Phase::Idle && self.pending.is_some() {
                    let waiting = self.pending.take();
                    match waiting {
                        Some((index, profile)) => {
                            let mut n = OpenVpnConnection::new(index, profile);
                            let st2 = n.connect();
                            self.current = Some(n);
                            st2
                        },
                        None => st,
                    }
                } else {
                    self.current = Some(h);
                    st
                }
            },
            None => Step::Done(Ok(())),
        }
    }
}

/// Confirming another entry while a client runs stops the old client before
/// anything is started for the new one: the first answer is the termination
/// signal, the old handle keeps its binding until termination is reported, it
/// is then no longer connected, and only after that does a handle for the new
/// entry exist, at its tool check and not yet running.
pub proof fn lemma_rebind_stops_old_first(
    s: Supervisor,
    index: usize,
    profile: Connection,
    killed: Result<(), Option<i32>>,
)
    requires
        s.wf(),
        s.settled(),
        s.current matches Some(h) && h.phase == Phase::Running && h.index != index,
    ensures
        ({
            let h = s.current->0;
            let (s1, st1) = s.after_confirm(index, profile);
            let (s2, st2) = s1.after_event(Event::Killed(killed));
            &&& st1 == Step::Perform(Action::Kill)
            &&& s1.current == Some(h.with_phase(Phase::Stopping, true))
            &&& s1.current->0.index == h.index
            &&& !h.with_phase(Phase::Stopping, true).after_event(Event::Killed(killed)).0.connected
            &&& s2.current == Some(fresh_handle(index, profile))
            &&& s2.current->0.phase == Phase::Checking
            &&& s2.pending is None
            &&& st2 == Step::Perform(Action::CheckTool)
        }),
{
}

/// A handle reaches `Running` only from `Spawning`, on a successful spawn.
pub proof fn lemma_running_only_after_spawn(h: OpenVpnConnection, e: Event)
    requires
        h.phase != Phase::Running,
        h.after_event(e).0.phase == Phase::Running,
    ensures
        h.phase == Phase::Spawning,
        e matches Event::Spawned(Ok(())),
{
}

/// Stopping a supervisor with no running client changes nothing and succeeds.
pub proof fn lemma_stop_when_idle(s: Supervisor)
    requires
        s.wf(),
        s.settled(),
        !(s.current matches Some(h) && h.phase == Phase::Running),
    ensures
        s.after_stop() == (s, Step::Done(Ok(()))),
{
}

} // verus!
