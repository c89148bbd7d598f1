use vstd::prelude::*;

use crate::capture::{output_text, pane_text};
use crate::connection::{
    first_index, last_index, next_index, previous_index, Connection, ConnectionList, VpnFile,
};
use crate::supervisor::{error_message, Action, Event, Step, Supervisor, SupervisorError};

verus! {

/// A key as the terminal reports it, reduced to what the dashboard reads.
#[derive(Clone, Copy, Debug, PartialEq, Eq, Structural)]
pub enum Key {
    Char(char),
    Esc,
    Up,
    Down,
    Home,
    End,
    Enter,
    Other,
}

/// What the operator asks of the dashboard.
#[derive(Clone, Copy, Debug, PartialEq, Eq, Structural)]
pub enum Command {
    Quit,
    ClearHighlight,
    Next,
    Previous,
    First,
    Last,
    Confirm,
}

/// The command a pressed key stands for; released or repeated keys and
/// unbound keys stand for none.
pub open spec fn command_of(key: Key, pressed: bool) -> Option<Command> {
    if !pressed {
        None
    } else {
        match key {
            Key::Char('q') => Some(Command::Quit),
            Key::Esc => Some(Command::ClearHighlight),
            Key::Char('j') | Key::Down => Some(Command::Next),
            Key::Char('k') | Key::Up => Some(Command::Previous),
            Key::Char('g') | Key::Home => Some(Command::First),
            Key::Char('G') | Key::End => Some(Command::Last),
            Key::Enter => Some(Command::Confirm),
            _ => None,
        }
    }
}

pub fn key_command(key: Key, pressed: bool) -> (r: Option<Command>)
    ensures
        r == command_of(key, pressed),
{
    if !pressed {
        return None;
    }
    match key {
        Key::Char('q') => Some(Command::Quit),
        Key::Esc => Some(Command::ClearHighlight),
        Key::Char('j') | Key::Down => Some(Command::Next),
        Key::Char('k') | Key::Up => Some(Command::Previous),
        Key::Char('g') | Key::Home => Some(Command::First),
        Key::Char('G') | Key::End => Some(Command::Last),
        Key::Enter => Some(Command::Confirm),
        _ => None,
    }
}

/// The error to show after a step: a failure is shown until a new attempt
/// starts its tool check.
pub open spec fn error_after(prev: Option<SupervisorError>, st: Step) -> Option<SupervisorError> {
    match st {
        Step::Done(Err(e)) => Some(e),
        Step::Perform(Action::CheckTool) => None,
        _ => prev,
    }
}

/// The dashboard: the catalog with its cursor, the client supervisor, and the
/// last failure to show.
pub struct App {
    pub should_exit: bool,
    pub connections: ConnectionList,
    pub supervisor: Supervisor,
    pub last_error: Option<SupervisorError>,
}

impl App {
    pub open spec fn wf(&self) -> bool {
        &&& self.connections.wf()
        &&& self.supervisor.wf()
    }

    /// The dashboard over the given profile files, with the cursor on the first
    /// entry, nothing activated and no client.
    pub fn new(files: Vec<VpnFile>) -> (r: App)
        ensures
            r.wf(),
            r.supervisor.settled(),
            !r.should_exit,
            r.connections.highlighted == (if files@.len() == 0 { None } else { Some(0usize) }),
            r.connections.confirmed is None,
            r.connections.items@.len() == files@.len(),
            forall|j: int|
                0 <= j < files@.len() ==> {
                    &&& (#[trigger] r.connections.items@[j]).title@ == files@[j].title@
                    &&& r.connections.items@[j].path@ == files@[j].path@
                },
            r.supervisor.current is None,
            r.last_error is None,
    {
        App {
            should_exit: false,
            connections: ConnectionList::new(files),
            supervisor: Supervisor::new(),
            last_error: None,
        }
    }

    /// Carries out one command. Cursor moves touch neither the activated entry
    /// nor the client; confirming hands a copy of the entry under the cursor
    /// to the supervisor; quitting stops the client.
    pub fn handle_command(&mut self, cmd: Command) -> (r: Step)
        requires
            old(self).wf(),
            old(self).supervisor.settled(),
        ensures
            final(self).wf(),
            final(self).last_error == error_after(old(self).last_error, r),
            final(self).should_exit == (old(self).should_exit || cmd == Command::Quit),
            cmd != Command::Confirm ==> {
                &&& final(self).connections.items == old(self).connections.items
                &&& final(self).connections.confirmed == old(self).connections.confirmed
            },
            cmd != Command::Confirm && cmd != Command::Quit ==> {
                &&& final(self).supervisor == old(self).supervisor
                &&& r == Step::Done(Ok(()))
            },
            cmd == Command::Quit ==> {
                &&& (final(self).supervisor, r) == old(self).supervisor.after_stop()
                &&& final(self).connections == old(self).connections
            },
            cmd == Command::ClearHighlight ==> final(self).connections.highlighted is None,
            cmd == Command::Next ==> final(self).connections.highlighted == next_index(
                old(self).connections.highlighted,
                old(self).connections.len(),
            ),
            cmd == Command::Previous ==> final(self).connections.highlighted == previous_index(
                old(self).connections.highlighted,
                old(self).connections.len(),
            ),
            cmd == Command::First ==> final(self).connections.highlighted == first_index(
                old(self).connections.highlighted,
                old(self).connections.len(),
            ),
            cmd == Command::Last ==> final(self).connections.highlighted == last_index(
                old(self).connections.highlighted,
                old(self).connections.len(),
            ),
            cmd == Command::Confirm ==> {
                &&& final(self).connections.highlighted == old(self).connections.highlighted
                &&& old(self).connections.highlighted is None ==> {
                    &&& final(self).connections == old(self).connections
                    &&& final(self).supervisor == old(self).supervisor
                    &&& r == Step::Done(Ok(()))
                }
                &&& old(self).connections.highlighted matches Some(i) ==> {
                    &&& final(self).connections.confirmed == Some(i)
                    &&& forall|j: int|
                        0 <= j < final(self).connections.items@.len() ==> (
                        #[trigger] final(self).connections.items@[j]).selected == (j == i)
                    &&& exists|p: Connection|
                        {
                            &&& p.title@ == old(self).connections.items@[i as int].title@
                            &&& p.path@ == old(self).connections.items@[i as int].path@
                            &&& (final(self).supervisor, r) == old(self).supervisor.after_confirm(
                                i,
                                p,
                            )
                        }
                }
            },
    {
        let st = match cmd {
            Command::Quit => {
                self.should_exit = true;
                self.supervisor.stop()
            },
            Command::ClearHighlight => {
                self.connections.select_none();
                Step::Done(Ok(()))
            },
            Command::Next => {
                self.connections.select_next();
                Step::Done(Ok(()))
            },
            Command::Previous => {
                self.connections.select_previous();
                Step::Done(Ok(()))
            },
            Command::First => {
                self.connections.select_first();
                Step::Done(Ok(()))
            },
            Command::Last => {
                self.connections.select_last();
                Step::Done(Ok(()))
            },
            Command::Confirm => self.select_item(),
        };
        self.note(st);
        st
    }

    fn select_item(&mut self) -> (r: Step)
        requires
            old(self).wf(),
            old(self).supervisor.settled(),
        ensures
            final(self).wf(),
            final(self).should_exit == old(self).should_exit,
            final(self).last_error == old(self).last_error,
            final(self).connections.highlighted == old(self).connections.highlighted,
            old(self).connections.highlighted is None ==> {
                &&& final(self).connections == old(self).connections
                &&& final(self).supervisor == old(self).supervisor
                &&& r == Step::Done(Ok(()))
            },
            old(self).connections.highlighted matches Some(i) ==> {
                &&& final(self).connections.confirmed == Some(i)
                &&& forall|j: int|
                    0 <= j < final(self).connections.items@.len() ==> (
                    #[trigger] final(self).connections.items@[j]).selected == (j == i)
                &&& exists|p: Connection|
                    {
                        &&& p.title@ == old(self).connections.items@[i as int].title@
                        &&& p.path@ == old(self).connections.items@[i as int].path@
                        &&& (final(self).supervisor, r) == old(self).supervisor.after_confirm(i, p)
                    }
            },
    {
        match self.connections.select_item() {
            None => Step::Done(Ok(())),
            Some(i) => {
                let profile = self.connections.items[i].duplicate();
                let ghost p = profile;
                let st = self.supervisor.confirm(i, profile);
                assert(p.title@ == old(self).connections.items@[i as int].title@);
                st
            },
        }
    }

    fn note(&mut self, st: Step)
        ensures
            *final(self) == (App { last_error: error_after(old(self).last_error, st), ..*old(self) }),
    {
        match st {
            Step::Done(Err(e)) => {
                self.last_error = Some(e);
            },
            Step::Perform(Action::CheckTool) => {
                self.last_error = None;
            },
            _ => {},
        }
    }

    /// Hands the driver's observation to the supervisor.
    pub fn on_event(&mut self, e: Event) -> (r: Step)
        requires
            old(self).wf(),
        ensures
            final(self).wf(),
            (final(self).supervisor, r) == old(self).supervisor.after_event(e),
            final(self).connections == old(self).connections,
            final(self).should_exit == old(self).should_exit,
            final(self).last_error == error_after(old(self).last_error, r),
    {
        let st = self.supervisor.on_event(e);
        self.note(st);
        st
    }

    /// The output pane's text, given snapshots of the client's two output
    /// buffers: a placeholder while nothing is activated, the last failure if
    /// there is one, and otherwise the captured output.
    pub fn output_pane(&self, stdout: &str, stderr: &str) -> (r: String)
        ensures
            self.connections.confirmed is None ==> r@ == "No output"@,
            self.connections.confirmed is Some ==> (match self.last_error {
                Some(err) => r@ == error_message(err),
                None => r@ == pane_text(stdout@, stderr@),
            }),
    {
        if self.connections.confirmed.is_none() {
            return "No output".to_owned();
        }
        match &self.last_error {
            Some(err) => err.message(),
            None => output_text(stdout, stderr),
        }
    }
}

} // verus!
