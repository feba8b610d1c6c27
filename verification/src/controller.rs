//! The interactive controller: a state machine driven one key press at
//! a time. It owns the task store and an edit buffer, and answers each
//! key with the list of rendering effects the front end must perform;
//! how those effects are drawn is the renderer's concern.

use vstd::prelude::*;

use crate::store::{TaskManager, Task, ValidationError, validate_spec};

verus! {

/// One key press, as the controller sees it. Anything the controller
/// does not react to arrives as `Other`.
#[derive(Clone, Copy, Debug, PartialEq, Eq, Structural)]
pub enum Key {
    Char(char),
    Enter,
    Backspace,
    Esc,
    Other,
}

/// The control state of the interactive session.
#[derive(Clone, Copy, Debug, PartialEq, Eq, Structural)]
pub enum ControlState {
    /// Waiting for a single-key command.
    AwaitingCommand,
    /// Collecting the title of a new task, one character at a time.
    EditingNewTaskTitle,
    /// The session is over; no further key does anything.
    Terminated,
}

/// One rendering request handed back to the caller. The controller
/// fixes what is shown and in which order; styling is the renderer's.
#[derive(Clone, Copy, Debug, PartialEq, Eq, Structural)]
pub enum Effect {
    /// Echo the command character that was just accepted.
    CommandEcho(char),
    /// Tell the user the key was not a command.
    InvalidCommand,
    /// Show the current task list (or its empty-state message).
    ShowTaskList,
    /// Show the goodbye message.
    Goodbye,
    /// Show the prompt asking for a task title.
    TitlePrompt,
    /// Echo one character typed into the edit buffer.
    CharEcho(char),
    /// Erase the last echoed character from the display.
    EraseChar,
    /// Report that the task with this id was added.
    TaskAdded(usize),
    /// Report that the typed title was rejected.
    TaskRejected(ValidationError),
    /// Report that task creation was cancelled.
    EditCancelled,
}

/// The abstract state of the controller: the control state, the
/// characters in the edit buffer, and the stored tasks as (id, title)
/// pairs in insertion order.
#[verifier::ext_equal]
pub struct ControllerView {
    pub state: ControlState,
    pub buffer: Seq<char>,
    pub tasks: Seq<(usize, Seq<char>)>,
}

/// The transition table while a command is awaited: `a` starts title
/// entry, `l` lists, `q` ends the session, and any other key is an
/// invalid command.
pub open spec fn step_awaiting_spec(pre: ControllerView, key: Key) -> (ControllerView, Seq<
    Effect,
>) {
    if key == Key::Char('a') {
        (
            ControllerView {
                state: ControlState::EditingNewTaskTitle,
                buffer: Seq::empty(),
                tasks: pre.tasks,
            },
            seq![Effect::CommandEcho('a'), Effect::TitlePrompt],
        )
    } else if key == Key::Char('l') {
        (pre, seq![Effect::CommandEcho('l'), Effect::ShowTaskList])
    } else if key == Key::Char('q') {
        (
            ControllerView { state: ControlState::Terminated, buffer: pre.buffer, tasks: pre.tasks },
            seq![Effect::CommandEcho('q'), Effect::Goodbye],
        )
    } else {
        (pre, seq![Effect::InvalidCommand])
    }
}

/// The transition table while a title is being edited: characters are
/// appended and echoed, backspace drops the last character, enter
/// submits the buffer to the store (clearing it and re-prompting on
/// rejection), escape cancels, and any other key is ignored.
pub open spec fn step_editing_spec(pre: ControllerView, key: Key) -> (ControllerView, Seq<
    Effect,
>) {
    match key {
        Key::Char(c) => (
            ControllerView { state: pre.state, buffer: pre.buffer.push(c), tasks: pre.tasks },
            seq![Effect::CharEcho(c)],
        ),
        Key::Enter => match validate_spec(pre.buffer) {
            Ok(t) => (
                ControllerView {
                    state: ControlState::AwaitingCommand,
                    buffer: Seq::empty(),
                    tasks: pre.tasks.push(((pre.tasks.len() + 1) as usize, t)),
                },
                seq![Effect::TaskAdded((pre.tasks.len() + 1) as usize)],
            ),
            Err(e) => (
                ControllerView { state: pre.state, buffer: Seq::empty(), tasks: pre.tasks },
                seq![Effect::TaskRejected(e), Effect::TitlePrompt],
            ),
        },
        Key::Backspace => if pre.buffer.len() > 0 {
            (
                ControllerView { state: pre.state, buffer: pre.buffer.drop_last(), tasks: pre.tasks },
                seq![Effect::EraseChar],
            )
        } else {
            (pre, Seq::empty())
        },
        Key::Esc => (
            ControllerView {
                state: ControlState::AwaitingCommand,
                buffer: Seq::empty(),
                tasks: pre.tasks,
            },
            seq![Effect::EditCancelled],
        ),
        Key::Other => (pre, Seq::empty()),
    }
}

/// One step of the controller: the state after the key, and the
/// effects to render, in order. `Terminated` is absorbing.
pub open spec fn step_spec(pre: ControllerView, key: Key) -> (ControllerView, Seq<Effect>) {
    match pre.state {
        ControlState::AwaitingCommand => step_awaiting_spec(pre, key),
        ControlState::EditingNewTaskTitle => step_editing_spec(pre, key),
        ControlState::Terminated => (pre, Seq::empty()),
    }
}

/// Drives the session: owns the task store and the edit buffer, and
/// steps once per key press, exactly as [`step_spec`] says.
pub struct InteractionController {
    store: TaskManager,
    state: ControlState,
    buffer: String,
}

impl View for InteractionController {
    type V = ControllerView;

    closed spec fn view(&self) -> ControllerView {
        ControllerView { state: self.state, buffer: self.buffer@, tasks: self.store@ }
    }
}

impl InteractionController {
    /// Well-formed: the owned store is well-formed.
    pub closed spec fn wf(&self) -> bool {
        self.store.wf()
    }

    /// A fresh session: awaiting a command, empty buffer, empty store.
    pub fn new() -> (c: InteractionController)
        ensures
            c.wf(),
            c@.state == ControlState::AwaitingCommand,
            c@.buffer == Seq::<char>::empty(),
            c@.tasks == Seq::<(usize, Seq<char>)>::empty(),
    {
        InteractionController {
            store: TaskManager::new(),
            state: ControlState::AwaitingCommand,
            buffer: String::new(),
        }
    }

    /// Handles one key press and returns the effects to render, in
    /// order, as [`step_spec`] prescribes.
    pub fn handle_key(&mut self, key: Key) -> (out: Vec<Effect>)
        requires
            old(self).wf(),
            old(self)@.tasks.len() + 2 <= usize::MAX,
        ensures
            final(self).wf(),
            final(self)@ == step_spec(old(self)@, key).0,
            out@ == step_spec(old(self)@, key).1,
    {
        let mut out: Vec<Effect> = Vec::new();
        match self.state {
            ControlState::AwaitingCommand => {
                match key {
                    Key::Char(c) => {
                        if c == 'a' {
                            self.state = ControlState::EditingNewTaskTitle;
                            self.buffer = String::new();
                            out.push(Effect::CommandEcho('a'));
                            out.push(Effect::TitlePrompt);
                        } else if c == 'l' {
                            out.push(Effect::CommandEcho('l'));
                            out.push(Effect::ShowTaskList);
                        } else if c == 'q' {
                            self.state = ControlState::Terminated;
                            out.push(Effect::CommandEcho('q'));
                            out.push(Effect::Goodbye);
                        } else {
                            out.push(Effect::InvalidCommand);
                        }
                    },
                    _ => {
                        out.push(Effect::InvalidCommand);
                    },
                }
            },
            ControlState::EditingNewTaskTitle => {
                match key {
                    Key::Char(c) => {
                        self.buffer.push(c);
                        out.push(Effect::CharEcho(c));
                    },
                    Key::Enter => {
                        let typed = self.buffer.clone();
                        match self.store.add_task(typed) {
                            Ok(id) => {
                                self.state = ControlState::AwaitingCommand;
                                self.buffer = String::new();
                                out.push(Effect::TaskAdded(id));
                            },
                            Err(e) => {
                                self.buffer = String::new();
                                out.push(Effect::TaskRejected(e));
                                out.push(Effect::TitlePrompt);
                            },
                        }
                    },
                    Key::Backspace => {
                        match self.buffer.pop() {
                            Some(_) => {
                                out.push(Effect::EraseChar);
                            },
                            None => {},
                        }
                    },
                    Key::Esc => {
                        self.state = ControlState::AwaitingCommand;
                        self.buffer = String::new();
                        out.push(Effect::EditCancelled);
                    },
                    Key::Other => {},
                }
            },
            ControlState::Terminated => {},
        }
        proof {
            assert(self@ =~~= step_spec(old(self)@, key).0);
            assert(out@ =~~= step_spec(old(self)@, key).1);
        }
        out
    }

    /// The current control state.
    pub fn state(&self) -> (s: ControlState)
        ensures
            s == self@.state,
    {
        self.state
    }

    /// How many tasks the session has stored so far.
    pub fn task_count(&self) -> (n: usize)
        ensures
            n == self@.tasks.len(),
    {
        self.store.list_tasks().len()
    }

    /// The stored tasks, in insertion order, for rendering.
    pub fn tasks(&self) -> (r: &[Task])
        ensures
            r@.len() == self@.tasks.len(),
            forall|k: int|
                0 <= k < r@.len() ==> (#[trigger] r@[k]).id == self@.tasks[k].0 && r@[k].title@
                    == self@.tasks[k].1,
    {
        self.store.list_tasks()
    }
}

} // verus!
