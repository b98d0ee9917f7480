//! The todolist controller: a strict mode state machine over keystrokes.
//!
//! The controller owns the input mode, the selection, and the search
//! results.  It never talks to the store itself: each handled keystroke
//! yields at most one [`StoreCommand`] for the caller to deliver, and the
//! caller hands in the latest live task list on every event, so bounds are
//! rechecked against the newest snapshot rather than a cached one.
//!
//! The whole transition table is the spec function [`step`]; the executable
//! handler is proved to implement it exactly.

use vstd::prelude::*;
use crate::events::{KeyCode, KeyInput, TermEvent};
use crate::store::{opt_cmd_view, CommandView, StoreCommand};
use crate::text::{pop_char, push_char};
use crate::todo::{find_filter, find_matching, TodoItem};
use crate::tui::{AppError, EventResult};

verus! {

/// The input mode: exactly one variant is active, and it decides how the
/// next keystroke is read.  The text modes carry the buffer typed so far.
#[derive(Debug)]
pub enum TodoMode {
    Normal,
    CreateTask { buffer: String },
    EditTask { id: String, buffer: String },
    FindTask { buffer: String },
}

/// Ghost view of [`TodoMode`], over character sequences.
pub ghost enum ModeView {
    Normal,
    CreateTask { buffer: Seq<char> },
    EditTask { id: Seq<char>, buffer: Seq<char> },
    FindTask { buffer: Seq<char> },
}

impl View for TodoMode {
    type V = ModeView;

    open spec fn view(&self) -> ModeView {
        match self {
            TodoMode::Normal => ModeView::Normal,
            TodoMode::CreateTask { buffer } => ModeView::CreateTask { buffer: buffer@ },
            TodoMode::EditTask { id, buffer } => ModeView::EditTask { id: id@, buffer: buffer@ },
            TodoMode::FindTask { buffer } => ModeView::FindTask { buffer: buffer@ },
        }
    }
}

/// The controller state.  `selected` indexes whichever list is currently
/// displayed: the live task list normally, the search results while
/// `find_mode` is set.
#[derive(Debug)]
pub struct Todolist {
    pub mode: TodoMode,
    pub selected: Option<usize>,
    pub find_results: Vec<TodoItem>,
    pub find_mode: bool,
}

/// Ghost view of [`Todolist`].
pub ghost struct TodolistView {
    pub mode: ModeView,
    pub selected: Option<int>,
    pub find_results: Seq<TodoItem>,
    pub find_mode: bool,
}

/// An `Option<usize>` selection, seen at the ghost level.
pub open spec fn sel_view(s: Option<usize>) -> Option<int> {
    match s {
        Some(i) => Some(i as int),
        None => None,
    }
}

impl View for Todolist {
    type V = TodolistView;

    open spec fn view(&self) -> TodolistView {
        TodolistView {
            mode: self.mode@,
            selected: sel_view(self.selected),
            find_results: self.find_results@,
            find_mode: self.find_mode,
        }
    }
}

/// Everything one transition decides: the next state, whether the event
/// was consumed or ignored, the store command to send (if any), and whether
/// the event needed a selection that was not there.
pub ghost struct StepView {
    pub post: TodolistView,
    pub result: EventResult,
    pub command: Option<CommandView>,
    pub missing_selection: bool,
}

/// The list the selection currently indexes.
pub open spec fn displayed(pre: TodolistView, tasks: Seq<TodoItem>) -> Seq<TodoItem> {
    if pre.find_mode {
        pre.find_results
    } else {
        tasks
    }
}

/// The item a selection-dependent key acts on, if the selection is set and
/// still within the displayed list.
pub open spec fn selected_item(pre: TodolistView, tasks: Seq<TodoItem>) -> Option<TodoItem> {
    match pre.selected {
        Some(i) => if 0 <= i < displayed(pre, tasks).len() {
            Some(displayed(pre, tasks)[i])
        } else {
            None
        },
        None => None,
    }
}

/// Selection after one step up.  The boundary policy is clamping: the first
/// row stays the first row; with nothing selected the last row is taken; an
/// index left beyond a shrunken list is pulled back in bounds; an empty
/// list has no selection.
pub open spec fn moved_up(sel: Option<int>, len: nat) -> Option<int> {
    if len == 0 {
        None
    } else {
        match sel {
            Some(i) => {
                let j = if i <= 0 { 0 } else { i - 1 };
                Some(if j > len - 1 { len - 1 } else { j })
            },
            None => Some(len - 1),
        }
    }
}

/// Selection after one step down, with the same clamping policy: the last
/// row stays the last row, and with nothing selected the first row is taken.
pub open spec fn moved_down(sel: Option<int>, len: nat) -> Option<int> {
    if len == 0 {
        None
    } else {
        match sel {
            Some(i) => {
                let j = if i < 0 { 0 } else { i + 1 };
                Some(if j > len - 1 { len - 1 } else { j })
            },
            None => Some(0),
        }
    }
}

/// A transition that leaves the state alone and ignores the event.
pub open spec fn ignored(pre: TodolistView) -> StepView {
    StepView { post: pre, result: EventResult::Ignored, command: None, missing_selection: false }
}

/// A transition to `post` with no store command.
pub open spec fn consumed(post: TodolistView) -> StepView {
    StepView { post, result: EventResult::Consumed, command: None, missing_selection: false }
}

/// A transition to `post` that also sends a store command.
pub open spec fn commanded(post: TodolistView, cmd: CommandView) -> StepView {
    StepView { post, result: EventResult::Consumed, command: Some(cmd), missing_selection: false }
}

/// A selection-dependent key with no usable selection: the state is kept
/// and the failure is reported.
pub open spec fn missing(pre: TodolistView) -> StepView {
    StepView { post: pre, result: EventResult::Consumed, command: None, missing_selection: true }
}

/// `pre` with the selection moved one step in the displayed list.
pub open spec fn moved(pre: TodolistView, tasks: Seq<TodoItem>, up: bool) -> StepView {
    let len = displayed(pre, tasks).len();
    let sel = if up {
        moved_up(pre.selected, len)
    } else {
        moved_down(pre.selected, len)
    };
    consumed(
        TodolistView {
            mode: pre.mode,
            selected: sel,
            find_results: pre.find_results,
            find_mode: pre.find_mode,
        },
    )
}

/// `pre` back in normal mode with the search display cleared: the shared
/// effect of Esc and of Backspace on an empty buffer.
pub open spec fn reset(pre: TodolistView) -> TodolistView {
    TodolistView {
        mode: ModeView::Normal,
        selected: pre.selected,
        find_results: pre.find_results,
        find_mode: false,
    }
}

/// `pre` with only the mode replaced.
pub open spec fn with_mode(pre: TodolistView, mode: ModeView) -> TodolistView {
    TodolistView {
        mode,
        selected: pre.selected,
        find_results: pre.find_results,
        find_mode: pre.find_mode,
    }
}

/// A printable character in one of the three text modes.
pub open spec fn step_char_typing(pre: TodolistView, ch: char) -> StepView {
    match pre.mode {
        ModeView::CreateTask { buffer } => consumed(
            with_mode(pre, ModeView::CreateTask { buffer: buffer.push(ch) }),
        ),
        ModeView::EditTask { id, buffer } => consumed(
            with_mode(pre, ModeView::EditTask { id, buffer: buffer.push(ch) }),
        ),
        ModeView::FindTask { buffer } => if ch == 'f' {
            consumed(
                TodolistView {
                    mode: ModeView::FindTask { buffer: Seq::empty() },
                    selected: pre.selected,
                    find_results: pre.find_results,
                    find_mode: false,
                },
            )
        } else {
            consumed(with_mode(pre, ModeView::FindTask { buffer: buffer.push(ch) }))
        },
        ModeView::Normal => ignored(pre),  // unreachable from step_char
    }
}

/// A character key in normal mode: the command keys of the transition
/// table; everything else is ignored.
pub open spec fn step_char_normal(
    pre: TodolistView,
    tasks: Seq<TodoItem>,
    sync_active: bool,
    ch: char,
) -> StepView {
    if ch == 'c' {
        consumed(with_mode(pre, ModeView::CreateTask { buffer: Seq::empty() }))
    } else if ch == 'd' {
        match selected_item(pre, tasks) {
            Some(it) => commanded(pre, CommandView::SoftDelete { id: it.id@ }),
            None => missing(pre),
        }
    } else if ch == 'e' {
        match selected_item(pre, tasks) {
            Some(it) => consumed(
                with_mode(pre, ModeView::EditTask { id: it.id@, buffer: it.title@ }),
            ),
            None => missing(pre),
        }
    } else if ch == 'f' {
        consumed(
            TodolistView {
                mode: ModeView::FindTask { buffer: Seq::empty() },
                selected: pre.selected,
                find_results: pre.find_results,
                find_mode: false,
            },
        )
    } else if ch == 's' {
        commanded(
            pre,
            if sync_active {
                CommandView::StopSync
            } else {
                CommandView::StartSync
            },
        )
    } else if ch == 'k' {
        moved(pre, tasks, true)
    } else if ch == 'j' {
        moved(pre, tasks, false)
    } else {
        ignored(pre)
    }
}

/// A character key in any mode.
pub open spec fn step_char(
    pre: TodolistView,
    tasks: Seq<TodoItem>,
    sync_active: bool,
    ch: char,
) -> StepView {
    match pre.mode {
        ModeView::Normal => step_char_normal(pre, tasks, sync_active, ch),
        ModeView::FindTask { buffer } => if ch == 'f' {
            step_char_normal(pre, tasks, sync_active, ch)
        } else {
            step_char_typing(pre, ch)
        },
        _ => step_char_typing(pre, ch),
    }
}

/// Enter in any mode: toggle `done` in normal mode, submit the buffer in
/// the three text modes.  Submitting a search replaces the results with the
/// prefix matches from the latest task list and switches the display to
/// them; an empty search text keeps every non-deleted task.
pub open spec fn step_enter(pre: TodolistView, tasks: Seq<TodoItem>) -> StepView {
    match pre.mode {
        ModeView::Normal => match selected_item(pre, tasks) {
            Some(it) => commanded(pre, CommandView::ToggleDone { id: it.id@, done: !it.done }),
            None => missing(pre),
        },
        ModeView::CreateTask { buffer } => if buffer.len() == 0 {
            consumed(pre)
        } else {
            commanded(with_mode(pre, ModeView::Normal), CommandView::Insert { title: buffer })
        },
        ModeView::EditTask { id, buffer } => if buffer.len() == 0 {
            consumed(pre)
        } else {
            commanded(
                with_mode(pre, ModeView::Normal),
                CommandView::EditTitle { id, title: buffer },
            )
        },
        ModeView::FindTask { buffer } => consumed(
            TodolistView {
                mode: ModeView::Normal,
                selected: pre.selected,
                find_results: find_filter(tasks, buffer),
                find_mode: true,
            },
        ),
    }
}

/// Backspace: pop one character, or abandon the text mode when the buffer
/// is already empty — which is exactly the Esc transition.
pub open spec fn step_backspace(pre: TodolistView) -> StepView {
    match pre.mode {
        ModeView::Normal => ignored(pre),
        ModeView::CreateTask { buffer } => if buffer.len() == 0 {
            consumed(reset(pre))
        } else {
            consumed(with_mode(pre, ModeView::CreateTask { buffer: buffer.drop_last() }))
        },
        ModeView::EditTask { id, buffer } => if buffer.len() == 0 {
            consumed(reset(pre))
        } else {
            consumed(with_mode(pre, ModeView::EditTask { id, buffer: buffer.drop_last() }))
        },
        ModeView::FindTask { buffer } => if buffer.len() == 0 {
            consumed(reset(pre))
        } else {
            consumed(with_mode(pre, ModeView::FindTask { buffer: buffer.drop_last() }))
        },
    }
}

/// Up or Down: move the selection in normal and find mode, ignore it while
/// a text buffer is being typed.
pub open spec fn step_move(pre: TodolistView, tasks: Seq<TodoItem>, up: bool) -> StepView {
    match pre.mode {
        ModeView::Normal => moved(pre, tasks, up),
        ModeView::FindTask { buffer } => moved(pre, tasks, up),
        _ => ignored(pre),
    }
}

/// The full transition table: one keystroke against one controller state,
/// with the latest task list and the current replication flag as read-only
/// inputs.
pub open spec fn step(
    pre: TodolistView,
    tasks: Seq<TodoItem>,
    sync_active: bool,
    ev: TermEvent,
) -> StepView {
    match ev {
        TermEvent::Key(k) => match k.code {
            KeyCode::Char(ch) => step_char(pre, tasks, sync_active, ch),
            KeyCode::Enter => step_enter(pre, tasks),
            KeyCode::Esc => consumed(reset(pre)),
            KeyCode::Backspace => step_backspace(pre),
            KeyCode::Up => step_move(pre, tasks, true),
            KeyCode::Down => step_move(pre, tasks, false),
            KeyCode::Other => ignored(pre),
        },
        TermEvent::Other => ignored(pre),
    }
}

/// One clamped step up through a list of `len` rows.
pub fn move_up(sel: Option<usize>, len: usize) -> (r: Option<usize>)
    ensures
        sel_view(r) == moved_up(sel_view(sel), len as nat),
{
    if len == 0 {
        None
    } else {
        match sel {
            Some(i) => {
                let j = if i == 0 {
                    0
                } else {
                    i - 1
                };
                Some(if j > len - 1 {
                    len - 1
                } else {
                    j
                })
            },
            None => Some(len - 1),
        }
    }
}

/// One clamped step down through a list of `len` rows.
pub fn move_down(sel: Option<usize>, len: usize) -> (r: Option<usize>)
    ensures
        sel_view(r) == moved_down(sel_view(sel), len as nat),
{
    if len == 0 {
        None
    } else {
        match sel {
            Some(i) => Some(
                if i >= len - 1 {
                    len - 1
                } else {
                    i + 1
                },
            ),
            None => Some(0),
        }
    }
}

impl Todolist {
    /// A fresh controller: normal mode, nothing selected, no search
    /// results, main list displayed.
    pub fn new() -> (r: Todolist)
        ensures
            r@.mode is Normal,
            r@.selected is None,
            r@.find_results == Seq::<TodoItem>::empty(),
            !r@.find_mode,
    {
        Todolist { mode: TodoMode::Normal, selected: None, find_results: Vec::new(), find_mode: false }
    }

    /// The length of the currently displayed list.
    fn displayed_len(&self, tasks: &Vec<TodoItem>) -> (r: usize)
        ensures
            r == displayed(self@, tasks@).len(),
    {
        if self.find_mode {
            self.find_results.len()
        } else {
            tasks.len()
        }
    }

    /// The selected item of the displayed list, cloned, or the
    /// no-selection failure.
    fn try_selected(&self, tasks: &Vec<TodoItem>) -> (r: Result<TodoItem, AppError>)
        ensures
            match r {
                Ok(it) => selected_item(self@, tasks@) == Some(it),
                Err(e) => selected_item(self@, tasks@) is None && e == AppError::SelectionMissing,
            },
    {
        let len = self.displayed_len(tasks);
        match self.selected {
            Some(i) => {
                if i < len {
                    if self.find_mode {
                        Ok(self.find_results[i].clone())
                    } else {
                        Ok(tasks[i].clone())
                    }
                } else {
                    Err(AppError::SelectionMissing)
                }
            },
            None => Err(AppError::SelectionMissing),
        }
    }

    /// Apply one terminal event.  `tasks` is the latest value of the live
    /// task list and `sync_active` the current replication flag; both are
    /// read, never written.  Returns whether the event was consumed and the
    /// store command the caller must deliver, or the no-selection failure —
    /// in which case the state is untouched.  The behaviour is exactly
    /// [`step`].
    pub fn try_handle_event(
        &mut self,
        event: &TermEvent,
        tasks: &Vec<TodoItem>,
        sync_active: bool,
    ) -> (r: Result<(EventResult, Option<StoreCommand>), AppError>)
        ensures
            ({
                let s = step(old(self)@, tasks@, sync_active, *event);
                match r {
                    Ok(out) => {
                        &&& !s.missing_selection
                        &&& final(self)@ == s.post
                        &&& out.0 == s.result
                        &&& opt_cmd_view(out.1) == s.command
                    },
                    Err(e) => {
                        &&& s.missing_selection
                        &&& e == AppError::SelectionMissing
                        &&& final(self)@ == old(self)@
                    },
                }
            }),
    {
        let k = match event {
            TermEvent::Key(k) => k.code,
            TermEvent::Other => {
                return Ok((EventResult::Ignored, None));
            },
        };
        match k {
            KeyCode::Char(ch) => self.handle_char(ch, tasks, sync_active),
            KeyCode::Enter => self.handle_enter(tasks),
            KeyCode::Esc => {
                self.mode = TodoMode::Normal;
                self.find_mode = false;
                Ok((EventResult::Consumed, None))
            },
            KeyCode::Backspace => self.handle_backspace(),
            KeyCode::Up => self.handle_move(tasks, true),
            KeyCode::Down => self.handle_move(tasks, false),
            KeyCode::Other => Ok((EventResult::Ignored, None)),
        }
    }

    /// A character key, in any mode.
    fn handle_char(
        &mut self,
        ch: char,
        tasks: &Vec<TodoItem>,
        sync_active: bool,
    ) -> (r: Result<(EventResult, Option<StoreCommand>), AppError>)
        ensures
            ({
                let s = step_char(old(self)@, tasks@, sync_active, ch);
                match r {
                    Ok(out) => {
                        &&& !s.missing_selection
                        &&& final(self)@ == s.post
                        &&& out.0 == s.result
                        &&& opt_cmd_view(out.1) == s.command
                    },
                    Err(e) => {
                        &&& s.missing_selection
                        &&& e == AppError::SelectionMissing
                        &&& final(self)@ == old(self)@
                    },
                }
            }),
    {
        let in_normal = matches!(&self.mode, TodoMode::Normal);
        let in_find = matches!(&self.mode, TodoMode::FindTask { .. });
        if in_normal || (in_find && ch == 'f') {
            // The command keys of normal mode; `f` restarts find input even
            // while a search is being typed.
            if ch == 'c' {
                self.mode = TodoMode::CreateTask { buffer: String::new() };
                Ok((EventResult::Consumed, None))
            } else if ch == 'd' {
                let it = self.try_selected(tasks)?;
                Ok((EventResult::Consumed, Some(StoreCommand::SoftDelete { id: it.id })))
            } else if ch == 'e' {
                let it = self.try_selected(tasks)?;
                self.mode = TodoMode::EditTask { id: it.id, buffer: it.title };
                Ok((EventResult::Consumed, None))
            } else if ch == 'f' {
                self.mode = TodoMode::FindTask { buffer: String::new() };
                self.find_mode = false;
                Ok((EventResult::Consumed, None))
            } else if ch == 's' {
                let cmd = if sync_active {
                    StoreCommand::StopSync
                } else {
                    StoreCommand::StartSync
                };
                Ok((EventResult::Consumed, Some(cmd)))
            } else if ch == 'k' {
                self.handle_move(tasks, true)
            } else if ch == 'j' {
                self.handle_move(tasks, false)
            } else {
                Ok((EventResult::Ignored, None))
            }
        } else {
            match &mut self.mode {
                TodoMode::CreateTask { buffer } => {
                    push_char(buffer, ch);
                    Ok((EventResult::Consumed, None))
                },
                TodoMode::EditTask { buffer, .. } => {
                    push_char(buffer, ch);
                    Ok((EventResult::Consumed, None))
                },
                TodoMode::FindTask { buffer } => {
                    push_char(buffer, ch);
                    Ok((EventResult::Consumed, None))
                },
                TodoMode::Normal => Ok((EventResult::Ignored, None)),
            }
        }
    }

    /// Enter, in any mode.
    fn handle_enter(&mut self, tasks: &Vec<TodoItem>) -> (r: Result<
        (EventResult, Option<StoreCommand>),
        AppError,
    >)
        ensures
            ({
                let s = step_enter(old(self)@, tasks@);
                match r {
                    Ok(out) => {
                        &&& !s.missing_selection
                        &&& final(self)@ == s.post
                        &&& out.0 == s.result
                        &&& opt_cmd_view(out.1) == s.command
                    },
                    Err(e) => {
                        &&& s.missing_selection
                        &&& e == AppError::SelectionMissing
                        &&& final(self)@ == old(self)@
                    },
                }
            }),
    {
        match &self.mode {
            TodoMode::Normal => {
                let it = self.try_selected(tasks)?;
                let done = it.done;
                Ok((
                    EventResult::Consumed,
                    Some(StoreCommand::ToggleDone { id: it.id, done: !done }),
                ))
            },
            TodoMode::CreateTask { buffer } => {
                if buffer.as_str().is_empty() {
                    Ok((EventResult::Consumed, None))
                } else {
                    let title = buffer.clone();
                    self.mode = TodoMode::Normal;
                    Ok((EventResult::Consumed, Some(StoreCommand::Insert { title })))
                }
            },
            TodoMode::EditTask { id, buffer } => {
                if buffer.as_str().is_empty() {
                    Ok((EventResult::Consumed, None))
                } else {
                    let id = id.clone();
                    let title = buffer.clone();
                    self.mode = TodoMode::Normal;
                    Ok((EventResult::Consumed, Some(StoreCommand::EditTitle { id, title })))
                }
            },
            TodoMode::FindTask { buffer } => {
                let pattern = buffer.clone();
                self.mode = TodoMode::Normal;
                self.try_find_todo(tasks, &pattern);
                Ok((EventResult::Consumed, None))
            },
        }
    }

    /// Run the prefix search against the latest task list: replace the
    /// search results with the non-deleted tasks whose title starts with
    /// `title`, and switch the display to them.  An empty `title` matches
    /// every task.
    pub fn try_find_todo(&mut self, tasks: &Vec<TodoItem>, title: &String)
        ensures
            final(self).find_results@ == find_filter(tasks@, title@),
            final(self).find_mode,
            final(self).mode == old(self).mode,
            final(self).selected == old(self).selected,
    {
        self.find_results = find_matching(tasks, title.as_str());
        self.find_mode = true;
    }

    /// Backspace, in any mode.
    fn handle_backspace(&mut self) -> (r: Result<(EventResult, Option<StoreCommand>), AppError>)
        ensures
            ({
                let s = step_backspace(old(self)@);
                match r {
                    Ok(out) => {
                        &&& !s.missing_selection
                        &&& final(self)@ == s.post
                        &&& out.0 == s.result
                        &&& opt_cmd_view(out.1) == s.command
                    },
                    Err(e) => false,
                }
            }),
    {
        let emptied = match &mut self.mode {
            TodoMode::Normal => {
                return Ok((EventResult::Ignored, None));
            },
            TodoMode::CreateTask { buffer } => {
                if buffer.as_str().is_empty() {
                    true
                } else {
                    pop_char(buffer);
                    false
                }
            },
            TodoMode::EditTask { buffer, .. } => {
                if buffer.as_str().is_empty() {
                    true
                } else {
                    pop_char(buffer);
                    false
                }
            },
            TodoMode::FindTask { buffer } => {
                if buffer.as_str().is_empty() {
                    true
                } else {
                    pop_char(buffer);
                    false
                }
            },
        };
        if emptied {
            self.mode = TodoMode::Normal;
            self.find_mode = false;
        }
        Ok((EventResult::Consumed, None))
    }

    /// Up or Down, in any mode.
    fn handle_move(&mut self, tasks: &Vec<TodoItem>, up: bool) -> (r: Result<
        (EventResult, Option<StoreCommand>),
        AppError,
    >)
        ensures
            ({
                let s = step_move(old(self)@, tasks@, up);
                match r {
                    Ok(out) => {
                        &&& final(self)@ == s.post
                        &&& out.0 == s.result
                        &&& opt_cmd_view(out.1) == s.command
                    },
                    Err(e) => false,
                }
            }),
    {
        let interpreting = match &self.mode {
            TodoMode::Normal => true,
            TodoMode::FindTask { .. } => true,
            _ => false,
        };
        if interpreting {
            let len = self.displayed_len(tasks);
            self.selected = if up {
                move_up(self.selected, len)
            } else {
                move_down(self.selected, len)
            };
            Ok((EventResult::Consumed, None))
        } else {
            Ok((EventResult::Ignored, None))
        }
    }
}

/// Law: Esc, from any mode, returns to normal mode, discards whatever was
/// in the buffer, leaves the search display, and issues no store command.
pub proof fn lemma_esc_resets(
    pre: TodolistView,
    tasks: Seq<TodoItem>,
    sync_active: bool,
    k: KeyInput,
)
    requires
        k.code is Esc,
    ensures
        ({
            let s = step(pre, tasks, sync_active, TermEvent::Key(k));
            &&& s.post.mode is Normal
            &&& !s.post.find_mode
            &&& s.post.selected == pre.selected
            &&& s.post.find_results == pre.find_results
            &&& s.result is Consumed
            &&& s.command is None
            &&& !s.missing_selection
        }),
{
}

/// Law: Backspace on an empty buffer makes exactly the transition Esc
/// makes — same next state, same result, no command.
pub proof fn lemma_backspace_empty_is_esc(
    pre: TodolistView,
    tasks: Seq<TodoItem>,
    sync_active: bool,
    bk: KeyInput,
    esc: KeyInput,
)
    requires
        bk.code is Backspace,
        esc.code is Esc,
        match pre.mode {
            ModeView::Normal => false,
            ModeView::CreateTask { buffer } => buffer.len() == 0,
            ModeView::EditTask { id, buffer } => buffer.len() == 0,
            ModeView::FindTask { buffer } => buffer.len() == 0,
        },
    ensures
        step(pre, tasks, sync_active, TermEvent::Key(bk)) == step(
            pre,
            tasks,
            sync_active,
            TermEvent::Key(esc),
        ),
{
}

/// Law: moving the selection never lands outside the displayed list, even
/// right after the list changed length underneath a stale index — after
/// Up or Down, a set selection is always in bounds, and the selection is
/// unset only when the displayed list is empty.
pub proof fn lemma_move_selection_in_bounds(
    pre: TodolistView,
    tasks: Seq<TodoItem>,
    sync_active: bool,
    k: KeyInput,
)
    requires
        pre.mode is Normal || pre.mode is FindTask,
        k.code is Up || k.code is Down,
    ensures
        ({
            let s = step(pre, tasks, sync_active, TermEvent::Key(k));
            match s.post.selected {
                Some(i) => 0 <= i < displayed(s.post, tasks).len(),
                None => displayed(s.post, tasks).len() == 0,
            }
        }),
{
}

} // verus!
