//! Dispatching merged input events to the todolist controller.
//!
//! The process wiring merges three sources into one stream of
//! [`TuiEvent`]s: the shutdown signal, raw terminal input, and a fixed-rate
//! frame tick.  [`TuiContext::try_handle_event`] is the verified decision
//! core of the driver loop: it says for every event whether the loop goes
//! on or breaks, which store command must be delivered, and whether the
//! global quit binding fired — the caller performs the delivery, the
//! redraw, and the shutdown trigger.

use vstd::prelude::*;
use crate::events::TermEvent;
use crate::is_quit_event;
use crate::should_quit;
use crate::store::{opt_cmd_view, StoreCommand};
use crate::todo::TodoItem;
use crate::tui::todolist::{step, Todolist};

pub mod todolist;

verus! {

/// Whether the todolist handled an event.  Only ignored events are checked
/// against the global quit binding.
#[derive(Clone, Copy, Debug, PartialEq, Eq, Structural)]
pub enum EventResult {
    Ignored,
    Consumed,
}

impl EventResult {
    pub fn is_ignored(&self) -> (r: bool)
        ensures
            r == (*self is Ignored),
    {
        matches!(self, EventResult::Ignored)
    }

    pub fn is_consumed(&self) -> (r: bool)
        ensures
            r == (*self is Consumed),
    {
        matches!(self, EventResult::Consumed)
    }
}

/// The failure kinds that bubble up to the driver's recovery loop.  None
/// of them ends the process: the outer loop logs and restarts.
#[derive(Clone, Copy, Debug, PartialEq, Eq, Structural)]
pub enum AppError {
    /// The merged event stream yielded no more events.
    InputStreamEnded,
    /// Reading terminal input failed.
    TerminalIoError,
    /// The store rejected or failed a command.
    StoreCommandError,
    /// A selection-dependent key was pressed with no valid selection.
    SelectionMissing,
}

/// One event out of the merged stream.
#[derive(Debug)]
pub enum TuiEvent {
    /// One tick of the frame rate has passed: redraw.
    FrameTick,
    /// A terminal event, or the report that reading one failed.
    Terminal(Result<TermEvent, AppError>),
    /// The shutdown signal was triggered: clean up and quit.
    Shutdown,
}

/// Whether the inner driver loop goes on after an event.
#[derive(Clone, Copy, Debug, PartialEq, Eq, Structural)]
pub enum Flow {
    Continue,
    Break,
}

/// What the driver must do after one dispatched event: keep looping or
/// break, deliver a store command, and — when `quit` is set — trigger the
/// global shutdown.
#[derive(Debug)]
pub struct Dispatch {
    pub flow: Flow,
    pub command: Option<StoreCommand>,
    pub quit: bool,
}

/// The controller state the driver loop carries between events.
#[derive(Debug)]
pub struct TuiContext {
    pub todolist: Todolist,
}

impl TuiContext {
    /// A fresh context around a fresh controller.
    pub fn new() -> (r: TuiContext)
        ensures
            r.todolist@.mode is Normal,
            r.todolist@.selected is None,
            r.todolist@.find_results == Seq::<TodoItem>::empty(),
            !r.todolist@.find_mode,
    {
        TuiContext { todolist: Todolist::new() }
    }

    /// Dispatch one merged event.
    ///
    /// A frame tick changes nothing and continues (the caller redraws); a
    /// shutdown event breaks at once, in every mode and with no command; a
    /// terminal read failure is the terminal-input error; a terminal event
    /// goes to the todolist, and if the todolist ignored it and it matches
    /// the quit binding, the loop breaks with `quit` set.
    pub fn try_handle_event(
        &mut self,
        event: &TuiEvent,
        tasks: &Vec<TodoItem>,
        sync_active: bool,
    ) -> (r: Result<Dispatch, AppError>)
        ensures
            match *event {
                TuiEvent::FrameTick => {
                    &&& final(self)@ == old(self)@
                    &&& match r {
                        Ok(d) => d.flow is Continue && d.command is None && !d.quit,
                        Err(_) => false,
                    }
                },
                TuiEvent::Shutdown => {
                    &&& final(self)@ == old(self)@
                    &&& match r {
                        Ok(d) => d.flow is Break && d.command is None && !d.quit,
                        Err(_) => false,
                    }
                },
                TuiEvent::Terminal(input) => match input {
                    Err(_) => {
                        &&& final(self)@ == old(self)@
                        &&& r == Err::<Dispatch, AppError>(AppError::TerminalIoError)
                    },
                    Ok(ev) => {
                        let s = step(old(self).todolist@, tasks@, sync_active, ev);
                        match r {
                            Ok(d) => {
                                &&& !s.missing_selection
                                &&& final(self).todolist@ == s.post
                                &&& opt_cmd_view(d.command) == s.command
                                &&& d.quit == (s.result is Ignored && is_quit_event(ev))
                                &&& (d.flow is Break) == d.quit
                            },
                            Err(e) => {
                                &&& s.missing_selection
                                &&& e == AppError::SelectionMissing
                                &&& final(self)@ == old(self)@
                            },
                        }
                    },
                },
            },
    {
        match event {
            TuiEvent::FrameTick => Ok(
                Dispatch { flow: Flow::Continue, command: None, quit: false },
            ),
            TuiEvent::Shutdown => Ok(Dispatch { flow: Flow::Break, command: None, quit: false }),
            TuiEvent::Terminal(input) => {
                let ev = match input {
                    Ok(ev) => *ev,
                    Err(_) => {
                        return Err(AppError::TerminalIoError);
                    },
                };
                let (res, command) = self.todolist.try_handle_event(&ev, tasks, sync_active)?;
                if res.is_ignored() && should_quit(&ev) {
                    Ok(Dispatch { flow: Flow::Break, command, quit: true })
                } else {
                    Ok(Dispatch { flow: Flow::Continue, command, quit: false })
                }
            },
        }
    }
}

/// The view of a context is the view of its controller.
impl View for TuiContext {
    type V = crate::tui::todolist::TodolistView;

    open spec fn view(&self) -> crate::tui::todolist::TodolistView {
        self.todolist@
    }
}

} // verus!
