//! Event-driven control core for a live-updating todo list backed by an
//! external synchronizing document store.
//!
//! The modules here hold the logic that is worth stating exactly: the mode
//! state machine that interprets keystrokes ([`tui::todolist`]), the
//! dispatcher that routes merged input events ([`tui`]), the pure rendering
//! model ([`render`]), the shutdown bookkeeping ([`shutdown`]), and a local
//! model of the document store's visible behaviour ([`store`]).  All process
//! wiring — the terminal, the async runtime, and the store connection — lives
//! outside this crate and talks to it through plain values.

use vstd::prelude::*;

pub mod events;
pub mod render;
pub mod shutdown;
pub mod store;
pub mod term;
pub mod text;
pub mod todo;
pub mod tui;

use crate::events::{KeyCode, TermEvent};

verus! {

/// The global quit keybinding: a plain `q`, or `c`/`d` with Control held.
pub open spec fn is_quit_event(input: TermEvent) -> bool {
    match input {
        TermEvent::Key(k) => k.code == KeyCode::Char('q') || (k.ctrl && (k.code
            == KeyCode::Char('c') || k.code == KeyCode::Char('d'))),
        TermEvent::Other => false,
    }
}

/// Whether a terminal event matches the global quit keybinding.  The caller
/// consults this only for events the todolist reported as ignored.
pub fn should_quit(input: &TermEvent) -> (r: bool)
    ensures
        r == is_quit_event(*input),
{
    match input {
        TermEvent::Key(k) => match k.code {
            KeyCode::Char(ch) => ch == 'q' || (k.ctrl && (ch == 'c' || ch == 'd')),
            _ => false,
        },
        TermEvent::Other => false,
    }
}

} // verus!
