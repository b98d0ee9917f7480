//! The pure rendering model: a frame as plain data.
//!
//! A frame is a function of the displayed list, the selection, the
//! replication flag, and the mode; nothing else.  The process wiring maps
//! a [`FrameModel`] onto actual widgets — glyphs, borders, highlight style
//! and scrolling are presentation and stay out here.

use vstd::prelude::*;
use crate::todo::TodoItem;
use crate::tui::todolist::{displayed, ModeView, TodoMode, Todolist};

verus! {

/// One table row: the completion marker and the title column.
#[derive(Debug)]
pub struct RowModel {
    pub done: bool,
    pub title: String,
}

/// The overlay box drawn over the table while text is being typed.
#[derive(Debug)]
pub enum Overlay {
    /// The "new todo" prompt, also used while editing an existing title.
    TodoPrompt { buffer: String },
    /// The search input prompt.
    FindPrompt { buffer: String },
}

/// A rendered frame: the rows of the displayed list, the highlighted row,
/// the replication status for the header line, and the overlay, if any.
#[derive(Debug)]
pub struct FrameModel {
    pub rows: Vec<RowModel>,
    pub selected: Option<usize>,
    pub sync_active: bool,
    pub overlay: Option<Overlay>,
}

impl Todolist {
    /// Render the current state against the latest task list.  Pure: the
    /// controller is only read.
    ///
    /// The rows mirror the displayed list one to one; the overlay shows
    /// the live buffer exactly when a text mode is active.
    pub fn render(&self, tasks: &Vec<TodoItem>, sync_active: bool) -> (f: FrameModel)
        ensures
            f.rows@.len() == displayed(self@, tasks@).len(),
            forall|i: int|
                0 <= i < f.rows@.len() ==> (#[trigger] f.rows@[i]).done == displayed(
                    self@,
                    tasks@,
                )[i].done && f.rows@[i].title == displayed(self@, tasks@)[i].title,
            f.selected == self.selected,
            f.sync_active == sync_active,
            match self@.mode {
                ModeView::Normal => f.overlay is None,
                ModeView::CreateTask { buffer } => match f.overlay {
                    Some(Overlay::TodoPrompt { buffer: b }) => b@ == buffer,
                    _ => false,
                },
                ModeView::EditTask { id, buffer } => match f.overlay {
                    Some(Overlay::TodoPrompt { buffer: b }) => b@ == buffer,
                    _ => false,
                },
                ModeView::FindTask { buffer } => match f.overlay {
                    Some(Overlay::FindPrompt { buffer: b }) => b@ == buffer,
                    _ => false,
                },
            },
    {
        let source: &Vec<TodoItem> = if self.find_mode {
            &self.find_results
        } else {
            tasks
        };
        let mut rows: Vec<RowModel> = Vec::new();
        let mut i: usize = 0;
        while i < source.len()
            invariant
                i <= source@.len(),
                rows@.len() == i,
                forall|j: int|
                    0 <= j < i ==> (#[trigger] rows@[j]).done == source@[j].done && rows@[j].title
                        == source@[j].title,
            decreases source@.len() - i,
        {
            let t = &source[i];
            rows.push(RowModel { done: t.done, title: t.title.clone() });
            i += 1;
        }
        let overlay = match &self.mode {
            TodoMode::Normal => None,
            TodoMode::CreateTask { buffer } => Some(Overlay::TodoPrompt { buffer: buffer.clone() }),
            TodoMode::EditTask { buffer, .. } => Some(
                Overlay::TodoPrompt { buffer: buffer.clone() },
            ),
            TodoMode::FindTask { buffer } => Some(Overlay::FindPrompt { buffer: buffer.clone() }),
        };
        FrameModel { rows, selected: self.selected, sync_active, overlay }
    }
}

} // verus!
