//! The editor: the quit flag and the view, driven by one input event at a
//! time. The surrounding event loop (terminal input and drawing) lives
//! outside this crate and feeds events in as plain values.

use crate::editorcommand::{actionable, command_for, EditorCommand, InputEvent};
use crate::screen::Size;
use crate::view::{command_applied, EditorView, Location};
use vstd::prelude::*;

verus! {

/// The whole editor state.
#[derive(Debug)]
pub struct Editor {
    pub should_quit: bool,
    pub view: EditorView,
}

impl Editor {
    /// A fresh editor for a viewport of the given size.
    pub fn new(size: Size) -> (r: Editor)
        ensures
            !r.should_quit,
            r.view.buffer.lines@.len() == 0,
            r.view.size == size,
            r.view.needs_redraw,
            r.view.text_location == (Location { grapheme_index: 0, line_index: 0 }),
            r.view.scroll_offset == (crate::screen::Position { col: 0, row: 0 }),
            r.view.wf(),
    {
        Editor { should_quit: false, view: EditorView::new(size) }
    }

    /// Feeds one input event through the dispatcher: events that are not
    /// acted on, and events with no command, leave everything unchanged; a
    /// quit command raises the quit flag; every other command is applied to
    /// the view.
    pub fn evaluate_event(&mut self, event: InputEvent)
        requires
            old(self).view.wf(),
        ensures
            final(self).view.wf(),
            !actionable(event) ==> *final(self) == *old(self),
            actionable(event) && command_for(event) is Err ==> *final(self) == *old(self),
            actionable(event) && command_for(event) == Ok::<EditorCommand, InputEvent>(
                EditorCommand::Quit,
            ) ==> final(self).should_quit && final(self).view == old(self).view,
            actionable(event) && command_for(event) is Ok && command_for(event)->Ok_0
                != EditorCommand::Quit ==> {
                &&& final(self).should_quit == old(self).should_quit
                &&& command_applied(old(self).view, final(self).view, command_for(event)->Ok_0)
            },
    {
        if event.should_process() {
            match EditorCommand::try_from(event) {
                Ok(command) => {
                    if matches!(command, EditorCommand::Quit) {
                        self.should_quit = true;
                    } else {
                        self.view.handle_command(command);
                    }
                },
                Err(_) => {},
            }
        }
    }
}

} // verus!
