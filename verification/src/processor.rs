//! The event processor: what the program does with the events that the window
//! delivered since the last frame.

use crate::command::{Command, CommandView};
use crate::window::Window;
use vstd::prelude::*;

verus! {

/// The key code of the escape key.
pub const KEY_ESCAPE: i32 = 256;

/// A key of the keyboard, by the code the window system gives it.
#[derive(Clone, Copy, Debug, PartialEq, Eq)]
pub struct Key {
    pub code: i32,
}

/// What happened to a key.
#[derive(Clone, Copy, Debug, PartialEq, Eq)]
pub enum Action {
    Release,
    Press,
    Repeat,
}

/// An event delivered by the window.
#[derive(Clone, Copy, Debug, PartialEq, Eq)]
pub enum WindowEvent {
    /// The framebuffer was resized to this width and height, in pixels.
    FramebufferSize(i32, i32),
    /// A key changed state: the key, its scancode, what happened, and the
    /// modifier keys held, as a bit set.
    Key(Key, i32, Action, i32),
    /// Any other event.
    Other,
}

/// Whether an event asks the program to end: a press of the escape key.
pub open spec fn is_close_request(event: WindowEvent) -> bool {
    event matches WindowEvent::Key(key, _, action, _) && key.code == KEY_ESCAPE
        && action is Press
}

/// Whether any of the events asks the program to end.
pub open spec fn requests_close(events: Seq<WindowEvent>) -> bool {
    exists|i: int| 0 <= i < events.len() && is_close_request(#[trigger] events[i])
}

/// The viewport command that an event calls for, if it is a resize: the whole
/// new framebuffer, from its lower left corner.
pub open spec fn viewport_update(event: WindowEvent) -> Option<CommandView> {
    match event {
        WindowEvent::FramebufferSize(width, height) => Some(
            CommandView::Viewport { x: 0, y: 0, width, height },
        ),
        _ => None,
    }
}

/// The viewport commands that the events call for, one for each resize, in the
/// order in which the events arrived.
pub open spec fn viewport_updates(events: Seq<WindowEvent>) -> Seq<CommandView> {
    events.filter_map(|event: WindowEvent| viewport_update(event))
}

/// Events are handled one by one, in the order in which they arrived: what a
/// queue calls for is what its front part calls for, followed by what the rest
/// calls for.
pub proof fn lemma_events_are_handled_in_order(front: Seq<WindowEvent>, rest: Seq<WindowEvent>)
    ensures
        viewport_updates(front + rest) == viewport_updates(front) + viewport_updates(rest),
        requests_close(front + rest) == (requests_close(front) || requests_close(rest)),
    decreases rest.len(),
{
    let all = front + rest;
    if rest.len() > 0 {
        lemma_events_are_handled_in_order(front, rest.drop_last());
        assert(all.drop_last() =~= front + rest.drop_last());
    }
    if requests_close(rest) {
        let i = choose|i: int| 0 <= i < rest.len() && is_close_request(#[trigger] rest[i]);
        assert(is_close_request(all[front.len() + i]));
    }
}

/// Handles the events of one frame, oldest first.
///
/// Each resize of the framebuffer yields a command that sets the viewport to
/// the new size; a press of the escape key sets the close flag of the window;
/// every other event is ignored. The close flag is never cleared.
pub fn process_events(window: &mut Window, events: &Vec<WindowEvent>) -> (commands: Vec<Command>)
    ensures
        commands.deep_view() == viewport_updates(events@),
        final(window).closing() == (old(window).closing() || requests_close(events@)),
{
    let mut commands: Vec<Command> = Vec::new();
    let mut i: usize = 0;
    while i < events.len()
        invariant
            i <= events.len(),
            commands.deep_view() == viewport_updates(events@.take(i as int)),
            window.closing() == (old(window).closing() || requests_close(events@.take(i as int))),
        decreases events.len() - i,
    {
        proof {
            events@.lemma_filter_map_take_succ(|event: WindowEvent| viewport_update(event), i as int);
        }
        match events[i] {
            WindowEvent::FramebufferSize(width, height) => {
                commands.push(Command::Viewport { x: 0, y: 0, width, height });
            },
            WindowEvent::Key(key, _, Action::Press, _) => {
                if key.code == KEY_ESCAPE {
                    window.set_should_close(true);
                }
            },
            _ => {},
        }
        i += 1;
    }
    proof {
        assert(events@.take(i as int) =~= events@);
    }
    commands
}

} // verus!
