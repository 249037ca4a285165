use crate::app::App;
use crate::app::down_effect;
use crate::app::rotate_left_effect;
use crate::app::rotate_right_effect;
use crate::app::up_effect;
use vstd::prelude::*;

verus! {

/// A key as the dispatcher understands it. Anything the dashboard never
/// reacts to arrives as `Other`.
#[derive(Debug, Clone, Copy, PartialEq, Eq, Structural)]
pub enum Key {
    Char(char),
    Left,
    Right,
    Up,
    Down,
    Enter,
    Other,
}

/// One key press: the key itself, and whether the control modifier alone
/// was held with it.
#[derive(Debug, Clone, Copy, PartialEq, Eq, Structural)]
pub struct KeyEvent {
    pub code: Key,
    pub ctrl: bool,
}

/// The dispatch table: control-c raises the termination flag and nothing
/// else; h and the left arrow rotate focus backward; l and the right arrow
/// rotate it forward; j and the down arrow move the focused cursor down; k
/// and the up arrow move it up; enter is reserved and, like every other
/// key, changes nothing.
pub open spec fn key_effect(key: KeyEvent, pre: App, post: App) -> bool {
    if key.ctrl && key.code == Key::Char('c') {
        post == App { should_quit: true, ..pre }
    } else {
        match key.code {
            Key::Char('h') | Key::Left => rotate_left_effect(pre, post),
            Key::Char('l') | Key::Right => rotate_right_effect(pre, post),
            Key::Char('j') | Key::Down => down_effect(pre, post),
            Key::Char('k') | Key::Up => up_effect(pre, post),
            _ => post == pre,
        }
    }
}

/// Turns one key press into at most one state mutation, as the dispatch
/// table says.
pub fn handle_key_event(key: KeyEvent, app: &mut App)
    requires
        old(app).wf(),
    ensures
        final(app).wf(),
        key_effect(key, *old(app), *final(app)),
{
    if key.ctrl && key.code == Key::Char('c') {
        app.should_quit = true;
        return ;
    }
    match key.code {
        Key::Char('h') | Key::Left => app.on_left(),
        Key::Char('l') | Key::Right => app.on_right(),
        Key::Char('j') | Key::Down => app.on_down(),
        Key::Char('k') | Key::Up => app.on_up(),
        Key::Enter => {},
        _ => {},
    }
}

} // verus!
