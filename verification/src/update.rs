//! The input controller: maps discrete key events to state mutations.
//!
//! The terminal event source lives outside the library and hands in a
//! [`KeyInput`] per key press. Bindings: `q`, `Esc` and `Ctrl+C` quit;
//! `p` toggles the profile switcher; `Up`/`k` and `Down`/`j` navigate
//! the profile list or the status rows, depending on the view; `Enter`
//! closes the profile switcher and does nothing in the main view.

use vstd::prelude::*;

use crate::app::{profile_switched, App, CurrentView};

verus! {

/// One key press, as the event source reports it.
#[derive(Debug, Clone, Copy, PartialEq, Eq, Structural)]
pub enum KeyInput {
    Esc,
    Enter,
    Up,
    Down,
    /// A plain character key.
    Char(char),
    /// A character key pressed with the control modifier.
    CtrlChar(char),
    /// Anything else; always ignored.
    Other,
}

/// The keys that end the session.
pub open spec fn quits(key: KeyInput) -> bool {
    ||| key == KeyInput::Esc
    ||| key == KeyInput::Char('q')
    ||| key == KeyInput::CtrlChar('c')
    ||| key == KeyInput::CtrlChar('C')
}

/// The keys that the controller leaves alone.
pub open spec fn ignored(key: KeyInput) -> bool {
    match key {
        KeyInput::Char(c) => c != 'q' && c != 'p' && c != 'k' && c != 'j',
        KeyInput::CtrlChar(c) => c != 'c' && c != 'C',
        KeyInput::Other => true,
        _ => false,
    }
}

/// The view toggled between the main table and the profile switcher.
pub open spec fn flip_view(v: CurrentView) -> CurrentView {
    match v {
        CurrentView::Main => CurrentView::ProfileSwitcher,
        CurrentView::ProfileSwitcher => CurrentView::Main,
    }
}

pub open spec fn toggled(pre: App, post: App) -> bool {
    post == (App { current_view: flip_view(pre.current_view), ..pre })
}

/// What an up key does: in the switcher it moves the profile
/// selection, otherwise the row cursor; both clamp at the top.
pub open spec fn nav_up(pre: App, post: App) -> bool {
    if pre.current_view == CurrentView::ProfileSwitcher {
        &&& pre.current_profile > 0 ==> profile_switched(pre, post, pre.current_profile - 1)
        &&& pre.current_profile == 0 ==> post == pre
    } else {
        &&& pre.collection_cursor > 0 ==> post == (App {
            collection_cursor: (pre.collection_cursor - 1) as usize,
            ..pre
        })
        &&& pre.collection_cursor == 0 ==> post == pre
    }
}

/// What a down key does: both selections clamp at their bottom — the
/// profile selection at the last profile, the row cursor at the row
/// count.
pub open spec fn nav_down(pre: App, post: App) -> bool {
    if pre.current_view == CurrentView::ProfileSwitcher {
        &&& pre.current_profile + 1 < pre.config.profiles@.len() ==> profile_switched(
            pre,
            post,
            pre.current_profile + 1,
        )
        &&& pre.current_profile + 1 >= pre.config.profiles@.len() ==> post == pre
    } else {
        &&& pre.collection_cursor < pre.status.results@.len() ==> post == (App {
            collection_cursor: (pre.collection_cursor + 1) as usize,
            ..pre
        })
        &&& pre.collection_cursor >= pre.status.results@.len() ==> post == pre
    }
}

/// Routes one key press to the state operation it is bound to.
pub fn update(app: &mut App, key: KeyInput)
    requires
        old(app).wf(),
    ensures
        final(app).wf(),
        quits(key) ==> *final(app) == (App { should_quit: true, ..*old(app) }),
        key == KeyInput::Char('p') ==> toggled(*old(app), *final(app)),
        (key == KeyInput::Up || key == KeyInput::Char('k')) ==> nav_up(*old(app), *final(app)),
        (key == KeyInput::Down || key == KeyInput::Char('j')) ==> nav_down(
            *old(app),
            *final(app),
        ),
        key == KeyInput::Enter ==> (if old(app).current_view == CurrentView::ProfileSwitcher {
            toggled(*old(app), *final(app))
        } else {
            *final(app) == *old(app)
        }),
        ignored(key) ==> *final(app) == *old(app),
{
    match key {
        KeyInput::Esc => app.quit(),
        KeyInput::Enter => {
            if app.show_profile_selector() {
                app.toggle_profile_selector();
            }
        },
        KeyInput::Up => {
            if app.show_profile_selector() {
                app.profile_up();
            } else {
                app.collection_up();
            }
        },
        KeyInput::Down => {
            if app.show_profile_selector() {
                app.profile_down();
            } else {
                app.collection_down();
            }
        },
        KeyInput::Char(c) => {
            if c == 'q' {
                app.quit();
            } else if c == 'p' {
                app.toggle_profile_selector();
            } else if c == 'k' {
                if app.show_profile_selector() {
                    app.profile_up();
                } else {
                    app.collection_up();
                }
            } else if c == 'j' {
                if app.show_profile_selector() {
                    app.profile_down();
                } else {
                    app.collection_down();
                }
            }
        },
        KeyInput::CtrlChar(c) => {
            if c == 'c' || c == 'C' {
                app.quit();
            }
        },
        KeyInput::Other => {
        },
    }
}

} // verus!
