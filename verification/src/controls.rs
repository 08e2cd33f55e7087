//! Decisions behind the keyboard shortcuts of the preview window.

use crate::text::{decimal, push_decimal};
use vstd::prelude::*;
use vstd::string::*;

verus! {

/// How the preview window occupies the screen.
#[derive(Debug, Clone, Copy, PartialEq, Eq, Structural)]
pub enum DisplayMode {
    Windowed,
    BorderlessFullscreen,
    SizedFullscreen,
    Fullscreen,
}

/// The mode after the fullscreen shortcut: a windowed preview goes
/// borderless fullscreen and back; the exclusive fullscreen modes are left
/// alone.
pub open spec fn toggled(mode: DisplayMode) -> DisplayMode {
    match mode {
        DisplayMode::BorderlessFullscreen => DisplayMode::Windowed,
        DisplayMode::Windowed => DisplayMode::BorderlessFullscreen,
        other => other,
    }
}

/// The window mode after one tick: toggled if the fullscreen key was just
/// pressed, unchanged otherwise.
pub fn fullscreen(just_pressed: bool, mode: DisplayMode) -> (next: DisplayMode)
    ensures
        next == if just_pressed {
            toggled(mode)
        } else {
            mode
        },
{
    if just_pressed {
        match mode {
            DisplayMode::BorderlessFullscreen => DisplayMode::Windowed,
            DisplayMode::Windowed => DisplayMode::BorderlessFullscreen,
            other => other,
        }
    } else {
        mode
    }
}

/// The file a screenshot with the given running number is saved to.
pub open spec fn screenshot_path_text(counter: nat) -> Seq<char> {
    "./screenshot-"@ + decimal(counter) + ".png"@
}

/// The file a screenshot with the given running number is saved to.
pub fn screenshot_path(counter: u32) -> (path: String)
    ensures
        path@ == screenshot_path_text(counter as nat),
{
    let mut path = String::from_str("./screenshot-");
    push_decimal(&mut path, counter as u64);
    path.append(".png");
    path
}

/// What the screenshot shortcut asks for in one tick: nothing unless the key
/// was just pressed; otherwise the file to save to, named after the running
/// number, and the running number of the next screenshot.
pub fn screenshot(just_pressed: bool, counter: u32) -> (request: Option<(String, u32)>)
    requires
        just_pressed ==> counter < u32::MAX,
    ensures
        request is Some <==> just_pressed,
        request matches Some((path, next)) ==> path@ == screenshot_path_text(counter as nat)
            && next == counter + 1,
{
    if just_pressed {
        Some((screenshot_path(counter), counter + 1))
    } else {
        None
    }
}

} // verus!
