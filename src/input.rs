use vstd::prelude::*;

use crate::app::Difficulty;

verus! {

/// A command from the keyboard.
#[derive(Debug, Clone, Copy, PartialEq, Eq, Structural)]
pub enum AppSignal {
    Quit,
    Easy,
    Hell,
    Guitar,
    Next,
}

/// The command bound to a key, if any: q, e, h, g and n.
pub fn signal_for_key(c: char) -> (r: Option<AppSignal>)
    ensures
        r == if c == 'q' {
            Some(AppSignal::Quit)
        } else if c == 'e' {
            Some(AppSignal::Easy)
        } else if c == 'h' {
            Some(AppSignal::Hell)
        } else if c == 'g' {
            Some(AppSignal::Guitar)
        } else if c == 'n' {
            Some(AppSignal::Next)
        } else {
            None::<AppSignal>
        },
{
    if c == 'q' {
        Some(AppSignal::Quit)
    } else if c == 'e' {
        Some(AppSignal::Easy)
    } else if c == 'h' {
        Some(AppSignal::Hell)
    } else if c == 'g' {
        Some(AppSignal::Guitar)
    } else if c == 'n' {
        Some(AppSignal::Next)
    } else {
        None
    }
}

/// The difficulty a command selects, if it selects one.
pub fn difficulty_for_signal(signal: AppSignal) -> (r: Option<Difficulty>)
    ensures
        r == match signal {
            AppSignal::Easy => Some(Difficulty::Easy),
            AppSignal::Hell => Some(Difficulty::Hell),
            AppSignal::Guitar => Some(Difficulty::Guitar),
            _ => None::<Difficulty>,
        },
{
    match signal {
        AppSignal::Easy => Some(Difficulty::Easy),
        AppSignal::Hell => Some(Difficulty::Hell),
        AppSignal::Guitar => Some(Difficulty::Guitar),
        _ => None,
    }
}

} // verus!
