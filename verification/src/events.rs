//! Terminal input as the core consumes it: one discrete event type,
//! already decoded from raw input by the terminal driver.

use vstd::prelude::*;

verus! {

/// The modifier held during a key press, as far as the widgets care: the
/// key-press hint shows a glyph for exactly these three, and `Other`
/// covers no modifier as well as any combination.
#[derive(Debug, Clone, Copy, PartialEq, Eq, Structural)]
pub enum KeyModifiers {
    Shift,
    Alt,
    Control,
    Other,
}

/// The key itself. Everything the widgets do not bind is `Other`.
#[derive(Debug, Clone, Copy, PartialEq, Eq, Structural)]
pub enum KeyCode {
    Char(char),
    Enter,
    Tab,
    Other,
}

#[derive(Debug, Clone, Copy, PartialEq, Eq, Structural)]
pub struct KeyEvent {
    pub code: KeyCode,
    pub modifiers: KeyModifiers,
}

/// One decoded terminal event. `Tick` and `Render` come from the driver's
/// timers; `Ignore` stands for raw input the driver discards; `Error` for
/// a failed read.
#[derive(Debug, Clone, Copy, PartialEq, Eq, Structural)]
pub enum TerminalEvent {
    Tick,
    Render,
    Key(KeyEvent),
    Mouse,
    Resize(u16, u16),
    Ignore,
    Error,
}

} // verus!
