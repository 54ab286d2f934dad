use vstd::prelude::*;

verus! {

/// A key press, as the terminal reports it: whether Control was held, and the character of
/// the key where it is a character key.
#[derive(Clone, Copy, Debug, PartialEq, Eq, Structural)]
pub struct KeyPress {
    pub ctrl: bool,
    pub ch: Option<char>,
}

/// What a key sequence asks of the application as a whole.
#[derive(Clone, Copy, Debug, PartialEq, Eq, Structural)]
pub enum Termination {
    /// `<C-c>`: leave the application in good order.
    Exit,
    /// `<C-/>`: abort the application at once.
    Abort,
}

/// What `key` asks of the application as a whole, where it is one of the sequences that end it.
pub open spec fn spec_terminate_sequence(key: KeyPress) -> Option<Termination> {
    if key.ctrl && key.ch == Some('c') {
        Some(Termination::Exit)
    } else if key.ctrl && key.ch == Some('/') {
        Some(Termination::Abort)
    } else {
        None
    }
}

/// Only Control ends the application: a key pressed without Control never does. With
/// Control, `c` exits, `/` aborts, and every other key goes on as input; a sequence that ends
/// the application always has Control held.
pub proof fn lemma_only_control_ends(key: KeyPress)
    ensures
        !key.ctrl ==> spec_terminate_sequence(key) is None,
        key.ctrl && key.ch == Some('c') ==> spec_terminate_sequence(key) == Some(Termination::Exit),
        key.ctrl && key.ch == Some('/') ==> spec_terminate_sequence(key) == Some(Termination::Abort),
        key.ch != Some('c') && key.ch != Some('/') ==> spec_terminate_sequence(key) is None,
        spec_terminate_sequence(key) is Some ==> key.ctrl,
{
}

/// Recognises the key sequences that end the application: `<C-c>` exits and `<C-/>` aborts.
pub fn check_terminate_sequence(key: &KeyPress) -> (seq: Option<Termination>)
    ensures
        seq == spec_terminate_sequence(*key),
{
    if key.ctrl {
        match key.ch {
            Some('c') => return Some(Termination::Exit),
            Some('/') => return Some(Termination::Abort),
            _ => {},
        }
    }
    None
}

} // verus!
