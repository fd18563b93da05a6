//! Plans for the synthetic key events of turbo mode. The library only decides
//! which events to emit; injecting them into the OS is the caller's business.

use vstd::prelude::*;

verus! {

/// A key the tool may synthesize.
#[derive(Clone, Copy, PartialEq, Eq, Structural, Debug)]
pub enum SimKey {
    Alt,
    Control,
    Unicode(char),
}

/// What is done with the key.
#[derive(Clone, Copy, PartialEq, Eq, Structural, Debug)]
pub enum KeyMotion {
    Press,
    Release,
    Click,
}

/// One synthetic key event.
#[derive(Clone, Copy, PartialEq, Eq, Structural, Debug)]
pub struct KeyAction {
    pub key: SimKey,
    pub motion: KeyMotion,
}

/// Milliseconds to wait after releasing the modifier, before the copy
/// combination, so the release has taken effect.
pub const ALT_RELEASE_SETTLE_MS: u64 = 50;

/// Milliseconds to wait after the copy combination, so the OS and the target
/// application have populated the clipboard.
pub const CLIPBOARD_SETTLE_MS: u64 = 200;

/// The key events that trigger a copy of the current selection: release the
/// modifier that invoked the tool, then Ctrl+C. Empty without turbo mode.
pub open spec fn copy_actions_spec(turbo_mode: bool) -> Seq<KeyAction> {
    if turbo_mode {
        seq![
            KeyAction { key: SimKey::Alt, motion: KeyMotion::Release },
            KeyAction { key: SimKey::Control, motion: KeyMotion::Press },
            KeyAction { key: SimKey::Unicode('c'), motion: KeyMotion::Click },
            KeyAction { key: SimKey::Control, motion: KeyMotion::Release },
        ]
    } else {
        Seq::<KeyAction>::empty()
    }
}

/// The key events that paste the corrected text: Ctrl+V. Empty without turbo
/// mode.
pub open spec fn paste_actions_spec(turbo_mode: bool) -> Seq<KeyAction> {
    if turbo_mode {
        seq![
            KeyAction { key: SimKey::Control, motion: KeyMotion::Press },
            KeyAction { key: SimKey::Unicode('v'), motion: KeyMotion::Click },
            KeyAction { key: SimKey::Control, motion: KeyMotion::Release },
        ]
    } else {
        Seq::<KeyAction>::empty()
    }
}

/// The copy plan for the given mode.
pub fn copy_key_actions(turbo_mode: bool) -> (r: Vec<KeyAction>)
    ensures
        r@ == copy_actions_spec(turbo_mode),
{
    let mut v: Vec<KeyAction> = Vec::new();
    if turbo_mode {
        v.push(KeyAction { key: SimKey::Alt, motion: KeyMotion::Release });
        v.push(KeyAction { key: SimKey::Control, motion: KeyMotion::Press });
        v.push(KeyAction { key: SimKey::Unicode('c'), motion: KeyMotion::Click });
        v.push(KeyAction { key: SimKey::Control, motion: KeyMotion::Release });
    }
    proof {
        assert(v@ =~= copy_actions_spec(turbo_mode));
    }
    v
}

/// The paste plan for the given mode.
pub fn paste_key_actions(turbo_mode: bool) -> (r: Vec<KeyAction>)
    ensures
        r@ == paste_actions_spec(turbo_mode),
{
    let mut v: Vec<KeyAction> = Vec::new();
    if turbo_mode {
        v.push(KeyAction { key: SimKey::Control, motion: KeyMotion::Press });
        v.push(KeyAction { key: SimKey::Unicode('v'), motion: KeyMotion::Click });
        v.push(KeyAction { key: SimKey::Control, motion: KeyMotion::Release });
    }
    proof {
        assert(v@ =~= paste_actions_spec(turbo_mode));
    }
    v
}

/// Law: without turbo mode the pipeline synthesizes no key events at all,
/// neither to copy nor to paste.
pub proof fn lemma_no_turbo_no_key_events()
    ensures
        copy_actions_spec(false) == Seq::<KeyAction>::empty(),
        paste_actions_spec(false) == Seq::<KeyAction>::empty(),
{
}

} // verus!
