//! The bridge to the Zellij host: its key events, read into the session's
//! own events.

use crate::session::{outcome, step, Key, KeyEvent, Outcome, ShortcutsTui};
use vstd::prelude::*;
use zellij_tile::prelude::{BareKey, Event, KeyModifier, KeyWithModifier};

verus! {

/// A key of the host with its modifiers; opaque to the verifier.
#[verifier::external_type_specification]
#[verifier::external_body]
pub struct ExKeyWithModifier(zellij_tile::prelude::KeyWithModifier);

/// An event of the host; opaque to the verifier.
#[verifier::external_type_specification]
#[verifier::external_body]
pub struct ExEvent(zellij_tile::prelude::Event);

/// The key event that a key of the host is read as. It depends on the key
/// and its modifiers alone.
pub uninterp spec fn host_key_event(key: KeyWithModifier) -> KeyEvent;

/// The key that a host event carries, if it is a key event at all.
pub uninterp spec fn host_event_key(event: Event) -> Option<KeyWithModifier>;

/// Reads a key of the host: its `bare_key` names the key, and
/// `KeyWithModifier::has_modifiers` tells whether shift is among the held
/// modifiers. The result is a function of the key alone, and is named.
#[verifier::external_body]
pub(crate) fn key_event(key: &KeyWithModifier) -> (ev: KeyEvent)
    ensures
        ev == host_key_event(*key),
{
    let identity = match key.bare_key {
        BareKey::Esc => Key::Esc,
        BareKey::Tab => Key::Tab,
        BareKey::Backspace => Key::Backspace,
        BareKey::Char(c) => Key::Char(c),
        _ => Key::Other,
    };
    KeyEvent { key: identity, shift: key.has_modifiers(&[KeyModifier::Shift]) }
}

/// The key of a host event, if it is the `Event::Key` variant. The result
/// is a function of the event alone, and is named.
#[verifier::external_body]
pub(crate) fn pressed_key(event: &Event) -> (key: Option<&KeyWithModifier>)
    ensures
        match key {
            Some(k) => host_event_key(*event) == Some(*k),
            None => host_event_key(*event) is None,
        },
{
    match event {
        Event::Key(key) => Some(key),
        _ => None,
    }
}

impl ShortcutsTui {
    /// Handles one key of the host: the key is read into a key event, and
    /// the session makes that event's transition.
    pub fn handle_host_key(&mut self, key: &KeyWithModifier) -> (r: Outcome)
        ensures
            final(self)@ == step(old(self)@, host_key_event(*key)),
            r == outcome(old(self)@, host_key_event(*key)),
            old(self)@.wf() ==> final(self)@.wf(),
    {
        let ev = key_event(key);
        self.handle_key(ev)
    }

    /// Handles one event of the host: a key is handled as by
    /// `handle_host_key`, any other event is left to the host.
    pub fn update_from_host(&mut self, event: &Event) -> (r: Outcome)
        ensures
            match host_event_key(*event) {
                Some(k) => final(self)@ == step(old(self)@, host_key_event(k)) && r == outcome(
                    old(self)@,
                    host_key_event(k),
                ),
                None => final(self)@ == old(self)@ && r == Outcome::Unhandled,
            },
            old(self)@.wf() ==> final(self)@.wf(),
    {
        match pressed_key(event) {
            Some(key) => self.handle_host_key(key),
            None => Outcome::Unhandled,
        }
    }
}

} // verus!
