use vstd::prelude::*;

use crate::models::{ControlType, InputType};

verus! {

/// Which modifier keys are held down.
#[derive(Copy, Clone, Debug, PartialEq, Eq, Structural)]
pub struct Modifiers {
    pub shift: bool,
    pub control: bool,
    pub alt: bool,
    pub logo: bool,
}

/// The keys the editor tells apart when pressed.
#[derive(Copy, Clone, Debug, PartialEq, Eq, Structural)]
pub enum KeyCode {
    S,
    Other,
}

/// A window event, as far as the editor reads it.
#[derive(Copy, Clone, Debug, PartialEq, Eq, Structural)]
pub enum UiEvent {
    KeyPressed(KeyCode),
    CharacterReceived(char),
    ModifiersChanged(Modifiers),
    Other,
}

/// An update the session sends the UI.
#[derive(Debug)]
pub enum UiUpdate {
    /// Show this content.
    ContentRedisplay(String),
}

/// A message of the UI: an input going out to the session, or an update
/// coming in from it.
#[derive(Debug)]
pub enum UiMessage {
    Outbound(InputType),
    Inbound(UiUpdate),
}

/// The input that an event stands for, if any: with the control key held,
/// control-S is `Save` and nothing else counts; otherwise a received
/// character is inserted.
pub open spec fn outbound_input(event: UiEvent, modifiers: Modifiers) -> Option<InputType> {
    if modifiers.control {
        match event {
            UiEvent::KeyPressed(KeyCode::S) => Some(InputType::Control(ControlType::Save)),
            _ => None,
        }
    } else {
        match event {
            UiEvent::CharacterReceived(c) => Some(InputType::Insert(c)),
            _ => None,
        }
    }
}

/// The message that an event stands for, if any (see `outbound_input`).
pub fn to_outbound_message(event: UiEvent, modifiers: Modifiers) -> (r: Option<UiMessage>)
    ensures
        match outbound_input(event, modifiers) {
            Some(input) => r matches Some(UiMessage::Outbound(i)) && i == input,
            None => r is None,
        },
{
    if modifiers.control {
        match event {
            UiEvent::KeyPressed(KeyCode::S) => Some(
                UiMessage::Outbound(InputType::Control(ControlType::Save)),
            ),
            _ => None,
        }
    } else {
        match event {
            UiEvent::CharacterReceived(c) => Some(UiMessage::Outbound(InputType::Insert(c))),
            _ => None,
        }
    }
}

/// The input widget's state: the modifier keys last reported.
pub struct BufferInputState {
    pub modifiers: Modifiers,
}

impl BufferInputState {
    /// No modifier held.
    pub fn new() -> (s: BufferInputState)
        ensures
            s.modifiers == (Modifiers { shift: false, control: false, alt: false, logo: false }),
    {
        BufferInputState {
            modifiers: Modifiers { shift: false, control: false, alt: false, logo: false },
        }
    }

    /// Takes one event: a change of modifiers is remembered; any other
    /// event gives the message it stands for under the current modifiers.
    pub fn on_event(&mut self, event: UiEvent) -> (r: Option<UiMessage>)
        ensures
            match event {
                UiEvent::ModifiersChanged(m) => final(self).modifiers == m && r is None,
                _ => final(self).modifiers == old(self).modifiers && match outbound_input(
                    event,
                    old(self).modifiers,
                ) {
                    Some(input) => r matches Some(UiMessage::Outbound(i)) && i == input,
                    None => r is None,
                },
            },
    {
        match event {
            UiEvent::ModifiersChanged(mods) => {
                self.modifiers = mods;
                None
            },
            _ => to_outbound_message(event, self.modifiers),
        }
    }
}

/// Only the control key changes what an event stands for. Without it, a
/// received character is inserted as itself whatever the shift, alt and
/// logo keys; with it, only the S key counts, and it saves. Modifiers that
/// agree on the control key give every event the same meaning.
pub proof fn law_only_control_changes_inputs(
    event: UiEvent,
    m1: Modifiers,
    m2: Modifiers,
    c: char,
)
    requires
        m1.control == m2.control,
    ensures
        outbound_input(event, m1) == outbound_input(event, m2),
        !m1.control ==> outbound_input(UiEvent::CharacterReceived(c), m1) == Some(
            InputType::Insert(c),
        ),
        !m1.control ==> outbound_input(UiEvent::KeyPressed(KeyCode::S), m1) is None,
        m1.control ==> outbound_input(UiEvent::KeyPressed(KeyCode::S), m1) == Some(
            InputType::Control(ControlType::Save),
        ),
        m1.control ==> outbound_input(UiEvent::CharacterReceived(c), m1) is None,
{
}

} // verus!
