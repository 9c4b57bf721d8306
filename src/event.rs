//! Raw input events and their normalized form.
use vstd::prelude::*;

use crate::label::{button_label_spec, button_name, key_label_spec, key_name};

verus! {

/// What a normalized event reports.
#[derive(Clone, Copy, Debug, PartialEq, Eq, Structural)]
pub enum DeviceEventKind {
    KeyboardPress,
    KeyboardRelease,
    MousePress,
    MouseRelease,
    MouseMove,
}

/// Whether a key or button went down or came up.
#[derive(Clone, Copy, Debug, PartialEq, Eq, Structural)]
pub enum PressState {
    Pressed,
    Released,
}

/// The payload of a normalized event; `C` is the coordinate type.
#[derive(Clone, Debug, PartialEq)]
pub enum DeviceValue<C> {
    /// The display name of a key or button.
    Name(String),
    /// A relative pointer movement.
    Delta { dx: C, dy: C },
    /// An absolute pointer position.
    Position { x: C, y: C },
}

/// A normalized input event.
#[derive(Clone, Debug, PartialEq)]
pub struct DeviceEvent<C> {
    pub kind: DeviceEventKind,
    pub value: DeviceValue<C>,
}

/// A raw event as the device manager hands it out, reduced to what is read of it.
#[derive(Clone, Debug, PartialEq)]
pub enum RawEvent<C> {
    Keyboard { code: u32, state: PressState },
    PointerButton { code: u32, state: PressState },
    PointerMotion { dx: C, dy: C },
    PointerMotionAbsolute { x: C, y: C },
    /// Any event of a type that is not reported.
    Other,
}

/// The mathematical form of a payload: names as character sequences.
pub enum ValueModel<C> {
    Name(Seq<char>),
    Delta(C, C),
    Position(C, C),
}

impl<C> View for DeviceValue<C> {
    type V = ValueModel<C>;

    open spec fn view(&self) -> ValueModel<C> {
        match self {
            DeviceValue::Name(s) => ValueModel::Name(s@),
            DeviceValue::Delta { dx, dy } => ValueModel::Delta(*dx, *dy),
            DeviceValue::Position { x, y } => ValueModel::Position(*x, *y),
        }
    }
}

/// The kind for a key in the given state.
pub open spec fn key_kind(state: PressState) -> DeviceEventKind {
    match state {
        PressState::Pressed => DeviceEventKind::KeyboardPress,
        PressState::Released => DeviceEventKind::KeyboardRelease,
    }
}

/// The kind for a pointer button in the given state.
pub open spec fn button_kind(state: PressState) -> DeviceEventKind {
    match state {
        PressState::Pressed => DeviceEventKind::MousePress,
        PressState::Released => DeviceEventKind::MouseRelease,
    }
}

/// The view of an optional name.
pub open spec fn name_view(name: Option<String>) -> Option<Seq<char>> {
    match name {
        Some(s) => Some(s@),
        None => None,
    }
}

/// The normalized form of a raw event, as kind and payload; `resolved` is the
/// key resolver's answer for the event's key code. `None` drops the event.
pub open spec fn normalized<C>(event: RawEvent<C>, resolved: Option<Seq<char>>) -> Option<
    (DeviceEventKind, ValueModel<C>),
> {
    match event {
        RawEvent::Keyboard { code, state } => Some(
            (key_kind(state), ValueModel::Name(key_label_spec(code as nat, resolved))),
        ),
        RawEvent::PointerButton { code, state } => Some(
            (button_kind(state), ValueModel::Name(button_label_spec(code as nat))),
        ),
        RawEvent::PointerMotion { dx, dy } => Some(
            (DeviceEventKind::MouseMove, ValueModel::Delta(dx, dy)),
        ),
        RawEvent::PointerMotionAbsolute { x, y } => Some(
            (DeviceEventKind::MouseMove, ValueModel::Position(x, y)),
        ),
        RawEvent::Other => None,
    }
}

/// The view of an optional normalized event.
pub open spec fn event_view<C>(e: Option<DeviceEvent<C>>) -> Option<(DeviceEventKind, ValueModel<C>)> {
    match e {
        Some(d) => Some((d.kind, d.value@)),
        None => None,
    }
}

/// Normalizes one raw event. `resolved` is the key resolver's answer for the
/// event's key code; it is read for keyboard events only.
pub fn build_device_event<C>(event: RawEvent<C>, resolved: Option<String>) -> (r: Option<DeviceEvent<C>>)
    ensures
        event_view(r) == normalized(event, name_view(resolved)),
{
    match event {
        RawEvent::Keyboard { code, state } => {
            let name = key_name(code, resolved);
            let kind = match state {
                PressState::Pressed => DeviceEventKind::KeyboardPress,
                PressState::Released => DeviceEventKind::KeyboardRelease,
            };
            Some(DeviceEvent { kind, value: DeviceValue::Name(name) })
        },
        RawEvent::PointerButton { code, state } => {
            let name = button_name(code);
            let kind = match state {
                PressState::Pressed => DeviceEventKind::MousePress,
                PressState::Released => DeviceEventKind::MouseRelease,
            };
            Some(DeviceEvent { kind, value: DeviceValue::Name(name) })
        },
        RawEvent::PointerMotion { dx, dy } => Some(
            DeviceEvent { kind: DeviceEventKind::MouseMove, value: DeviceValue::Delta { dx, dy } },
        ),
        RawEvent::PointerMotionAbsolute { x, y } => Some(
            DeviceEvent { kind: DeviceEventKind::MouseMove, value: DeviceValue::Position { x, y } },
        ),
        RawEvent::Other => None,
    }
}

} // verus!
