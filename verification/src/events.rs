//! The events of the window system that the window manager acts on.
//!
//! Whoever owns the connection reads an event and copies what it holds
//! into a [`RawEvent`]. What the event means to the window manager, and
//! what has to be done before it is handed on, is decided here.

use crate::stack::Window;
use crate::words::{spec_unsigned, unsigned};
use vstd::prelude::*;

verus! {

/// The detail of an enter event whose pointer came from a child window.
pub const NOTIFY_INFERIOR: i32 = 2;

/// The detail of a focus event that only tells where the pointer is.
pub const NOTIFY_POINTER: i32 = 5;

/// The state of a property event for a property that has a new value.
pub const PROPERTY_NEW_VALUE: i32 = 0;

/// The geometry and stacking that a window asks for.
#[derive(Clone, Copy, Debug, PartialEq, Eq, Structural)]
pub struct WindowChanges {
    pub x: u32,
    pub y: u32,
    pub width: u32,
    pub height: u32,
    pub border_width: u32,
    pub sibling: Window,
    pub stack_mode: u32,
}

/// An event as the window manager acts on it.
#[derive(Debug, PartialEq, Eq)]
pub enum XlibEvent {
    /// A window wants to be shown.
    XMapRequest(Window),
    /// The root window has another size.
    XConfigurationNotify(Window),
    /// A window asks for the changes, of which the mask names those meant.
    XConfigurationRequest(Window, WindowChanges, u32),
    /// A window is gone.
    XDestroy(Window),
    /// A window is no longer shown; the flag tells whether a client sent
    /// the event.
    XUnmapNotify(Window, bool),
    /// A property of a window changed; the flag tells whether it has a new
    /// value, as opposed to being deleted.
    XPropertyNotify(Window, u64, bool),
    /// The pointer entered a window.
    XEnterNotify(Window),
    /// A window lost the focus.
    XFocusOut(Window),
    /// A key was pressed: the window, the modifiers, the name of the key.
    XKeyPress(Window, u8, String),
    /// A button was pressed on a window.
    XButtonPress(Window),
    /// Nothing to act on.
    Ignored,
}

/// What an event of the window system holds, as far as the window manager
/// reads it.
#[derive(Debug, PartialEq, Eq)]
pub enum RawEvent {
    MapRequest { window: Window },
    ConfigureNotify { window: Window },
    ConfigureRequest {
        window: Window,
        x: i32,
        y: i32,
        width: i32,
        height: i32,
        border_width: i32,
        above: Window,
        detail: i32,
        value_mask: u64,
    },
    DestroyNotify { window: Window },
    UnmapNotify { window: Window, send_event: i32 },
    PropertyNotify { window: Window, atom: u64, state: i32 },
    EnterNotify { window: Window, detail: i32 },
    FocusOut { window: Window, detail: i32 },
    ButtonPress { window: Window },
    /// `key` is the name of the key that was pressed.
    KeyPress { window: Window, modifiers: u32, key: String },
    /// Any other event.
    Other,
}

/// What has to be done about an event before it is handed on.
#[derive(Clone, Copy, Debug, PartialEq, Eq, Structural)]
pub enum Reaction {
    Nothing,
    /// Mark the window as in its normal state, grab the first button on it,
    /// and select the events of it that the window manager follows.
    ManageWindow(Window),
    /// Let the button press pass on to the window it was meant for.
    ReplayPointer,
}

impl RawEvent {
    /// The event as the window manager acts on it.
    ///
    /// - A configure notification counts for the root window only.
    /// - An enter event counts unless the pointer came from a child of the
    ///   window, a focus event unless it only tells where the pointer is.
    /// - A configure request hands on what the window asks for, the signed
    ///   fields read as unsigned, the mask cut to its low 32 bits.
    /// - A key press hands on the low 8 bits of the modifiers.
    /// - An event of any other kind is ignored.
    pub open spec fn spec_decode(self, root: Window) -> XlibEvent {
        match self {
            RawEvent::MapRequest { window } => XlibEvent::XMapRequest(window),
            RawEvent::ConfigureNotify { window } => if window == root {
                XlibEvent::XConfigurationNotify(window)
            } else {
                XlibEvent::Ignored
            },
            RawEvent::ConfigureRequest {
                window,
                x,
                y,
                width,
                height,
                border_width,
                above,
                detail,
                value_mask,
            } => XlibEvent::XConfigurationRequest(
                window,
                WindowChanges {
                    x: spec_unsigned(x),
                    y: spec_unsigned(y),
                    width: spec_unsigned(width),
                    height: spec_unsigned(height),
                    border_width: spec_unsigned(border_width),
                    sibling: above,
                    stack_mode: spec_unsigned(detail),
                },
                (value_mask % 0x1_0000_0000) as u32,
            ),
            RawEvent::DestroyNotify { window } => XlibEvent::XDestroy(window),
            RawEvent::UnmapNotify { window, send_event } => XlibEvent::XUnmapNotify(
                window,
                send_event > 0,
            ),
            RawEvent::PropertyNotify { window, atom, state } => XlibEvent::XPropertyNotify(
                window,
                atom,
                state == PROPERTY_NEW_VALUE,
            ),
            RawEvent::EnterNotify { window, detail } => if detail != NOTIFY_INFERIOR {
                XlibEvent::XEnterNotify(window)
            } else {
                XlibEvent::Ignored
            },
            RawEvent::FocusOut { window, detail } => if detail != NOTIFY_POINTER {
                XlibEvent::XFocusOut(window)
            } else {
                XlibEvent::Ignored
            },
            RawEvent::ButtonPress { window } => XlibEvent::XButtonPress(window),
            RawEvent::KeyPress { window, modifiers, key } => XlibEvent::XKeyPress(
                window,
                (modifiers % 256) as u8,
                key,
            ),
            RawEvent::Other => XlibEvent::Ignored,
        }
    }

    /// What has to be done about the event before it is handed on: a
    /// window that wants to be shown is taken under management, a button
    /// press is let through to its window, and nothing else needs a
    /// reaction.
    pub open spec fn spec_reaction(self) -> Reaction {
        match self {
            RawEvent::MapRequest { window } => Reaction::ManageWindow(window),
            RawEvent::ButtonPress { .. } => Reaction::ReplayPointer,
            _ => Reaction::Nothing,
        }
    }

    /// Decodes the event; see [`RawEvent::spec_decode`].
    pub fn decode(self, root: Window) -> (event: XlibEvent)
        ensures
            event == self.spec_decode(root),
    {
        match self {
            RawEvent::MapRequest { window } => XlibEvent::XMapRequest(window),
            RawEvent::ConfigureNotify { window } => {
                if window == root {
                    XlibEvent::XConfigurationNotify(window)
                } else {
                    XlibEvent::Ignored
                }
            },
            RawEvent::ConfigureRequest {
                window,
                x,
                y,
                width,
                height,
                border_width,
                above,
                detail,
                value_mask,
            } => {
                let changes = WindowChanges {
                    x: unsigned(x),
                    y: unsigned(y),
                    width: unsigned(width),
                    height: unsigned(height),
                    border_width: unsigned(border_width),
                    sibling: above,
                    stack_mode: unsigned(detail),
                };
                XlibEvent::XConfigurationRequest(
                    window,
                    changes,
                    (value_mask % 0x1_0000_0000) as u32,
                )
            },
            RawEvent::DestroyNotify { window } => XlibEvent::XDestroy(window),
            RawEvent::UnmapNotify { window, send_event } => XlibEvent::XUnmapNotify(
                window,
                send_event > 0,
            ),
            RawEvent::PropertyNotify { window, atom, state } => XlibEvent::XPropertyNotify(
                window,
                atom,
                state == PROPERTY_NEW_VALUE,
            ),
            RawEvent::EnterNotify { window, detail } => {
                if detail != NOTIFY_INFERIOR {
                    XlibEvent::XEnterNotify(window)
                } else {
                    XlibEvent::Ignored
                }
            },
            RawEvent::FocusOut { window, detail } => {
                if detail != NOTIFY_POINTER {
                    XlibEvent::XFocusOut(window)
                } else {
                    XlibEvent::Ignored
                }
            },
            RawEvent::ButtonPress { window } => XlibEvent::XButtonPress(window),
            RawEvent::KeyPress { window, modifiers, key } => XlibEvent::XKeyPress(
                window,
                (modifiers % 256) as u8,
                key,
            ),
            RawEvent::Other => XlibEvent::Ignored,
        }
    }

    /// What has to be done about the event before it is handed on; see
    /// [`RawEvent::spec_reaction`].
    pub fn reaction(&self) -> (reaction: Reaction)
        ensures
            reaction == self.spec_reaction(),
    {
        match self {
            RawEvent::MapRequest { window } => Reaction::ManageWindow(*window),
            RawEvent::ButtonPress { .. } => Reaction::ReplayPointer,
            _ => Reaction::Nothing,
        }
    }
}

} // verus!
