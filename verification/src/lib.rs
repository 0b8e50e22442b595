//! The tiling engine of a window manager.
//!
//! Given a screen region and the windows that are visible on it, a [`Layout`]
//! computes the rectangle of each window. Layouts are values: two primitive
//! ones ([`TallLayout`], [`FullLayout`]) and four that wrap other layouts
//! ([`StrutLayout`], [`GapLayout`], [`MirrorLayout`], [`ChooseLayout`]). They
//! are reconfigured in place by [`LayoutMsg`] commands and copied in depth
//! with [`Layout::copy`].
//!
//! The crate does no input or output. What a layout has to know of the
//! window system it reads from a [`ProtocolClient`], and what it wants done
//! there it leaves with the [`ProtocolClient`]. The same holds of the few
//! decisions about windows, events and keys in [`window`], [`events`] and
//! [`keys`]: they take what was read from the window system as plain values.
//!
//! Every executable function is verified against its contract. The
//! contracts of the layouts are stated over [`LayoutView`], the mathematical
//! model of a layout; what follows from the model for every layout is proved
//! in [`theorems`]. The functions ask nothing of their callers, with one
//! exception: [`ChooseLayout::new`] needs at least one layout to choose
//! from.
//!
//! Arithmetic: all geometry is computed in unbounded integers and then
//! brought into `u32` by [`clamp`]. A coordinate that would pass `u32::MAX`
//! stays at `u32::MAX`, an extent that would fall below zero is zero. Ratios
//! are counted in millionths ([`RATIO_ONE`]), and scaling rounds down. No
//! function of this crate panics.

pub mod client;
pub mod events;
pub mod full;
pub mod keys;
pub mod layout;
pub mod message;
pub mod model;
pub mod rect;
pub mod stack;
pub mod tall;
pub mod text;
pub mod theorems;
pub mod window;
pub mod words;

pub use client::{low32, reserved, span_meets, ProtocolClient, Strut, StrutPartial};
pub use events::{RawEvent, Reaction, WindowChanges, XlibEvent};
pub use full::FullLayout;
pub use layout::{views, ChooseLayout, GapLayout, Layout, MirrorLayout, StrutLayout};
pub use message::LayoutMsg;
pub use model::{unfocused, LayoutView};
pub use rect::{clamp, Rect};
pub use stack::{Stack, Window};
pub use tall::{spec_complement, spec_scale, TallLayout, RATIO_ONE};
pub use window::SizeHint;
