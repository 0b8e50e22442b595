//! What the window manager decides about a single window.

use crate::rect::clamp;
use crate::stack::Window;
use crate::words::{signed, spec_signed, spec_unsigned, unsigned};
use vstd::prelude::*;

verus! {

/// The smallest and the largest size that a window accepts, where it
/// declares them: width and height.
#[derive(Clone, Copy, Debug, PartialEq, Eq)]
pub struct SizeHint {
    pub min: Option<(u32, u32)>,
    pub max: Option<(u32, u32)>,
}

/// The flag of the size hints that says that a smallest size is declared.
pub const P_MIN_SIZE: i64 = 0x10;

/// The flag of the size hints that says that a largest size is declared.
pub const P_MAX_SIZE: i64 = 0x20;

impl SizeHint {
    /// The sizes that the normal hints of a window declare: the smallest
    /// size where `flags` has [`P_MIN_SIZE`], the largest where it has
    /// [`P_MAX_SIZE`], their signed fields read as unsigned.
    pub open spec fn spec_from_normal_hints(
        flags: i64,
        min_width: i32,
        min_height: i32,
        max_width: i32,
        max_height: i32,
    ) -> SizeHint {
        SizeHint {
            min: if flags & P_MIN_SIZE != 0 {
                Some((spec_unsigned(min_width), spec_unsigned(min_height)))
            } else {
                None
            },
            max: if flags & P_MAX_SIZE != 0 {
                Some((spec_unsigned(max_width), spec_unsigned(max_height)))
            } else {
                None
            },
        }
    }

    /// The sizes that the normal hints of a window declare; see
    /// [`SizeHint::spec_from_normal_hints`].
    pub fn from_normal_hints(
        flags: i64,
        min_width: i32,
        min_height: i32,
        max_width: i32,
        max_height: i32,
    ) -> (hint: SizeHint)
        ensures
            hint == SizeHint::spec_from_normal_hints(
                flags,
                min_width,
                min_height,
                max_width,
                max_height,
            ),
    {
        SizeHint {
            min: if flags & P_MIN_SIZE != 0 {
                Some((unsigned(min_width), unsigned(min_height)))
            } else {
                None
            },
            max: if flags & P_MAX_SIZE != 0 {
                Some((unsigned(max_width), unsigned(max_height)))
            } else {
                None
            },
        }
    }

    /// Whether the window accepts one size only: it declares a smallest and
    /// a largest size, and they are the same.
    pub open spec fn spec_is_fixed(self) -> bool {
        self.min is Some && self.max is Some && self.min->0 == self.max->0
    }

    /// Whether the window accepts one size only.
    pub fn is_fixed(&self) -> (b: bool)
        ensures
            b == self.spec_is_fixed(),
    {
        match (self.min, self.max) {
            (Some(min), Some(max)) => min.0 == max.0 && min.1 == max.1,
            _ => false,
        }
    }
}

/// Whether `types` holds `dialog` or `splash`.
pub open spec fn spec_is_dialog_or_splash(types: Seq<u64>, dialog: u64, splash: u64) -> bool {
    exists|i: int| 0 <= i < types.len() && (#[trigger] types[i] == dialog || types[i] == splash)
}

/// Whether a window floats above the tiled windows: it is a transient for
/// another window, or it accepts one size only, or its window type says
/// that it is a dialog or a splash screen. `window_type` are the values of
/// the window type property where the window has one; `dialog` and `splash`
/// are the atoms of the two types.
pub open spec fn spec_is_window_floating(
    transient_for: Option<Window>,
    hints: SizeHint,
    window_type: Option<Seq<u64>>,
    dialog: u64,
    splash: u64,
) -> bool {
    ||| transient_for is Some
    ||| hints.spec_is_fixed()
    ||| (window_type matches Some(types) && spec_is_dialog_or_splash(types, dialog, splash))
}

/// Whether `types` holds `dialog` or `splash`.
fn is_dialog_or_splash(types: &Vec<u64>, dialog: u64, splash: u64) -> (b: bool)
    ensures
        b == spec_is_dialog_or_splash(types@, dialog, splash),
{
    let mut i: usize = 0;
    while i < types.len()
        invariant
            i <= types@.len(),
            forall|j: int| 0 <= j < i ==> !(#[trigger] types@[j] == dialog || types@[j] == splash),
        decreases types@.len() - i,
    {
        if types[i] == dialog || types[i] == splash {
            return true;
        }
        i += 1;
    }
    false
}

/// Whether a window floats above the tiled windows; see
/// [`spec_is_window_floating`].
pub fn is_window_floating(
    transient_for: Option<Window>,
    hints: &SizeHint,
    window_type: &Option<Vec<u64>>,
    dialog: u64,
    splash: u64,
) -> (b: bool)
    ensures
        b == spec_is_window_floating(
            transient_for,
            *hints,
            match window_type {
                Some(types) => Some(types@),
                None => None,
            },
            dialog,
            splash,
        ),
{
    if transient_for.is_some() {
        return true;
    }
    if hints.is_fixed() {
        return true;
    }
    match window_type {
        Some(types) => is_dialog_or_splash(types, dialog, splash),
        None => false,
    }
}

/// What a border of `border_width` pixels on both sides leaves of `extent`
/// pixels: `extent - 2 * border_width`, and zero where the border takes
/// all.
pub fn inner_extent(extent: u32, border_width: u32) -> (inner: u32)
    ensures
        inner == clamp(extent - 2 * border_width),
{
    extent.saturating_sub(border_width).saturating_sub(border_width)
}

/// The five data words of the client message that asks a window to close:
/// the high and the low 32 bits of `atom`, each read as signed, and three
/// zeros.
pub open spec fn spec_delete_message_data(atom: u64) -> Seq<i32> {
    seq![
        spec_signed((atom / 0x1_0000_0000) as u32),
        spec_signed((atom % 0x1_0000_0000) as u32),
        0i32,
        0i32,
        0i32,
    ]
}

/// The data words of the client message that asks a window to close, for
/// the atom of the protocol by which a window is asked.
pub fn delete_message_data(atom: u64) -> (data: [i32; 5])
    ensures
        data@ == spec_delete_message_data(atom),
{
    let data = [
        signed((atom / 0x1_0000_0000) as u32),
        signed((atom % 0x1_0000_0000) as u32),
        0,
        0,
        0,
    ];
    data
}

} // verus!
