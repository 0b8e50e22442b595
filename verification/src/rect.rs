//! Axis-aligned screen regions.

use crate::text::{decimal, push_decimal};
use vstd::prelude::*;

verus! {

/// Brings an integer into the range of `u32`: negative values become `0`,
/// values above `u32::MAX` become `u32::MAX`.
pub open spec fn clamp(v: int) -> u32 {
    if v < 0 {
        0
    } else if v > u32::MAX {
        u32::MAX
    } else {
        v as u32
    }
}

/// A region of the screen: its top left corner and its extent, in pixels.
#[derive(Clone, Copy, PartialEq, Eq, Structural)]
pub struct Rect {
    pub x: u32,
    pub y: u32,
    pub width: u32,
    pub height: u32,
}

impl Rect {
    /// The region that lies `gap` pixels inside this one on every side.
    pub open spec fn spec_inset(self, gap: u32) -> Rect {
        Rect {
            x: clamp(self.x + gap),
            y: clamp(self.y + gap),
            width: clamp(self.width - 2 * gap),
            height: clamp(self.height - 2 * gap),
        }
    }

    /// The region with its horizontal position reflected within a span of
    /// `span` pixels that starts at zero: what was `x` pixels from the left
    /// edge of the span is now as far from its right edge.
    pub open spec fn spec_mirror(self, span: u32) -> Rect {
        Rect {
            x: clamp(span - (self.x + self.width)),
            y: self.y,
            width: self.width,
            height: self.height,
        }
    }

    /// The region without margins of `left`, `right`, `top` and `bottom`
    /// pixels at its four edges.
    pub open spec fn spec_without_margins(
        self,
        left: u32,
        right: u32,
        top: u32,
        bottom: u32,
    ) -> Rect {
        Rect {
            x: clamp(self.x + left),
            y: clamp(self.y + top),
            width: clamp(self.width - (left + right)),
            height: clamp(self.height - (top + bottom)),
        }
    }

    /// The text `{ x: .., y: .., width: .., height: .. }` with the four
    /// fields in decimal.
    pub open spec fn spec_fmt(self) -> Seq<char> {
        "{ x: "@ + decimal(self.x as nat) + ", y: "@ + decimal(self.y as nat) + ", width: "@
            + decimal(self.width as nat) + ", height: "@ + decimal(self.height as nat) + " }"@
    }

    /// Moves every side `gap` pixels inwards. A side that has no room left
    /// stops: the corner does not pass `u32::MAX`, the extent does not fall
    /// below zero.
    pub fn inset(self, gap: u32) -> (r: Rect)
        ensures
            r == self.spec_inset(gap),
    {
        Rect {
            x: self.x.saturating_add(gap),
            y: self.y.saturating_add(gap),
            width: self.width.saturating_sub(gap).saturating_sub(gap),
            height: self.height.saturating_sub(gap).saturating_sub(gap),
        }
    }

    /// Reflects the horizontal position within a span of `span` pixels:
    /// the new `x` is `span - (x + width)`, or zero where the region
    /// reaches beyond the span.
    pub fn mirror(self, span: u32) -> (r: Rect)
        ensures
            r == self.spec_mirror(span),
    {
        Rect {
            x: span.saturating_sub(self.x).saturating_sub(self.width),
            y: self.y,
            width: self.width,
            height: self.height,
        }
    }

    /// Cuts margins off the four edges. The corner moves right by `left` and
    /// down by `top`; the extent loses both margins of its axis, and is zero
    /// where they exceed it.
    pub fn without_margins(self, left: u32, right: u32, top: u32, bottom: u32) -> (r: Rect)
        ensures
            r == self.spec_without_margins(left, right, top, bottom),
    {
        Rect {
            x: self.x.saturating_add(left),
            y: self.y.saturating_add(top),
            width: self.width.saturating_sub(left).saturating_sub(right),
            height: self.height.saturating_sub(top).saturating_sub(bottom),
        }
    }

    /// The region as text, for logs: `{ x: 0, y: 0, width: 1000, height: 800 }`.
    pub fn fmt(&self) -> (s: String)
        ensures
            s@ == self.spec_fmt(),
    {
        let mut s = String::from_str("{ x: ");
        push_decimal(&mut s, self.x as u64);
        s.append(", y: ");
        push_decimal(&mut s, self.y as u64);
        s.append(", width: ");
        push_decimal(&mut s, self.width as u64);
        s.append(", height: ");
        push_decimal(&mut s, self.height as u64);
        s.append(" }");
        s
    }
}

} // verus!
