//! The window system as the layouts see it: the screen space that panels and
//! docks reserve, and the stacking requests that a layout makes.

use crate::rect::Rect;
use crate::stack::Window;
use vstd::prelude::*;

verus! {

/// Margins reserved at the edges of a screen: left, right, top, bottom.
#[derive(Clone, Copy, PartialEq, Eq, Structural)]
pub struct Strut(pub u32, pub u32, pub u32, pub u32);

impl Strut {
    /// The larger margin at each edge.
    pub open spec fn spec_max(self, other: Strut) -> Strut {
        Strut(
            if self.0 >= other.0 { self.0 } else { other.0 },
            if self.1 >= other.1 { self.1 } else { other.1 },
            if self.2 >= other.2 { self.2 } else { other.2 },
            if self.3 >= other.3 { self.3 } else { other.3 },
        )
    }

    /// The larger margin at each edge.
    pub fn max(self, other: Strut) -> (m: Strut)
        ensures
            m == self.spec_max(other),
    {
        Strut(
            if self.0 >= other.0 { self.0 } else { other.0 },
            if self.1 >= other.1 { self.1 } else { other.1 },
            if self.2 >= other.2 { self.2 } else { other.2 },
            if self.3 >= other.3 { self.3 } else { other.3 },
        )
    }
}

/// The low 32 bits of a property value.
pub open spec fn low32(v: u64) -> u32 {
    (v % 0x1_0000_0000) as u32
}

/// The space that one window reserves at the edges of the screen, as its
/// `_NET_WM_STRUT_PARTIAL` property declares it: a width for each edge, and
/// for each edge the range along it that the reservation spans.
#[derive(Clone, Copy, PartialEq, Eq, Structural)]
pub struct StrutPartial {
    pub left: u64,
    pub right: u64,
    pub top: u64,
    pub bottom: u64,
    pub left_start_y: u64,
    pub left_end_y: u64,
    pub right_start_y: u64,
    pub right_end_y: u64,
    pub top_start_x: u64,
    pub top_end_x: u64,
    pub bottom_start_x: u64,
    pub bottom_end_x: u64,
}

/// Whether a reservation of a positive `width` whose span along the edge runs
/// from `start` to `end` meets the range of `extent` pixels from `origin`:
/// its start lies in the range, or its end lies in the range or just
/// behind it.
pub open spec fn span_meets(width: u64, start: u64, end: u64, origin: u32, extent: u32) -> bool {
    width > 0 && ((origin <= start < origin + extent) || (origin <= end <= origin + extent))
}

/// Whether a reservation of `width` pixels with the span from `start` to
/// `end` meets the range of `extent` pixels from `origin`.
fn meets(width: u64, start: u64, end: u64, origin: u32, extent: u32) -> (b: bool)
    ensures
        b == span_meets(width, start, end, origin, extent),
{
    let first = origin as u64;
    let behind = origin as u64 + extent as u64;
    width > 0 && ((start >= first && start < behind) || (end >= first && end <= behind))
}

impl StrutPartial {
    /// The reservation that the values of a property declare: its first
    /// twelve values, in the order of the fields.
    pub open spec fn spec_from_property(values: Seq<u64>) -> Option<StrutPartial> {
        if values.len() >= 12 {
            Some(
                StrutPartial {
                    left: values[0],
                    right: values[1],
                    top: values[2],
                    bottom: values[3],
                    left_start_y: values[4],
                    left_end_y: values[5],
                    right_start_y: values[6],
                    right_end_y: values[7],
                    top_start_x: values[8],
                    top_end_x: values[9],
                    bottom_start_x: values[10],
                    bottom_end_x: values[11],
                },
            )
        } else {
            None
        }
    }

    /// Whether the reservation concerns `screen`: one of its four edges has
    /// a positive width and a span that meets the screen, vertically for the
    /// left and right edges, horizontally for the top and bottom edges.
    pub open spec fn spec_applies(self, screen: Rect) -> bool {
        ||| span_meets(self.left, self.left_start_y, self.left_end_y, screen.y, screen.height)
        ||| span_meets(self.right, self.right_start_y, self.right_end_y, screen.y, screen.height)
        ||| span_meets(self.top, self.top_start_x, self.top_end_x, screen.x, screen.width)
        ||| span_meets(self.bottom, self.bottom_start_x, self.bottom_end_x, screen.x, screen.width)
    }

    /// The four widths of the reservation, each cut to its low 32 bits.
    pub open spec fn spec_margins(self) -> Strut {
        Strut(low32(self.left), low32(self.right), low32(self.top), low32(self.bottom))
    }

    /// Reads a reservation from the values of a `_NET_WM_STRUT_PARTIAL`
    /// property. A property of fewer than twelve values declares none.
    pub fn from_property(values: &[u64]) -> (r: Option<StrutPartial>)
        ensures
            r == StrutPartial::spec_from_property(values@),
    {
        if values.len() >= 12 {
            Some(
                StrutPartial {
                    left: values[0],
                    right: values[1],
                    top: values[2],
                    bottom: values[3],
                    left_start_y: values[4],
                    left_end_y: values[5],
                    right_start_y: values[6],
                    right_end_y: values[7],
                    top_start_x: values[8],
                    top_end_x: values[9],
                    bottom_start_x: values[10],
                    bottom_end_x: values[11],
                },
            )
        } else {
            None
        }
    }

    /// Whether the reservation concerns `screen`.
    pub fn applies(&self, screen: Rect) -> (b: bool)
        ensures
            b == self.spec_applies(screen),
    {
        meets(self.left, self.left_start_y, self.left_end_y, screen.y, screen.height)
            || meets(self.right, self.right_start_y, self.right_end_y, screen.y, screen.height)
            || meets(self.top, self.top_start_x, self.top_end_x, screen.x, screen.width)
            || meets(self.bottom, self.bottom_start_x, self.bottom_end_x, screen.x, screen.width)
    }

    /// The four widths of the reservation as margins, each cut to its low
    /// 32 bits.
    pub fn margins(&self) -> (m: Strut)
        ensures
            m == self.spec_margins(),
    {
        Strut(
            (self.left % 0x1_0000_0000) as u32,
            (self.right % 0x1_0000_0000) as u32,
            (self.top % 0x1_0000_0000) as u32,
            (self.bottom % 0x1_0000_0000) as u32,
        )
    }
}

/// The margins that `struts` reserve on `screen`: at each edge the largest
/// width among the reservations that concern the screen, and zero where
/// none does.
pub open spec fn reserved(struts: Seq<StrutPartial>, screen: Rect) -> Strut
    decreases struts.len(),
{
    if struts.len() == 0 {
        Strut(0, 0, 0, 0)
    } else {
        let before = reserved(struts.drop_last(), screen);
        if struts.last().spec_applies(screen) {
            before.spec_max(struts.last().spec_margins())
        } else {
            before
        }
    }
}

/// What a layout can learn from the window system and what it asks of it.
///
/// `struts` holds the reservation of every window on screen that declares
/// one. `lowered` collects, in the order in which they were made, the
/// requests to put a window below its siblings; whoever owns the connection
/// to the window system carries them out.
pub struct ProtocolClient {
    pub struts: Vec<StrutPartial>,
    pub lowered: Vec<Window>,
}

impl ProtocolClient {
    /// A client that knows the given reservations and has no request pending.
    pub fn new(struts: Vec<StrutPartial>) -> (c: ProtocolClient)
        ensures
            c.struts == struts,
            c.lowered@ == Seq::<Window>::empty(),
    {
        ProtocolClient { struts, lowered: Vec::new() }
    }

    /// The margins reserved on `screen`: the largest width at each edge
    /// among the reservations that concern the screen.
    pub fn get_strut(&self, screen: Rect) -> (s: Strut)
        ensures
            s == reserved(self.struts@, screen),
    {
        let mut acc = Strut(0, 0, 0, 0);
        let mut i: usize = 0;
        while i < self.struts.len()
            invariant
                i <= self.struts.len(),
                acc == reserved(self.struts@.take(i as int), screen),
            decreases self.struts.len() - i,
        {
            let strut = &self.struts[i];
            assert(self.struts@.take(i + 1).drop_last() =~= self.struts@.take(i as int));
            if strut.applies(screen) {
                acc = acc.max(strut.margins());
            }
            i += 1;
        }
        assert(self.struts@.take(i as int) =~= self.struts@);
        acc
    }

    /// Asks for `window` to be put below its siblings.
    pub fn lower_window(&mut self, window: Window)
        ensures
            final(self).struts == old(self).struts,
            final(self).lowered@ == old(self).lowered@.push(window),
    {
        self.lowered.push(window);
    }
}

} // verus!
