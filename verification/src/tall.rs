//! The tall layout: a column of master windows beside a column of the rest.

use crate::client::ProtocolClient;
use crate::layout::Layout;
use crate::message::LayoutMsg;
use crate::model::LayoutView;
use crate::rect::{clamp, Rect};
use crate::stack::{Stack, Window};
use vstd::prelude::*;

verus! {

/// The ratio one, in the unit of [`TallLayout::ratio`]: millionths.
pub const RATIO_ONE: u32 = 1_000_000;

/// `extent` scaled by `ratio` millionths, rounded down, and `u32::MAX` where
/// the product is larger than that.
pub open spec fn spec_scale(extent: u32, ratio: u32) -> u32 {
    clamp((extent * ratio) / (RATIO_ONE as int))
}

/// What `ratio` leaves of one: `1 - ratio` in millionths, and zero for a
/// ratio above one.
pub open spec fn spec_complement(ratio: u32) -> u32 {
    clamp(RATIO_ONE - ratio)
}

/// The state of a tall layout.
///
/// The first `num_masters` windows are the masters. `ratio` is the share of
/// the width that the master column has while there are other windows, in
/// millionths: `500_000` is one half. `ratio_increment` is the step by which
/// [`LayoutMsg::Increase`] and [`LayoutMsg::Decrease`] change the ratio.
///
/// A layout in use has at least one master and a ratio strictly between
/// zero and one. No message leads out of that range; see
/// [`crate::theorems`].
#[derive(Clone, Copy, PartialEq, Eq, Structural)]
pub struct TallLayout {
    pub num_masters: usize,
    pub ratio: u32,
    pub ratio_increment: u32,
}

impl TallLayout {
    /// The state after `msg`.
    ///
    /// - `Increase` adds the increment to the ratio where the sum stays
    ///   below one.
    /// - `Decrease` takes the increment off the ratio where what is left
    ///   stays above the increment.
    /// - `IncreaseMaster` counts one master more (the count stops at
    ///   `usize::MAX`).
    /// - `DecreaseMaster` counts one master less, but never fewer than one.
    /// - Every other message leaves the state as it is.
    pub open spec fn spec_send(self, msg: LayoutMsg) -> TallLayout {
        match msg {
            LayoutMsg::Increase => if self.ratio + self.ratio_increment < RATIO_ONE {
                TallLayout {
                    num_masters: self.num_masters,
                    ratio: (self.ratio + self.ratio_increment) as u32,
                    ratio_increment: self.ratio_increment,
                }
            } else {
                self
            },
            LayoutMsg::Decrease => if self.ratio - self.ratio_increment > self.ratio_increment {
                TallLayout {
                    num_masters: self.num_masters,
                    ratio: (self.ratio - self.ratio_increment) as u32,
                    ratio_increment: self.ratio_increment,
                }
            } else {
                self
            },
            LayoutMsg::IncreaseMaster => if self.num_masters < usize::MAX {
                TallLayout {
                    num_masters: (self.num_masters + 1) as usize,
                    ratio: self.ratio,
                    ratio_increment: self.ratio_increment,
                }
            } else {
                self
            },
            LayoutMsg::DecreaseMaster => if self.num_masters > 1 {
                TallLayout {
                    num_masters: (self.num_masters - 1) as usize,
                    ratio: self.ratio,
                    ratio_increment: self.ratio_increment,
                }
            } else {
                self
            },
            _ => self,
        }
    }

    /// The rectangle of window `i` of `n` in `area`.
    ///
    /// A master lies in the left column, which is as wide as the area
    /// scaled by the ratio while there are other windows, and as wide as
    /// the area where every window is a master. The masters share the
    /// height evenly, each `height / min(num_masters, n)` high.
    ///
    /// Any other window lies in the right column, which starts where the
    /// scaled width ends and is as wide as the area scaled by what the
    /// ratio leaves of one. These windows share the height evenly, each
    /// `height / (n - num_masters)` high.
    ///
    /// Divisions round down.
    pub open spec fn spec_rect(self, area: Rect, n: nat, i: int) -> Rect {
        if i < self.num_masters {
            let rows = if self.num_masters < n {
                self.num_masters as int
            } else {
                n as int
            };
            let row = area.height as int / rows;
            Rect {
                x: area.x,
                y: clamp(area.y + row * i),
                width: if n > self.num_masters {
                    spec_scale(area.width, self.ratio)
                } else {
                    area.width
                },
                height: clamp(row),
            }
        } else {
            let rows = n - self.num_masters;
            let row = area.height as int / rows;
            Rect {
                x: clamp(area.x + spec_scale(area.width, self.ratio)),
                y: clamp(area.y + row * (i - self.num_masters)),
                width: spec_scale(area.width, spec_complement(self.ratio)),
                height: clamp(row),
            }
        }
    }

    /// The rectangles of `n` windows in `area`, one for each window, in the
    /// order of the windows.
    pub open spec fn spec_rects(self, area: Rect, n: nat) -> Seq<Rect> {
        Seq::new(n, |i: int| self.spec_rect(area, n, i))
    }

    /// A tall layout with `num_masters` masters and the given ratio and
    /// increment, both in millionths.
    pub fn new(num_masters: usize, ratio: u32, ratio_increment: u32) -> (layout: Layout)
        ensures
            layout@ == LayoutView::Tall(TallLayout { num_masters, ratio, ratio_increment }),
            layout@.wf(),
    {
        let layout = Layout::Tall(TallLayout { num_masters, ratio, ratio_increment });
        proof {
            layout.lemma_view_of_variant();
        }
        layout
    }

    /// The name of the layout: `Tall`.
    pub fn name(&self) -> (s: String)
        ensures
            s@ == "Tall"@,
    {
        String::from_str("Tall")
    }

    /// Changes the ratio or the number of masters as `msg` asks; see
    /// [`TallLayout::spec_send`].
    pub fn send_msg(&mut self, msg: LayoutMsg)
        ensures
            *final(self) == old(self).spec_send(msg),
            old(self).ratio < RATIO_ONE ==> final(self).ratio < RATIO_ONE,
            old(self).ratio > old(self).ratio_increment
                ==> final(self).ratio > final(self).ratio_increment,
            old(self).num_masters >= 1 ==> final(self).num_masters >= 1,
    {
        match msg {
            LayoutMsg::Increase => {
                if self.ratio as u64 + (self.ratio_increment as u64) < RATIO_ONE as u64 {
                    self.ratio = self.ratio + self.ratio_increment;
                }
            },
            LayoutMsg::Decrease => {
                if self.ratio >= self.ratio_increment && self.ratio - self.ratio_increment
                    > self.ratio_increment {
                    self.ratio = self.ratio - self.ratio_increment;
                }
            },
            LayoutMsg::IncreaseMaster => {
                if self.num_masters < usize::MAX {
                    self.num_masters = self.num_masters + 1;
                }
            },
            LayoutMsg::DecreaseMaster => {
                if self.num_masters > 1 {
                    self.num_masters = self.num_masters - 1;
                }
            },
            _ => {},
        }
    }

    /// The rectangles of `windows` in `area`: one for each window, in
    /// their order; see [`TallLayout::spec_rect`].
    pub fn simple_apply(&self, area: Rect, windows: &[Window]) -> (rects: Vec<Rect>)
        ensures
            rects@ == self.spec_rects(area, windows@.len()),
            rects@.len() == windows@.len(),
    {
        let nwindows = windows.len();
        let mut rects: Vec<Rect> = Vec::new();
        let mut i: usize = 0;
        while i < nwindows
            invariant
                i <= nwindows,
                nwindows == windows@.len(),
                rects@.len() == i,
                forall|j: int| 0 <= j < i ==> rects@[j] == self.spec_rect(area, nwindows as nat, j),
            decreases nwindows - i,
        {
            rects.push(self.rect_at(area, nwindows, i));
            i += 1;
        }
        rects
    }

    /// The rectangles of the visible windows of `stack` in `area`. The
    /// layout neither asks the window system anything nor asks anything
    /// of it.
    pub fn apply(&self, area: Rect, ws: &mut ProtocolClient, stack: &Stack) -> (rects: Vec<Rect>)
        ensures
            rects@ == self.spec_rects(area, stack.visible@.len()),
            rects@.len() == stack.visible@.len(),
            final(ws).struts == old(ws).struts,
            final(ws).lowered == old(ws).lowered,
    {
        self.simple_apply(area, stack.visible.as_slice())
    }

    /// A copy of the layout.
    pub fn copy(&self) -> (layout: Layout)
        ensures
            layout@ == LayoutView::Tall(*self),
            layout@.wf(),
    {
        let layout = Layout::Tall(*self);
        proof {
            layout.lemma_view_of_variant();
        }
        layout
    }

    /// The rectangle of window `i` of `nwindows`.
    fn rect_at(&self, area: Rect, nwindows: usize, i: usize) -> (r: Rect)
        requires
            i < nwindows,
        ensures
            r == self.spec_rect(area, nwindows as nat, i as int),
    {
        if i < self.num_masters {
            let rows = if self.num_masters < nwindows {
                self.num_masters
            } else {
                nwindows
            };
            let row = row_height(area.height, rows);
            Rect {
                x: area.x,
                y: row_offset(area.y, row, i),
                width: if nwindows > self.num_masters {
                    scale(area.width, self.ratio)
                } else {
                    area.width
                },
                height: row,
            }
        } else {
            let row = row_height(area.height, nwindows - self.num_masters);
            Rect {
                x: area.x.saturating_add(scale(area.width, self.ratio)),
                y: row_offset(area.y, row, i - self.num_masters),
                width: scale(area.width, complement(self.ratio)),
                height: row,
            }
        }
    }
}

/// `extent` scaled by `ratio` millionths, rounded down.
pub fn scale(extent: u32, ratio: u32) -> (r: u32)
    ensures
        r == spec_scale(extent, ratio),
{
    assert(extent * ratio <= 0xffff_ffff * 0xffff_ffff) by (nonlinear_arith)
        requires
            extent <= 0xffff_ffff,
            ratio <= 0xffff_ffff,
    ;
    let scaled = (extent as u64 * ratio as u64) / (RATIO_ONE as u64);
    if scaled > u32::MAX as u64 {
        u32::MAX
    } else {
        scaled as u32
    }
}

/// What `ratio` leaves of one, in millionths.
pub fn complement(ratio: u32) -> (r: u32)
    ensures
        r == spec_complement(ratio),
{
    RATIO_ONE.saturating_sub(ratio)
}

/// The height of each of `rows` windows that share `height` evenly.
fn row_height(height: u32, rows: usize) -> (row: u32)
    requires
        rows > 0,
    ensures
        row == height as int / rows as int,
        row == clamp(height as int / rows as int),
{
    if rows as u64 > height as u64 {
        assert(height as int / rows as int == 0) by (nonlinear_arith)
            requires
                0 <= height < rows,
        ;
        0
    } else {
        assert(0 <= height as int / rows as int <= height) by (nonlinear_arith)
            requires
                0 < rows,
                0 <= height,
        ;
        height / (rows as u32)
    }
}

/// `origin` moved down by `k` rows of height `row`.
fn row_offset(origin: u32, row: u32, k: usize) -> (y: u32)
    ensures
        y == clamp(origin + row * k),
{
    assert(row * k <= 0xffff_ffff * 0xffff_ffff_ffff_ffff) by (nonlinear_arith)
        requires
            0 <= row <= 0xffff_ffff,
            0 <= k <= 0xffff_ffff_ffff_ffff,
    ;
    let total = origin as u128 + row as u128 * (k as u128);
    if total > u32::MAX as u128 {
        u32::MAX
    } else {
        total as u32
    }
}

} // verus!
