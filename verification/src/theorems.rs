//! What holds of every layout, proved from the definitions in
//! [`crate::model`], [`crate::tall`] and [`crate::client`].

use crate::client::{reserved, Strut, StrutPartial};
use crate::message::LayoutMsg;
use crate::model::LayoutView;
use crate::rect::{clamp, Rect};
use crate::tall::{TallLayout, RATIO_ONE};
use vstd::prelude::*;

verus! {

impl TallLayout {
    /// The state after the messages `msgs`, sent one after the other.
    pub open spec fn spec_send_all(self, msgs: Seq<LayoutMsg>) -> TallLayout
        decreases msgs.len(),
    {
        if msgs.len() == 0 {
            self
        } else {
            self.spec_send_all(msgs.drop_last()).spec_send(msgs.last())
        }
    }
}

impl LayoutView {
    /// The layout after the messages `msgs`, sent one after the other.
    pub open spec fn send_all(self, msgs: Seq<LayoutMsg>) -> LayoutView
        decreases msgs.len(),
    {
        if msgs.len() == 0 {
            self
        } else {
            self.send_all(msgs.drop_last()).send(msgs.last())
        }
    }
}

/// No layout computes a rectangle where no window is visible.
pub proof fn lemma_no_window_no_rect(layout: LayoutView, area: Rect, struts: Seq<StrutPartial>)
    requires
        layout.wf(),
    ensures
        layout.rects(area, struts, 0) == Seq::<Rect>::empty(),
{
    layout.lemma_rects_len(area, struts, 0);
}

/// A layout computes one rectangle for each visible window, whatever
/// messages it has received.
pub proof fn lemma_one_rect_per_window(
    layout: LayoutView,
    msgs: Seq<LayoutMsg>,
    area: Rect,
    struts: Seq<StrutPartial>,
    n: nat,
)
    requires
        layout.wf(),
    ensures
        layout.send_all(msgs).wf(),
        layout.send_all(msgs).rects(area, struts, n).len() == n,
    decreases msgs.len(),
{
    if msgs.len() > 0 {
        lemma_one_rect_per_window(layout, msgs.drop_last(), area, struts, n);
        layout.send_all(msgs.drop_last()).lemma_send_keeps_wf(msgs.last());
    }
    layout.send_all(msgs).lemma_rects_len(area, struts, n);
}

/// A layout that does not ask for the reserved margins computes the same
/// rectangles whatever is reserved.
pub proof fn lemma_rects_without_struts(
    layout: LayoutView,
    area: Rect,
    struts: Seq<StrutPartial>,
    others: Seq<StrutPartial>,
    n: nat,
)
    requires
        !layout.needs_struts(),
    ensures
        layout.rects(area, struts, n) == layout.rects(area, others, n),
    decreases layout,
{
    match layout {
        LayoutView::Tall(_) => {},
        LayoutView::Full => {},
        LayoutView::Strut(_) => {},
        LayoutView::Gap { screen_gap, inner, .. } => {
            lemma_rects_without_struts(*inner, area.spec_inset(screen_gap), struts, others, n);
        },
        LayoutView::Mirror(inner) => {
            lemma_rects_without_struts(*inner, area, struts, others, n);
        },
        LayoutView::Choose { variants, current } => {
            if current < variants.len() {
                lemma_rects_without_struts(variants[current as int], area, struts, others, n);
            }
        },
    }
}

/// Where a tall layout has at least as many masters as there are windows,
/// every window is a master: it is as wide as the area, and the windows
/// are stacked from the top of the area, each `height / n` high.
pub proof fn lemma_tall_all_masters(tall: TallLayout, area: Rect, n: nat, i: int)
    requires
        tall.num_masters >= n,
        0 <= i < n,
    ensures
        tall.spec_rects(area, n).len() == n,
        tall.spec_rects(area, n)[i] == (Rect {
            x: area.x,
            y: clamp(area.y + (area.height as int / n as int) * i),
            width: area.width,
            height: (area.height as int / n as int) as u32,
        }),
{
    assert(0 <= area.height as int / n as int <= area.height) by (nonlinear_arith)
        requires
            n > 0,
            area.height >= 0,
    ;
}

/// No sequence of messages takes the ratio of a tall layout to one or
/// above.
pub proof fn lemma_ratio_stays_below_one(tall: TallLayout, msgs: Seq<LayoutMsg>)
    requires
        tall.ratio < RATIO_ONE,
    ensures
        tall.spec_send_all(msgs).ratio < RATIO_ONE,
    decreases msgs.len(),
{
    if msgs.len() > 0 {
        lemma_ratio_stays_below_one(tall, msgs.drop_last());
    }
}

/// No sequence of messages takes the ratio of a tall layout down to zero.
pub proof fn lemma_ratio_stays_positive(tall: TallLayout, msgs: Seq<LayoutMsg>)
    requires
        tall.ratio > 0,
    ensures
        tall.spec_send_all(msgs).ratio > 0,
    decreases msgs.len(),
{
    if msgs.len() > 0 {
        lemma_ratio_stays_positive(tall, msgs.drop_last());
    }
}

/// No sequence of messages takes the ratio of a tall layout down to its
/// increment or below, and none changes the increment.
pub proof fn lemma_ratio_stays_above_increment(tall: TallLayout, msgs: Seq<LayoutMsg>)
    requires
        tall.ratio > tall.ratio_increment,
    ensures
        tall.spec_send_all(msgs).ratio_increment == tall.ratio_increment,
        tall.spec_send_all(msgs).ratio > tall.ratio_increment,
    decreases msgs.len(),
{
    if msgs.len() > 0 {
        lemma_ratio_stays_above_increment(tall, msgs.drop_last());
    }
}

/// No sequence of messages leaves a tall layout without a master.
pub proof fn lemma_masters_stay_positive(tall: TallLayout, msgs: Seq<LayoutMsg>)
    requires
        tall.num_masters >= 1,
    ensures
        tall.spec_send_all(msgs).num_masters >= 1,
    decreases msgs.len(),
{
    if msgs.len() > 0 {
        lemma_masters_stay_positive(tall, msgs.drop_last());
    }
}

/// The four navigation messages select a layout by its index alone: the
/// next one, and the first after the last; the previous one, and the last
/// before the first; the first; the last. They change no layout.
pub proof fn lemma_navigation(variants: Seq<LayoutView>, current: nat)
    requires
        current < variants.len(),
    ensures
        (LayoutView::Choose { variants, current }).send(LayoutMsg::NextLayout) == (
        LayoutView::Choose {
            variants,
            current: if current + 1 == variants.len() {
                0
            } else {
                current + 1
            },
        }),
        (LayoutView::Choose { variants, current }).send(LayoutMsg::PrevLayout) == (
        LayoutView::Choose {
            variants,
            current: if current == 0 {
                (variants.len() - 1) as nat
            } else {
                (current - 1) as nat
            },
        }),
        (LayoutView::Choose { variants, current }).send(LayoutMsg::FirstLayout) == (
        LayoutView::Choose { variants, current: 0 }),
        (LayoutView::Choose { variants, current }).send(LayoutMsg::LastLayout) == (
        LayoutView::Choose { variants, current: (variants.len() - 1) as nat }),
{
    let len = variants.len() as int;
    let cur = current as int;
    assert((cur + 1) % len == if cur + 1 == len { 0 } else { cur + 1 }) by (nonlinear_arith)
        requires
            0 <= cur < len,
    ;
    assert((cur + len - 1) % len == if cur == 0 { len - 1 } else { cur - 1 }) by (nonlinear_arith)
        requires
            0 <= cur < len,
    ;
}

/// A message changes at most the selected layout: every other layout that
/// a `Choose` holds is after the message what it was before, and so
/// reports and computes what it did once it is selected again.
pub proof fn lemma_unselected_keep_state(
    variants: Seq<LayoutView>,
    current: nat,
    msg: LayoutMsg,
    other: int,
)
    requires
        current < variants.len(),
        0 <= other < variants.len(),
        other != current,
    ensures
        (LayoutView::Choose { variants, current }).send(msg) is Choose,
        (LayoutView::Choose { variants, current }).send(msg)->variants.len() == variants.len(),
        (LayoutView::Choose { variants, current }).send(msg)->variants[other] == variants[other],
{
}

/// A message to a selected layout reaches that layout and leaves the
/// selection as it is.
pub proof fn lemma_selected_receives(variants: Seq<LayoutView>, current: nat, msg: LayoutMsg)
    requires
        current < variants.len(),
        !msg.is_navigation(),
    ensures
        (LayoutView::Choose { variants, current }).send(msg) is Choose,
        (LayoutView::Choose { variants, current }).send(msg)->current == current,
        (LayoutView::Choose { variants, current }).send(msg)->variants.len() == variants.len(),
        (LayoutView::Choose { variants, current }).send(msg)->variants[current as int]
            == variants[current as int].send(msg),
{
}

/// The margins reserved on a screen are, edge by edge, the largest width
/// among the reservations that concern the screen: no such reservation is
/// wider at any edge, and the margin at an edge is zero or the width of one
/// of them. A reservation that does not concern the screen adds nothing,
/// and widths are not added up.
pub proof fn lemma_reserved_is_largest(struts: Seq<StrutPartial>, screen: Rect)
    ensures
        forall|i: int|
            0 <= i < struts.len() && (#[trigger] struts[i]).spec_applies(screen) ==> {
                &&& reserved(struts, screen).0 >= struts[i].spec_margins().0
                &&& reserved(struts, screen).1 >= struts[i].spec_margins().1
                &&& reserved(struts, screen).2 >= struts[i].spec_margins().2
                &&& reserved(struts, screen).3 >= struts[i].spec_margins().3
            },
        reserved(struts, screen).0 == 0 || exists|i: int|
            0 <= i < struts.len() && (#[trigger] struts[i]).spec_applies(screen)
                && struts[i].spec_margins().0 == reserved(struts, screen).0,
        reserved(struts, screen).1 == 0 || exists|i: int|
            0 <= i < struts.len() && (#[trigger] struts[i]).spec_applies(screen)
                && struts[i].spec_margins().1 == reserved(struts, screen).1,
        reserved(struts, screen).2 == 0 || exists|i: int|
            0 <= i < struts.len() && (#[trigger] struts[i]).spec_applies(screen)
                && struts[i].spec_margins().2 == reserved(struts, screen).2,
        reserved(struts, screen).3 == 0 || exists|i: int|
            0 <= i < struts.len() && (#[trigger] struts[i]).spec_applies(screen)
                && struts[i].spec_margins().3 == reserved(struts, screen).3,
    decreases struts.len(),
{
    if struts.len() > 0 {
        // What holds of all reservations but the last holds of the same
        // reservations within `struts`; the last one either adds nothing or
        // is itself the widest at an edge.
        let before = struts.drop_last();
        lemma_reserved_is_largest(before, screen);
        assert(forall|i: int| 0 <= i < before.len() ==> before[i] == struts[i]);
    }
}

/// A reservation that does not concern the screen leaves the reserved
/// margins as they are.
pub proof fn lemma_reserved_ignores(struts: Seq<StrutPartial>, extra: StrutPartial, screen: Rect)
    requires
        !extra.spec_applies(screen),
    ensures
        reserved(struts.push(extra), screen) == reserved(struts, screen),
{
    assert(struts.push(extra).drop_last() =~= struts);
}

/// Where no reservation concerns the screen, nothing is reserved on it.
pub proof fn lemma_nothing_reserved(struts: Seq<StrutPartial>, screen: Rect)
    requires
        forall|i: int| 0 <= i < struts.len() ==> !(#[trigger] struts[i]).spec_applies(screen),
    ensures
        reserved(struts, screen) == Strut(0, 0, 0, 0),
    decreases struts.len(),
{
    if struts.len() > 0 {
        assert(forall|i: int|
            0 <= i < struts.drop_last().len() ==> struts.drop_last()[i] == struts[i]);
        lemma_nothing_reserved(struts.drop_last(), screen);
    }
}

} // verus!
