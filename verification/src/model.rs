//! The mathematical model of a layout.
//!
//! A [`LayoutView`] is what a layout is, apart from how it is stored. What a
//! layout is called, how it answers a message, where it puts the windows and
//! which windows it lowers are functions of its view, defined here. The
//! contracts of the executable layouts refer to these functions.

use crate::client::{reserved, StrutPartial};
use crate::message::LayoutMsg;
use crate::rect::Rect;
use crate::stack::Window;
use crate::tall::TallLayout;
use vstd::prelude::*;

verus! {

/// The visible windows that do not have the focus, in their order.
pub open spec fn unfocused(visible: Seq<Window>, focused: Window) -> Seq<Window> {
    visible.filter(|w: Window| w != focused)
}

/// A layout as a mathematical value.
pub enum LayoutView {
    /// Masters in a left column, the other windows in a right column.
    Tall(TallLayout),
    /// Every window fills the area.
    Full,
    /// The inner layout on the area that panels and docks leave free.
    Strut(Box<LayoutView>),
    /// The inner layout with a margin round the area and round each window.
    Gap { screen_gap: u32, window_gap: u32, inner: Box<LayoutView> },
    /// The inner layout with left and right exchanged.
    Mirror(Box<LayoutView>),
    /// One of several layouts, the one at index `current`.
    Choose { variants: Seq<LayoutView>, current: nat },
}

impl LayoutView {
    /// Whether the view is well formed: wherever it chooses among layouts,
    /// there is at least one to choose from, and `current` is the index of
    /// one. The view of every [`crate::Layout`] is well formed; see
    /// [`crate::Layout::lemma_wf`].
    pub open spec fn wf(self) -> bool
        decreases self,
    {
        match self {
            LayoutView::Tall(_) => true,
            LayoutView::Full => true,
            LayoutView::Strut(inner) => inner.wf(),
            LayoutView::Gap { inner, .. } => inner.wf(),
            LayoutView::Mirror(inner) => inner.wf(),
            LayoutView::Choose { variants, current } => {
                &&& current < variants.len()
                &&& forall|i: int| 0 <= i < variants.len() ==> (#[trigger] variants[i]).wf()
            },
        }
    }

    /// The name that the layout reports. A primitive layout has a name of
    /// its own. `Mirror` wraps the name of its inner layout, `Strut` and
    /// `Gap` pass it on unchanged, and `Choose` has the name of the layout
    /// that is selected.
    pub open spec fn name(self) -> Seq<char>
        decreases self,
    {
        match self {
            LayoutView::Tall(_) => "Tall"@,
            LayoutView::Full => "Full"@,
            LayoutView::Strut(inner) => inner.name(),
            LayoutView::Gap { inner, .. } => inner.name(),
            LayoutView::Mirror(inner) => "Mirror("@ + inner.name() + ")"@,
            LayoutView::Choose { variants, current } => {
                if current < variants.len() {
                    variants[current as int].name()
                } else {
                    Seq::empty()
                }
            },
        }
    }

    /// The layout after `msg`.
    ///
    /// `Tall` acts on the message as [`TallLayout::spec_send`] says; `Full`
    /// ignores every message. `Strut`, `Gap` and `Mirror` hand every message
    /// to their inner layout. `Choose` answers the four navigation messages
    /// itself, by selecting another layout: the next and the previous one
    /// with wraparound, the first, the last. It hands every other message to
    /// the selected layout and to no other.
    pub open spec fn send(self, msg: LayoutMsg) -> LayoutView
        decreases self,
    {
        match self {
            LayoutView::Tall(tall) => LayoutView::Tall(tall.spec_send(msg)),
            LayoutView::Full => LayoutView::Full,
            LayoutView::Strut(inner) => LayoutView::Strut(Box::new(inner.send(msg))),
            LayoutView::Gap { screen_gap, window_gap, inner } => LayoutView::Gap {
                screen_gap,
                window_gap,
                inner: Box::new(inner.send(msg)),
            },
            LayoutView::Mirror(inner) => LayoutView::Mirror(Box::new(inner.send(msg))),
            LayoutView::Choose { variants, current } => {
                if current < variants.len() {
                    let len = variants.len();
                    match msg {
                        LayoutMsg::NextLayout => LayoutView::Choose {
                            variants,
                            current: (current + 1) % len,
                        },
                        LayoutMsg::PrevLayout => LayoutView::Choose {
                            variants,
                            current: ((current + len - 1) % (len as int)) as nat,
                        },
                        LayoutMsg::FirstLayout => LayoutView::Choose { variants, current: 0 },
                        LayoutMsg::LastLayout => LayoutView::Choose {
                            variants,
                            current: (len - 1) as nat,
                        },
                        other => LayoutView::Choose {
                            variants: variants.update(
                                current as int,
                                variants[current as int].send(other),
                            ),
                            current,
                        },
                    }
                } else {
                    self
                }
            },
        }
    }

    /// The rectangles of `n` visible windows in `area`, where `struts` are
    /// the reservations of the windows on screen.
    ///
    /// - `Tall`: see [`TallLayout::spec_rect`].
    /// - `Full`: `area` for every window.
    /// - `Strut`: what the inner layout computes for `area` without the
    ///   margins reserved on it.
    /// - `Gap`: what the inner layout computes for `area` inset by the
    ///   screen gap, each rectangle inset by the window gap.
    /// - `Mirror`: what the inner layout computes for `area`, each rectangle
    ///   reflected within the width of `area`.
    /// - `Choose`: what the selected layout computes.
    pub open spec fn rects(self, area: Rect, struts: Seq<StrutPartial>, n: nat) -> Seq<Rect>
        decreases self,
    {
        match self {
            LayoutView::Tall(tall) => tall.spec_rects(area, n),
            LayoutView::Full => Seq::new(n, |i: int| area),
            LayoutView::Strut(inner) => {
                let margins = reserved(struts, area);
                inner.rects(
                    area.spec_without_margins(margins.0, margins.1, margins.2, margins.3),
                    struts,
                    n,
                )
            },
            LayoutView::Gap { screen_gap, window_gap, inner } => inner.rects(
                area.spec_inset(screen_gap),
                struts,
                n,
            ).map_values(|r: Rect| r.spec_inset(window_gap)),
            LayoutView::Mirror(inner) => inner.rects(area, struts, n).map_values(
                |r: Rect| r.spec_mirror(area.width),
            ),
            LayoutView::Choose { variants, current } => {
                if current < variants.len() {
                    variants[current as int].rects(area, struts, n)
                } else {
                    Seq::empty()
                }
            },
        }
    }

    /// Whether the layout asks for the reserved margins when it computes
    /// the rectangles: there is a `Strut` among the layouts that compute
    /// them, which are the layout itself, its inner layout and so on, and
    /// of the layouts to choose from the selected one only.
    pub open spec fn needs_struts(self) -> bool
        decreases self,
    {
        match self {
            LayoutView::Tall(_) => false,
            LayoutView::Full => false,
            LayoutView::Strut(_) => true,
            LayoutView::Gap { inner, .. } => inner.needs_struts(),
            LayoutView::Mirror(inner) => inner.needs_struts(),
            LayoutView::Choose { variants, current } => {
                current < variants.len() && variants[current as int].needs_struts()
            },
        }
    }

    /// The windows that the layout asks to be put below their siblings when
    /// it computes the rectangles, in the order of the requests. `Full`
    /// lowers every visible window but the focused one, so that the focused
    /// window is on top; `Tall` lowers none. The other layouts lower what
    /// their inner or selected layout lowers.
    pub open spec fn lowered(self, visible: Seq<Window>, focused: Window) -> Seq<Window>
        decreases self,
    {
        match self {
            LayoutView::Tall(_) => Seq::empty(),
            LayoutView::Full => unfocused(visible, focused),
            LayoutView::Strut(inner) => inner.lowered(visible, focused),
            LayoutView::Gap { inner, .. } => inner.lowered(visible, focused),
            LayoutView::Mirror(inner) => inner.lowered(visible, focused),
            LayoutView::Choose { variants, current } => {
                if current < variants.len() {
                    variants[current as int].lowered(visible, focused)
                } else {
                    Seq::empty()
                }
            },
        }
    }

    /// A well-formed layout is well formed after any message.
    pub proof fn lemma_send_keeps_wf(self, msg: LayoutMsg)
        requires
            self.wf(),
        ensures
            self.send(msg).wf(),
        decreases self,
    {
        match self {
            LayoutView::Tall(_) => {},
            LayoutView::Full => {},
            LayoutView::Strut(inner) => {
                inner.lemma_send_keeps_wf(msg);
            },
            LayoutView::Gap { inner, .. } => {
                inner.lemma_send_keeps_wf(msg);
            },
            LayoutView::Mirror(inner) => {
                inner.lemma_send_keeps_wf(msg);
            },
            LayoutView::Choose { variants, current } => {
                if !msg.is_navigation() {
                    variants[current as int].lemma_send_keeps_wf(msg);
                }
            },
        }
    }

    /// A well-formed layout computes one rectangle for each visible window.
    pub proof fn lemma_rects_len(self, area: Rect, struts: Seq<StrutPartial>, n: nat)
        requires
            self.wf(),
        ensures
            self.rects(area, struts, n).len() == n,
        decreases self,
    {
        match self {
            LayoutView::Tall(_) => {},
            LayoutView::Full => {},
            LayoutView::Strut(inner) => {
                let margins = reserved(struts, area);
                inner.lemma_rects_len(
                    area.spec_without_margins(margins.0, margins.1, margins.2, margins.3),
                    struts,
                    n,
                );
            },
            LayoutView::Gap { screen_gap, inner, .. } => {
                inner.lemma_rects_len(area.spec_inset(screen_gap), struts, n);
            },
            LayoutView::Mirror(inner) => {
                inner.lemma_rects_len(area, struts, n);
            },
            LayoutView::Choose { variants, current } => {
                variants[current as int].lemma_rects_len(area, struts, n);
            },
        }
    }
}

} // verus!
