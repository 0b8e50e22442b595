//! The full layout: every window fills the area, the focused one on top.

use crate::client::ProtocolClient;
use crate::layout::Layout;
use crate::message::LayoutMsg;
use crate::model::{unfocused, LayoutView};
use crate::rect::Rect;
use crate::stack::{Stack, Window};
use vstd::prelude::*;

verus! {

/// The full layout. It has no state and ignores every message.
#[derive(Clone, Copy, PartialEq, Eq, Structural)]
pub struct FullLayout {}

impl View for FullLayout {
    type V = LayoutView;

    open spec fn view(&self) -> LayoutView {
        LayoutView::Full
    }
}

impl FullLayout {
    /// A full layout.
    pub fn new() -> (layout: Layout)
        ensures
            layout@ == LayoutView::Full,
            layout@.wf(),
    {
        let layout = Layout::Full(FullLayout {});
        proof {
            layout.lemma_view_of_variant();
        }
        layout
    }

    /// The name of the layout: `Full`.
    pub fn name(&self) -> (s: String)
        ensures
            s@ == "Full"@,
    {
        String::from_str("Full")
    }

    /// Ignores the message.
    pub fn send_msg(&mut self, _msg: LayoutMsg)
        ensures
            *final(self) == *old(self),
    {
    }

    /// Gives every visible window the whole of `area`, and asks for every
    /// visible window but the focused one to be lowered, once each, in the
    /// order of the windows.
    pub fn apply(&self, area: Rect, ws: &mut ProtocolClient, stack: &Stack) -> (rects: Vec<Rect>)
        ensures
            rects@ == Seq::new(stack.visible@.len(), |i: int| area),
            rects@.len() == stack.visible@.len(),
            final(ws).struts == old(ws).struts,
            final(ws).lowered@ == old(ws).lowered@ + unfocused(
                stack.visible@,
                stack.focused_window,
            ),
    {
        let mut rects: Vec<Rect> = Vec::new();
        let mut i: usize = 0;
        assert(unfocused(Seq::<Window>::empty(), stack.focused_window) =~= Seq::<Window>::empty())
            by {
            reveal(Seq::filter);
        }
        while i < stack.visible.len()
            invariant
                i <= stack.visible@.len(),
                rects@.len() == i,
                forall|j: int| 0 <= j < i ==> rects@[j] == area,
                ws.struts == old(ws).struts,
                ws.lowered@ == old(ws).lowered@ + unfocused(
                    stack.visible@.take(i as int),
                    stack.focused_window,
                ),
            decreases stack.visible@.len() - i,
        {
            let window = stack.visible[i];
            proof {
                let next = stack.visible@.take(i + 1);
                assert(next.drop_last() =~= stack.visible@.take(i as int));
                reveal(Seq::filter);
            }
            if window != stack.focused_window {
                ws.lower_window(window);
            }
            rects.push(area);
            i += 1;
        }
        assert(stack.visible@.take(i as int) =~= stack.visible@);
        rects
    }

    /// A copy of the layout.
    pub fn copy(&self) -> (layout: Layout)
        ensures
            layout@ == LayoutView::Full,
            layout@.wf(),
    {
        let layout = Layout::Full(FullLayout {});
        proof {
            layout.lemma_view_of_variant();
        }
        layout
    }
}

} // verus!
