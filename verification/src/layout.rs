//! Layouts as values: the closed family of tiling strategies, and the
//! layouts that wrap another layout.

use crate::client::ProtocolClient;
use crate::full::FullLayout;
use crate::message::LayoutMsg;
use crate::model::LayoutView;
use crate::rect::Rect;
use crate::stack::{Stack, Window};
use crate::tall::TallLayout;
use vstd::prelude::*;

verus! {

/// A tiling strategy: one of the two primitive layouts, or a layout that
/// wraps others. A layout owns the layouts that it wraps, so that a copy of
/// it shares nothing with it.
pub enum Layout {
    Tall(TallLayout),
    Full(FullLayout),
    Strut(StrutLayout),
    Gap(GapLayout),
    Mirror(MirrorLayout),
    Choose(ChooseLayout),
}

/// The inner layout on what panels and docks leave of the area.
pub struct StrutLayout {
    layout: Box<Layout>,
}

/// The inner layout with a margin round the area and round every window.
pub struct GapLayout {
    screen_gap: u32,
    window_gap: u32,
    layout: Box<Layout>,
}

/// The inner layout with left and right exchanged.
pub struct MirrorLayout {
    layout: Box<Layout>,
}

/// One of several layouts: the one that is selected. There is at least one,
/// and `current` is the index of one: that is the invariant of the type.
pub struct ChooseLayout {
    layouts: Vec<Layout>,
    current: usize,
}

/// The views of the layouts in `layouts`, in their order.
pub open spec fn views(layouts: Seq<Layout>) -> Seq<LayoutView> {
    Seq::new(layouts.len(), |i: int| layouts[i]@)
}

impl Layout {
    /// The view of the layout; `layout@` is short for it. (A `ChooseLayout`
    /// always selects one of its layouts; the other case is there to make
    /// the function total.)
    pub closed spec fn model(&self) -> LayoutView
        decreases self,
    {
        match self {
            Layout::Tall(tall) => LayoutView::Tall(*tall),
            Layout::Full(_) => LayoutView::Full,
            Layout::Strut(strut) => LayoutView::Strut(Box::new(strut.layout.model())),
            Layout::Gap(gap) => LayoutView::Gap {
                screen_gap: gap.screen_gap,
                window_gap: gap.window_gap,
                inner: Box::new(gap.layout.model()),
            },
            Layout::Mirror(mirror) => LayoutView::Mirror(Box::new(mirror.layout.model())),
            Layout::Choose(choose) => if choose.current < choose.layouts@.len() {
                LayoutView::Choose {
                    variants: Seq::new(
                        choose.layouts@.len(),
                        |i: int|
                            if 0 <= i < choose.layouts@.len() {
                                choose.layouts@[i].model()
                            } else {
                                LayoutView::Full
                            },
                    ),
                    current: choose.current as nat,
                }
            } else {
                LayoutView::Full
            },
        }
    }
}

impl View for Layout {
    type V = LayoutView;

    open spec fn view(&self) -> LayoutView {
        self.model()
    }
}

impl View for StrutLayout {
    type V = LayoutView;

    closed spec fn view(&self) -> LayoutView {
        LayoutView::Strut(Box::new(self.layout.model()))
    }
}

impl View for GapLayout {
    type V = LayoutView;

    closed spec fn view(&self) -> LayoutView {
        LayoutView::Gap {
            screen_gap: self.screen_gap,
            window_gap: self.window_gap,
            inner: Box::new(self.layout.model()),
        }
    }
}

impl View for MirrorLayout {
    type V = LayoutView;

    closed spec fn view(&self) -> LayoutView {
        LayoutView::Mirror(Box::new(self.layout.model()))
    }
}

impl View for ChooseLayout {
    type V = LayoutView;

    closed spec fn view(&self) -> LayoutView {
        if self.current < self.layouts@.len() {
            LayoutView::Choose { variants: views(self.layouts@), current: self.current as nat }
        } else {
            LayoutView::Full
        }
    }
}

impl Layout {
    /// What the variant holds has the view of the layout.
    pub proof fn lemma_view_of_variant(&self)
        ensures
            self matches Layout::Tall(tall) ==> self@ == LayoutView::Tall(*tall),
            self matches Layout::Full(full) ==> self@ == full@,
            self matches Layout::Strut(strut) ==> self@ == strut@,
            self matches Layout::Gap(gap) ==> self@ == gap@,
            self matches Layout::Mirror(mirror) ==> self@ == mirror@,
            self matches Layout::Choose(choose) ==> self@ == choose@,
    {
        match self {
            Layout::Choose(choose) => {
                if choose.current < choose.layouts@.len() {
                    assert(self@->variants =~= views(choose.layouts@));
                }
            },
            _ => {},
        }
    }

    /// The view of a layout is well formed.
    pub proof fn lemma_wf(&self)
        ensures
            self@.wf(),
        decreases self,
    {
        match self {
            Layout::Tall(_) => {},
            Layout::Full(_) => {},
            Layout::Strut(strut) => {
                strut.layout.lemma_wf();
            },
            Layout::Gap(gap) => {
                gap.layout.lemma_wf();
            },
            Layout::Mirror(mirror) => {
                mirror.layout.lemma_wf();
            },
            Layout::Choose(choose) => {
                if choose.current < choose.layouts@.len() {
                    assert forall|i: int| 0 <= i < self@->variants.len() implies (
                    #[trigger] self@->variants[i]).wf() by {
                        choose.layouts@[i].lemma_wf();
                    }
                }
            },
        }
    }
}

impl Layout {
    /// The name of the layout; see [`LayoutView::name`].
    pub fn name(&self) -> (s: String)
        ensures
            s@ == self@.name(),
        decreases self@, 1nat,
    {
        match self {
            Layout::Tall(tall) => tall.name(),
            Layout::Full(full) => full.name(),
            Layout::Strut(strut) => strut.name(),
            Layout::Gap(gap) => gap.name(),
            Layout::Mirror(mirror) => mirror.name(),
            Layout::Choose(choose) => {
                proof {
                    self.lemma_view_of_variant();
                }
                choose.name()
            },
        }
    }

    /// Hands `msg` to the layout, which changes in place; see
    /// [`LayoutView::send`]. No message is an error: a layout ignores what
    /// it has no use for.
    pub fn send_msg(&mut self, msg: LayoutMsg)
        ensures
            final(self)@ == old(self)@.send(msg),
            final(self)@.wf(),
        decreases old(self)@, 1nat,
    {
        proof {
            old(self).lemma_view_of_variant();
        }
        match self {
            Layout::Tall(tall) => {
                tall.send_msg(msg);
            },
            Layout::Full(full) => {
                full.send_msg(msg);
            },
            Layout::Strut(strut) => {
                strut.send_msg(msg);
            },
            Layout::Gap(gap) => {
                gap.send_msg(msg);
            },
            Layout::Mirror(mirror) => {
                mirror.send_msg(msg);
            },
            Layout::Choose(choose) => {
                choose.send_msg(msg);
            },
        }
        proof {
            self.lemma_view_of_variant();
        }
    }

    /// Computes the rectangles of the visible windows of `stack` in `area`:
    /// one for each window, in the order of the windows, and none where no
    /// window is visible; see [`LayoutView::rects`]. The reservations are
    /// those that `ws` knows. The requests to lower a window that the
    /// layout makes are added to `ws.lowered`; see [`LayoutView::lowered`].
    pub fn apply(&self, area: Rect, ws: &mut ProtocolClient, stack: &Stack) -> (rects: Vec<Rect>)
        ensures
            rects@ == self@.rects(area, old(ws).struts@, stack.visible@.len()),
            rects@.len() == stack.visible@.len(),
            stack.visible@.len() == 0 ==> rects@ == Seq::<Rect>::empty(),
            final(ws).struts == old(ws).struts,
            final(ws).lowered@ == old(ws).lowered@ + self@.lowered(
                stack.visible@,
                stack.focused_window,
            ),
        decreases self@, 1nat,
    {
        proof {
            self.lemma_view_of_variant();
        }
        match self {
            Layout::Tall(tall) => tall.apply(area, ws, stack),
            Layout::Full(full) => full.apply(area, ws, stack),
            Layout::Strut(strut) => strut.apply(area, ws, stack),
            Layout::Gap(gap) => gap.apply(area, ws, stack),
            Layout::Mirror(mirror) => mirror.apply(area, ws, stack),
            Layout::Choose(choose) => choose.apply(area, ws, stack),
        }
    }

    /// Whether the layout asks for the reserved margins when it computes
    /// the rectangles. Where it does not, the rectangles are the same
    /// whatever reservations the client knows, and the reservations need
    /// not be read for it.
    pub fn needs_struts(&self) -> (b: bool)
        ensures
            b == self@.needs_struts(),
        decreases self@,
    {
        match self {
            Layout::Tall(_) => false,
            Layout::Full(_) => false,
            Layout::Strut(_) => true,
            Layout::Gap(gap) => {
                assert(self@ matches LayoutView::Gap { inner, .. } && *inner == gap.layout@);
                gap.layout.needs_struts()
            },
            Layout::Mirror(mirror) => {
                assert(self@ matches LayoutView::Mirror(inner) && *inner == mirror.layout@);
                mirror.layout.needs_struts()
            },
            Layout::Choose(choose) => {
                proof {
                    use_type_invariant(choose);
                }
                assert(self@->variants[choose.current as int]
                    == choose.layouts@[choose.current as int]@);
                choose.layouts[choose.current].needs_struts()
            },
        }
    }

    /// Computes the rectangles of `windows` in `area` without the window
    /// system. Only the tall layout has such a computation; every other
    /// layout answers with no rectangle.
    pub fn simple_apply(&self, area: Rect, windows: &[Window]) -> (rects: Vec<Rect>)
        ensures
            rects@ == match self@ {
                LayoutView::Tall(tall) => tall.spec_rects(area, windows@.len()),
                _ => Seq::<Rect>::empty(),
            },
    {
        proof {
            self.lemma_view_of_variant();
        }
        match self {
            Layout::Tall(tall) => tall.simple_apply(area, windows),
            _ => Vec::new(),
        }
    }

    /// A copy of the layout and of every layout below it. The copy is in
    /// the state of the layout and shares nothing with it: what is sent to
    /// one of the two does not reach the other.
    pub fn copy(&self) -> (layout: Layout)
        ensures
            layout@ == self@,
        decreases self@, 1nat,
    {
        proof {
            self.lemma_view_of_variant();
        }
        match self {
            Layout::Tall(tall) => tall.copy(),
            Layout::Full(full) => full.copy(),
            Layout::Strut(strut) => strut.copy(),
            Layout::Gap(gap) => gap.copy(),
            Layout::Mirror(mirror) => mirror.copy(),
            Layout::Choose(choose) => choose.copy(),
        }
    }
}

impl StrutLayout {
    /// Wraps `layout`, so that it keeps clear of the space that panels and
    /// docks reserve.
    pub fn new(layout: Layout) -> (strut: Layout)
        ensures
            strut@ == LayoutView::Strut(Box::new(layout@)),
            strut@.wf(),
    {
        let strut = Layout::Strut(StrutLayout { layout: Box::new(layout) });
        proof {
            strut.lemma_wf();
        }
        strut
    }

    /// The name of the inner layout.
    pub fn name(&self) -> (s: String)
        ensures
            s@ == self@.name(),
        decreases self@, 0nat,
    {
        self.layout.name()
    }

    /// Hands `msg` to the inner layout.
    pub fn send_msg(&mut self, msg: LayoutMsg)
        ensures
            final(self)@ == old(self)@.send(msg),
            final(self)@.wf(),
        decreases old(self)@, 0nat,
    {
        self.layout.send_msg(msg);
    }

    /// Takes the margins that are reserved on `area` off its edges, and has
    /// the inner layout compute the rectangles on what is left.
    pub fn apply(&self, area: Rect, ws: &mut ProtocolClient, stack: &Stack) -> (rects: Vec<Rect>)
        ensures
            rects@ == self@.rects(area, old(ws).struts@, stack.visible@.len()),
            rects@.len() == stack.visible@.len(),
            final(ws).struts == old(ws).struts,
            final(ws).lowered@ == old(ws).lowered@ + self@.lowered(
                stack.visible@,
                stack.focused_window,
            ),
        decreases self@, 0nat,
    {
        let strut = ws.get_strut(area);
        let free = area.without_margins(strut.0, strut.1, strut.2, strut.3);
        self.layout.apply(free, ws, stack)
    }

    /// A copy of the layout and of its inner layout.
    pub fn copy(&self) -> (layout: Layout)
        ensures
            layout@ == self@,
        decreases self@, 0nat,
    {
        StrutLayout::new(self.layout.copy())
    }
}

impl GapLayout {
    /// Wraps `layout`, so that `screen_gap` pixels stay free round the area
    /// and `window_gap` pixels round every window.
    pub fn new(screen_gap: u32, window_gap: u32, layout: Layout) -> (gap: Layout)
        ensures
            gap@ == (LayoutView::Gap { screen_gap, window_gap, inner: Box::new(layout@) }),
            gap@.wf(),
    {
        let gap = Layout::Gap(GapLayout { screen_gap, window_gap, layout: Box::new(layout) });
        proof {
            gap.lemma_wf();
        }
        gap
    }

    /// The name of the inner layout.
    pub fn name(&self) -> (s: String)
        ensures
            s@ == self@.name(),
        decreases self@, 0nat,
    {
        self.layout.name()
    }

    /// Hands `msg` to the inner layout.
    pub fn send_msg(&mut self, msg: LayoutMsg)
        ensures
            final(self)@ == old(self)@.send(msg),
            final(self)@.wf(),
        decreases old(self)@, 0nat,
    {
        self.layout.send_msg(msg);
    }

    /// Insets `area` by the screen gap, has the inner layout compute the
    /// rectangles on that, and insets each of them by the window gap.
    pub fn apply(&self, area: Rect, ws: &mut ProtocolClient, stack: &Stack) -> (rects: Vec<Rect>)
        ensures
            rects@ == self@.rects(area, old(ws).struts@, stack.visible@.len()),
            rects@.len() == stack.visible@.len(),
            final(ws).struts == old(ws).struts,
            final(ws).lowered@ == old(ws).lowered@ + self@.lowered(
                stack.visible@,
                stack.focused_window,
            ),
        decreases self@, 0nat,
    {
        let mut rects = self.layout.apply(area.inset(self.screen_gap), ws, stack);
        let ghost inner = rects@;
        let mut i: usize = 0;
        while i < rects.len()
            invariant
                i <= rects@.len(),
                rects@.len() == inner.len(),
                forall|j: int| 0 <= j < i ==> rects@[j] == inner[j].spec_inset(self.window_gap),
                forall|j: int| i <= j < inner.len() ==> rects@[j] == inner[j],
            decreases rects@.len() - i,
        {
            let rect = rects[i];
            rects.set(i, rect.inset(self.window_gap));
            i += 1;
        }
        rects
    }

    /// A copy of the layout and of its inner layout.
    pub fn copy(&self) -> (layout: Layout)
        ensures
            layout@ == self@,
        decreases self@, 0nat,
    {
        GapLayout::new(self.screen_gap, self.window_gap, self.layout.copy())
    }
}

impl MirrorLayout {
    /// Wraps `layout`, so that what it puts left is put right.
    pub fn new(layout: Layout) -> (mirror: Layout)
        ensures
            mirror@ == LayoutView::Mirror(Box::new(layout@)),
            mirror@.wf(),
    {
        let mirror = Layout::Mirror(MirrorLayout { layout: Box::new(layout) });
        proof {
            mirror.lemma_wf();
        }
        mirror
    }

    /// The name of the inner layout inside `Mirror(..)`.
    pub fn name(&self) -> (s: String)
        ensures
            s@ == self@.name(),
        decreases self@, 0nat,
    {
        let inner = self.layout.name();
        let mut s = String::from_str("Mirror(");
        s.append(inner.as_str());
        s.append(")");
        s
    }

    /// Hands `msg` to the inner layout.
    pub fn send_msg(&mut self, msg: LayoutMsg)
        ensures
            final(self)@ == old(self)@.send(msg),
            final(self)@.wf(),
        decreases old(self)@, 0nat,
    {
        self.layout.send_msg(msg);
    }

    /// Has the inner layout compute the rectangles on `area`, and reflects
    /// each of them within the width of `area`: a rectangle at `x` moves to
    /// `area.width - (x + width)`.
    pub fn apply(&self, area: Rect, ws: &mut ProtocolClient, stack: &Stack) -> (rects: Vec<Rect>)
        ensures
            rects@ == self@.rects(area, old(ws).struts@, stack.visible@.len()),
            rects@.len() == stack.visible@.len(),
            final(ws).struts == old(ws).struts,
            final(ws).lowered@ == old(ws).lowered@ + self@.lowered(
                stack.visible@,
                stack.focused_window,
            ),
        decreases self@, 0nat,
    {
        let mut rects = self.layout.apply(area, ws, stack);
        let ghost inner = rects@;
        let mut i: usize = 0;
        while i < rects.len()
            invariant
                i <= rects@.len(),
                rects@.len() == inner.len(),
                forall|j: int| 0 <= j < i ==> rects@[j] == inner[j].spec_mirror(area.width),
                forall|j: int| i <= j < inner.len() ==> rects@[j] == inner[j],
            decreases rects@.len() - i,
        {
            let rect = rects[i];
            rects.set(i, rect.mirror(area.width));
            i += 1;
        }
        rects
    }

    /// A copy of the layout and of its inner layout.
    pub fn copy(&self) -> (layout: Layout)
        ensures
            layout@ == self@,
        decreases self@, 0nat,
    {
        MirrorLayout::new(self.layout.copy())
    }
}

impl ChooseLayout {
    /// There is a layout at the index `current`.
    #[verifier::type_invariant]
    spec fn selects_one(self) -> bool {
        self.current < self.layouts@.len()
    }

    /// The view of a layout that selects one of its layouts is well formed.
    proof fn lemma_wf(&self)
        requires
            self.current < self.layouts@.len(),
        ensures
            self@.wf(),
    {
        assert forall|i: int| 0 <= i < self@->variants.len() implies (
        #[trigger] self@->variants[i]).wf() by {
            self.layouts@[i].lemma_wf();
        }
    }

    /// A layout that is one of `layouts` at a time, the first of them to
    /// begin with. There has to be at least one layout.
    pub fn new(layouts: Vec<Layout>) -> (choose: Layout)
        requires
            layouts@.len() > 0,
        ensures
            choose@ == (LayoutView::Choose { variants: views(layouts@), current: 0 }),
            choose@.wf(),
    {
        let choose = Layout::Choose(ChooseLayout { layouts, current: 0 });
        proof {
            choose.lemma_view_of_variant();
            choose.lemma_wf();
        }
        choose
    }

    /// The index of the selected layout.
    pub fn current(&self) -> (index: usize)
        ensures
            self@ matches LayoutView::Choose { variants, current } && index == current
                && index < variants.len(),
    {
        proof {
            use_type_invariant(self);
        }
        self.current
    }

    /// The name of the selected layout.
    pub fn name(&self) -> (s: String)
        ensures
            s@ == self@.name(),
        decreases self@, 0nat,
    {
        proof {
            use_type_invariant(self);
        }
        assert(self@->variants[self.current as int] == self.layouts@[self.current as int]@);
        self.layouts[self.current].name()
    }

    /// Selects another layout where `msg` is one of the four navigation
    /// messages, and hands any other message to the selected layout. The
    /// layouts that are not selected stay as they are.
    pub fn send_msg(&mut self, msg: LayoutMsg)
        ensures
            final(self)@ == old(self)@.send(msg),
            final(self)@.wf(),
        decreases old(self)@, 0nat,
    {
        proof {
            use_type_invariant(&*self);
        }
        let len = self.layouts.len();
        let ghost before = self@->variants;
        let ghost cur = self.current as int;
        match msg {
            LayoutMsg::NextLayout => {
                assert((cur + 1) % (len as int) == if cur + 1 == len { 0 } else { cur + 1 })
                    by (nonlinear_arith)
                    requires
                        0 <= cur < len,
                ;
                self.current = if self.current + 1 == len {
                    0
                } else {
                    self.current + 1
                };
            },
            LayoutMsg::PrevLayout => {
                assert((cur + len - 1) % (len as int) == if cur == 0 { len - 1 } else { cur - 1 })
                    by (nonlinear_arith)
                    requires
                        0 <= cur < len,
                ;
                self.current = if self.current == 0 {
                    len - 1
                } else {
                    self.current - 1
                };
            },
            LayoutMsg::FirstLayout => {
                self.current = 0;
            },
            LayoutMsg::LastLayout => {
                self.current = len - 1;
            },
            other => {
                self.layouts[self.current].send_msg(other);
                assert(self@->variants =~= before.update(cur, before[cur].send(other)));
            },
        }
        proof {
            self.lemma_wf();
        }
    }

    /// The rectangles that the selected layout computes.
    pub fn apply(&self, area: Rect, ws: &mut ProtocolClient, stack: &Stack) -> (rects: Vec<Rect>)
        ensures
            rects@ == self@.rects(area, old(ws).struts@, stack.visible@.len()),
            rects@.len() == stack.visible@.len(),
            final(ws).struts == old(ws).struts,
            final(ws).lowered@ == old(ws).lowered@ + self@.lowered(
                stack.visible@,
                stack.focused_window,
            ),
        decreases self@, 0nat,
    {
        proof {
            use_type_invariant(self);
        }
        assert(self@->variants[self.current as int] == self.layouts@[self.current as int]@);
        self.layouts[self.current].apply(area, ws, stack)
    }

    /// A copy of the layout and of every layout that it chooses from, with
    /// the same layout selected.
    pub fn copy(&self) -> (layout: Layout)
        ensures
            layout@ == self@,
        decreases self@, 0nat,
    {
        proof {
            use_type_invariant(self);
        }
        let mut layouts: Vec<Layout> = Vec::new();
        let mut i: usize = 0;
        while i < self.layouts.len()
            invariant
                self.current < self.layouts@.len(),
                i <= self.layouts@.len(),
                layouts@.len() == i,
                forall|j: int| 0 <= j < i ==> (#[trigger] layouts@[j])@ == self.layouts@[j]@,
            decreases self.layouts@.len() - i,
        {
            assert(self@->variants[i as int] == self.layouts@[i as int]@);
            layouts.push(self.layouts[i].copy());
            i += 1;
        }
        let choose = Layout::Choose(ChooseLayout { layouts, current: self.current });
        proof {
            choose.lemma_view_of_variant();
            assert(choose@->variants =~= self@->variants);
        }
        choose
    }
}

} // verus!
