use vstd::prelude::*;
use crate::geometry::{Point, Rect, Size, rect_of};
use crate::display_list::{ClipRegion, Color, DisplayItem, DisplayList, white};
use crate::event::{WindowEvent, ends_loop};
use crate::object::Object;
use crate::rectangle::{Rectangle, lemma_after_event, marks_dirty};
use crate::renderable::Renderable;
use crate::style::style_item;

verus! {

/// Names the display list's pipeline in the rendering engine.
#[derive(Clone, Copy, Debug, PartialEq, Eq, Structural)]
pub struct PipelineId(pub u32, pub u32);

/// Everything the rendering engine is handed for one frame.
#[derive(Debug)]
pub struct Frame {
    /// The frame's version number.
    pub epoch: u32,
    /// The framebuffer's width, in device pixels.
    pub width: u32,
    /// The framebuffer's height, in device pixels.
    pub height: u32,
    /// The color behind everything.
    pub background: Color,
    pub pipeline_id: PipelineId,
    pub display_list: DisplayList,
}

/// The abstract state of a window.
pub struct WindowState {
    pub objects: Seq<Object>,
    pub rectangles: Seq<Rectangle>,
    pub width: u32,
    pub height: u32,
    pub epoch: u32,
    pub background: Color,
    pub pipeline_id: PipelineId,
}

/// The state of the run loop: the framebuffer size, the frame counter, and the
/// items drawn.
pub struct Window {
    epoch: u32,
    width: u32,
    height: u32,
    root_background_color: Color,
    pipeline_id: PipelineId,
    objects: Vec<Object>,
    rectangles: Vec<Rectangle>,
}

impl View for Window {
    type V = WindowState;

    closed spec fn view(&self) -> WindowState {
        WindowState {
            objects: self.objects@,
            rectangles: self.rectangles@,
            width: self.width,
            height: self.height,
            epoch: self.epoch,
            background: self.root_background_color,
            pipeline_id: self.pipeline_id,
        }
    }
}

/// Every object can be painted.
pub open spec fn state_wf(s: WindowState) -> bool {
    forall|i: int| 0 <= i < s.objects.len() ==> (#[trigger] s.objects[i]).wf()
}

/// Whether some item's appearance changed since it was last painted.
pub open spec fn any_dirty(s: WindowState) -> bool {
    (exists|i: int| 0 <= i < s.objects.len() && (#[trigger] s.objects[i]).spec_dirty())
        || (exists|i: int| 0 <= i < s.rectangles.len() && (#[trigger] s.rectangles[i]).spec_dirty())
}

/// The state after `event` is handed to every item and, where it is a resize,
/// the framebuffer size is taken over.
pub open spec fn state_after_event(s: WindowState, event: WindowEvent) -> WindowState {
    let rectangles = s.rectangles.map_values(|r: Rectangle| r.after_event(event));
    match event {
        WindowEvent::Resized(w, h) => WindowState { rectangles, width: w, height: h, ..s },
        _ => WindowState { rectangles, ..s },
    }
}

/// The state after handling `events` in order up to and including the first
/// that ends the loop, and whether one did.
pub open spec fn state_after_events(s: WindowState, events: Seq<WindowEvent>) -> (WindowState, bool)
    decreases events.len(),
{
    if events.len() == 0 {
        (s, false)
    } else {
        let next = state_after_event(s, events[0]);
        if ends_loop(events[0]) {
            (next, true)
        } else {
            state_after_events(next, events.drop_first())
        }
    }
}

/// A window with nothing to paint still has nothing to paint after an event
/// that changes no rectangle's hover state.
pub proof fn lemma_clean_until_change(s: WindowState, event: WindowEvent)
    requires
        !any_dirty(s),
        forall|k: int|
            0 <= k < s.rectangles.len() ==> !marks_dirty(
                (#[trigger] s.rectangles[k]).spec_rect(),
                s.rectangles[k].spec_active(),
                event,
            ),
    ensures
        !any_dirty(state_after_event(s, event)),
{
    let t = state_after_event(s, event);
    assert forall|k: int| 0 <= k < t.rectangles.len() implies !(#[trigger] t.rectangles[k]).spec_dirty() by {
        lemma_after_event(s.rectangles[k], event);
    }
}

/// The number of commands that the first `n` objects paint.
pub open spec fn style_total(objects: Seq<Object>, n: int) -> int
    decreases n,
{
    if n <= 0 {
        0
    } else {
        style_total(objects, n - 1) + objects[n - 1].spec_styles().len()
    }
}

/// The window's area in layout pixels.
pub open spec fn window_bounds(s: WindowState) -> Rect {
    rect_of(0, 0, s.width as int, s.height as int)
}

/// Whether `items` is the frame of `s`: one group over the window holding the
/// commands of every object in order, then a fill of every rectangle in order.
pub open spec fn frame_items(s: WindowState, items: Seq<DisplayItem>) -> bool {
    let total = style_total(s.objects, s.objects.len() as int);
    &&& items.len() == total + s.rectangles.len() + 2
    &&& items[0] == (DisplayItem::PushStackingContext {
        bounds: window_bounds(s),
        clip: ClipRegion::Simple(window_bounds(s)),
    })
    &&& forall|i: int, j: int|
        0 <= i < s.objects.len() && 0 <= j < s.objects[i].spec_styles().len() ==> style_item(
            #[trigger] s.objects[i].spec_styles()[j],
            s.objects[i].spec_build_info(),
            items[1 + style_total(s.objects, i) + j],
        )
    &&& forall|k: int|
        0 <= k < s.rectangles.len() ==> items[1 + total + k] == (DisplayItem::Rect {
            bounds: (#[trigger] s.rectangles[k]).spec_rect(),
            clip: ClipRegion::Simple(s.rectangles[k].spec_rect()),
            color: s.rectangles[k].spec_color(),
        })
    &&& items[items.len() - 1] == DisplayItem::PopStackingContext
}

/// Whether `after` is `before` with every item painted: unchanged but clean.
pub open spec fn all_painted(before: WindowState, after: WindowState) -> bool {
    &&& after.objects.len() == before.objects.len()
    &&& after.rectangles.len() == before.rectangles.len()
    &&& forall|i: int| 0 <= i < before.objects.len() ==> {
        &&& (#[trigger] after.objects[i]).spec_styles() == before.objects[i].spec_styles()
        &&& after.objects[i].spec_rect() == before.objects[i].spec_rect()
        &&& after.objects[i].spec_border_radius() == before.objects[i].spec_border_radius()
        &&& !after.objects[i].spec_dirty()
    }
    &&& forall|k: int| 0 <= k < before.rectangles.len() ==> {
        &&& (#[trigger] after.rectangles[k]).spec_rect() == before.rectangles[k].spec_rect()
        &&& after.rectangles[k].spec_color() == before.rectangles[k].spec_color()
        &&& after.rectangles[k].spec_active() == before.rectangles[k].spec_active()
        &&& !after.rectangles[k].spec_dirty()
    }
    &&& after.width == before.width
    &&& after.height == before.height
    &&& after.background == before.background
    &&& after.pipeline_id == before.pipeline_id
}

proof fn lemma_style_total_monotone(objects: Seq<Object>, n: int)
    requires
        0 <= n,
    ensures
        style_total(objects, n) >= 0,
        n < objects.len() ==> style_total(objects, n + 1) == style_total(objects, n) + objects[n].spec_styles().len(),
    decreases n,
{
    if n > 0 {
        lemma_style_total_monotone(objects, n - 1);
    }
}

proof fn lemma_style_total_le(objects: Seq<Object>, m: int, n: int)
    requires
        0 <= m <= n <= objects.len(),
    ensures
        style_total(objects, m) <= style_total(objects, n),
    decreases n - m,
{
    if m < n {
        lemma_style_total_le(objects, m, n - 1);
        lemma_style_total_monotone(objects, n - 1);
    }
}

impl Window {
    /// A window with a framebuffer of `width` by `height` device pixels, a
    /// white background, no items, and its frame counter at zero.
    pub fn new(width: u32, height: u32) -> (w: Window)
        ensures
            w@.objects == Seq::<Object>::empty(),
            w@.rectangles == Seq::<Rectangle>::empty(),
            w@.width == width,
            w@.height == height,
            w@.epoch == 0,
            w@.background == white(),
            w@.pipeline_id == PipelineId(0, 0),
    {
        Window {
            epoch: 0,
            width,
            height,
            root_background_color: Color::white(),
            pipeline_id: PipelineId(0, 0),
            objects: Vec::new(),
            rectangles: Vec::new(),
        }
    }

    /// Adds an object, drawn after those already there.
    pub fn add_object(&mut self, object: Object)
        requires
            object.wf(),
        ensures
            final(self)@ == (WindowState { objects: old(self)@.objects.push(object), ..old(self)@ }),
    {
        self.objects.push(object);
    }

    /// Adds a hover-tracked rectangle, drawn after those already there.
    pub fn add_rectangle(&mut self, rectangle: Rectangle)
        ensures
            final(self)@ == (WindowState { rectangles: old(self)@.rectangles.push(rectangle), ..old(self)@ }),
    {
        self.rectangles.push(rectangle);
    }

    /// The framebuffer's size, in device pixels.
    pub fn size(&self) -> (r: (u32, u32))
        ensures
            r == (self@.width, self@.height),
    {
        (self.width, self.height)
    }

    /// The pipeline the display lists belong to.
    pub fn pipeline_id(&self) -> (r: PipelineId)
        ensures
            r == self@.pipeline_id,
    {
        self.pipeline_id
    }

    /// The epoch the next frame will carry.
    pub fn epoch(&self) -> (r: u32)
        ensures
            r == self@.epoch,
    {
        self.epoch
    }

    /// Whether some item needs painting.
    pub fn needs_rebuild(&self) -> (r: bool)
        ensures
            r == any_dirty(self@),
    {
        let mut i: usize = 0;
        while i < self.objects.len()
            invariant
                i <= self.objects@.len(),
                forall|k: int| 0 <= k < i ==> !(#[trigger] self.objects@[k]).spec_dirty(),
            decreases self.objects@.len() - i,
        {
            if self.objects[i].is_dirty() {
                assert(self@.objects[i as int].spec_dirty());
                return true;
            }
            i = i + 1;
        }
        let mut j: usize = 0;
        while j < self.rectangles.len()
            invariant
                j <= self.rectangles@.len(),
                forall|k: int| 0 <= k < self.objects@.len() ==> !(#[trigger] self.objects@[k]).spec_dirty(),
                forall|k: int| 0 <= k < j ==> !(#[trigger] self.rectangles@[k]).spec_dirty(),
            decreases self.rectangles@.len() - j,
        {
            if self.rectangles[j].is_dirty() {
                assert(self@.rectangles[j as int].spec_dirty());
                return true;
            }
            j = j + 1;
        }
        false
    }

    /// Hands `event` to every item, takes over the framebuffer size where it
    /// is a resize, and says whether it ends the run loop.
    pub fn handle_event(&mut self, event: &WindowEvent) -> (quit: bool)
        requires
            state_wf(old(self)@),
        ensures
            final(self)@ == state_after_event(old(self)@, *event),
            quit == ends_loop(*event),
            state_wf(final(self)@),
    {
        let ghost s0 = self@;
        let mut i: usize = 0;
        while i < self.rectangles.len()
            invariant
                state_wf(self@),
                self@.objects == s0.objects,
                self.width == s0.width,
                self.height == s0.height,
                self.epoch == s0.epoch,
                self.root_background_color == s0.background,
                self.pipeline_id == s0.pipeline_id,
                i <= self.rectangles@.len(),
                self.rectangles@.len() == s0.rectangles.len(),
                forall|k: int| 0 <= k < i ==> #[trigger] self.rectangles@[k] == s0.rectangles[k].after_event(*event),
                forall|k: int| i <= k < self.rectangles@.len() ==> #[trigger] self.rectangles@[k] == s0.rectangles[k],
            decreases self.rectangles@.len() - i,
        {
            let ghost before = self@;
            self.rectangles[i].handle_window_event(event);
            i = i + 1;
        }
        let ghost s1 = self@;
        let mut j: usize = 0;
        while j < self.objects.len()
            invariant
                state_wf(self@),
                self@ == s1,
                j <= self.objects@.len(),
            decreases self.objects@.len() - j,
        {
            assert(self@.objects[j as int].wf());
            self.objects[j].handle_window_event(event);
            assert(self.objects@ =~= s1.objects);
            j = j + 1;
        }
        assert(self.rectangles@ =~= s0.rectangles.map_values(|r: Rectangle| r.after_event(*event)));
        if let WindowEvent::Resized(w, h) = event {
            self.width = *w;
            self.height = *h;
        }
        event.is_quit()
    }

    /// Handles `events` in order, stopping after the first that ends the run
    /// loop; says whether one did.
    pub fn handle_events(&mut self, events: &Vec<WindowEvent>) -> (quit: bool)
        requires
            state_wf(old(self)@),
        ensures
            (final(self)@, quit) == state_after_events(old(self)@, events@),
            state_wf(final(self)@),
    {
        assert(events@.subrange(0, events@.len() as int) =~= events@);
        let mut i: usize = 0;
        while i < events.len()
            invariant
                state_wf(self@),
                i <= events@.len(),
                state_after_events(self@, events@.subrange(i as int, events@.len() as int))
                    == state_after_events(old(self)@, events@),
            decreases events@.len() - i,
        {
            let ghost rest = events@.subrange(i as int, events@.len() as int);
            assert(rest.drop_first() =~= events@.subrange(i + 1, events@.len() as int));
            if self.handle_event(&events[i]) {
                return true;
            }
            i = i + 1;
        }
        assert(events@.subrange(i as int, events@.len() as int) =~= Seq::<WindowEvent>::empty());
        false
    }

    /// Advances every item by one step of time.
    pub fn update(&mut self)
        requires
            state_wf(old(self)@),
        ensures
            final(self)@ == old(self)@,
    {
        let ghost s0 = self@;
        let mut i: usize = 0;
        while i < self.rectangles.len()
            invariant
                self@ == s0,
                i <= self.rectangles@.len(),
                state_wf(self@),
            decreases self.rectangles@.len() - i,
        {
            self.rectangles[i].update();
            assert(self.rectangles@ =~= s0.rectangles);
            i = i + 1;
        }
        let mut j: usize = 0;
        while j < self.objects.len()
            invariant
                self@ == s0,
                j <= self.objects@.len(),
                state_wf(self@),
            decreases self.objects@.len() - j,
        {
            assert(self@.objects[j as int].wf());
            self.objects[j].update();
            assert(self.objects@ =~= s0.objects);
            j = j + 1;
        }
    }

    fn next_epoch(&mut self) -> (e: u32)
        requires
            old(self).epoch < u32::MAX,
        ensures
            e == old(self).epoch,
            final(self).epoch == old(self).epoch + 1,
            final(self).width == old(self).width,
            final(self).height == old(self).height,
            final(self).root_background_color == old(self).root_background_color,
            final(self).pipeline_id == old(self).pipeline_id,
            final(self).objects == old(self).objects,
            final(self).rectangles == old(self).rectangles,
    {
        let e = self.epoch;
        self.epoch = self.epoch + 1;
        e
    }

    /// Where some item needs painting, paints every item into a new display
    /// list inside one group over the whole window, takes the next epoch, and
    /// returns the frame; otherwise leaves everything as it is.
    pub fn construct_display_list(&mut self) -> (frame: Option<Frame>)
        requires
            state_wf(old(self)@),
            old(self)@.epoch < u32::MAX,
        ensures
            frame is Some <==> any_dirty(old(self)@),
            frame is None ==> final(self)@ == old(self)@,
            frame matches Some(f) ==> {
                &&& frame_items(old(self)@, f.display_list@)
                &&& f.epoch == old(self)@.epoch
                &&& f.width == old(self)@.width
                &&& f.height == old(self)@.height
                &&& f.background == old(self)@.background
                &&& f.pipeline_id == old(self)@.pipeline_id
                &&& all_painted(old(self)@, final(self)@)
                &&& final(self)@.epoch == old(self)@.epoch + 1
            },
            !any_dirty(final(self)@),
            state_wf(final(self)@),
    {
        if !self.needs_rebuild() {
            return None;
        }
        let ghost s0 = self@;
        let mut builder = DisplayList::new();
        let bounds = Rect::new(Point::zero(), Size::new(self.width as i64, self.height as i64));
        builder.push(DisplayItem::PushStackingContext { bounds, clip: ClipRegion::simple(&bounds) });
        let mut i: usize = 0;
        while i < self.objects.len()
            invariant
                state_wf(self@),
                i <= self.objects@.len(),
                self.objects@.len() == s0.objects.len(),
                self.rectangles@ == s0.rectangles,
                self.width == s0.width,
                self.height == s0.height,
                self.epoch == s0.epoch,
                self.root_background_color == s0.background,
                self.pipeline_id == s0.pipeline_id,
                forall|k: int| i <= k < self.objects@.len() ==> #[trigger] self.objects@[k] == s0.objects[k],
                forall|k: int| 0 <= k < i ==> {
                    &&& (#[trigger] self.objects@[k]).spec_styles() == s0.objects[k].spec_styles()
                    &&& self.objects@[k].spec_rect() == s0.objects[k].spec_rect()
                    &&& self.objects@[k].spec_border_radius() == s0.objects[k].spec_border_radius()
                    &&& !self.objects@[k].spec_dirty()
                },
                builder@.len() == 1 + style_total(s0.objects, i as int),
                builder@[0] == (DisplayItem::PushStackingContext {
                    bounds: window_bounds(s0),
                    clip: ClipRegion::Simple(window_bounds(s0)),
                }),
                forall|a: int, b: int|
                    0 <= a < i && 0 <= b < s0.objects[a].spec_styles().len() ==> style_item(
                        #[trigger] s0.objects[a].spec_styles()[b],
                        s0.objects[a].spec_build_info(),
                        builder@[1 + style_total(s0.objects, a) + b],
                    ),
            decreases self.objects@.len() - i,
        {
            assert(self@.objects[i as int].wf());
            let ghost before = builder@;
            let ghost wbefore = self@;
            self.objects[i].paint(&mut builder);
            proof {
                lemma_style_total_monotone(s0.objects, i as int);
                assert forall|p: int| 0 <= p < before.len() implies builder@[p] == before[p] by {
                    assert(builder@.subrange(0, before.len() as int)[p] == builder@[p]);
                }
                assert forall|a: int, b: int|
                    0 <= a < i + 1 && 0 <= b < s0.objects[a].spec_styles().len() implies style_item(
                        #[trigger] s0.objects[a].spec_styles()[b],
                        s0.objects[a].spec_build_info(),
                        builder@[1 + style_total(s0.objects, a) + b],
                    ) by {
                    if a < i {
                        lemma_style_total_monotone(s0.objects, a);
                        lemma_style_total_le(s0.objects, a + 1, i as int);
                    }
                }
                assert(self@.rectangles == wbefore.rectangles);
                assert forall|k: int| 0 <= k < self@.objects.len() implies (#[trigger] self@.objects[k]).wf() by {
                    if k != i {
                        assert(self@.objects[k] == wbefore.objects[k]);
                    }
                }
            }
            i = i + 1;
        }
        let ghost total = style_total(s0.objects, s0.objects.len() as int);
        proof {
            lemma_style_total_monotone(s0.objects, s0.objects.len() as int);
        }
        let mut j: usize = 0;
        while j < self.rectangles.len()
            invariant
                state_wf(self@),
                j <= self.rectangles@.len(),
                self.rectangles@.len() == s0.rectangles.len(),
                self.width == s0.width,
                self.height == s0.height,
                self.epoch == s0.epoch,
                self.root_background_color == s0.background,
                self.pipeline_id == s0.pipeline_id,
                self.objects@.len() == s0.objects.len(),
                forall|k: int| 0 <= k < self.objects@.len() ==> {
                    &&& (#[trigger] self.objects@[k]).spec_styles() == s0.objects[k].spec_styles()
                    &&& self.objects@[k].spec_rect() == s0.objects[k].spec_rect()
                    &&& self.objects@[k].spec_border_radius() == s0.objects[k].spec_border_radius()
                    &&& !self.objects@[k].spec_dirty()
                },
                forall|k: int| j <= k < self.rectangles@.len() ==> #[trigger] self.rectangles@[k] == s0.rectangles[k],
                forall|k: int| 0 <= k < j ==> {
                    &&& (#[trigger] self.rectangles@[k]).spec_rect() == s0.rectangles[k].spec_rect()
                    &&& self.rectangles@[k].spec_color() == s0.rectangles[k].spec_color()
                    &&& self.rectangles@[k].spec_active() == s0.rectangles[k].spec_active()
                    &&& !self.rectangles@[k].spec_dirty()
                },
                total == style_total(s0.objects, s0.objects.len() as int),
                total >= 0,
                builder@.len() == 1 + total + j,
                builder@[0] == (DisplayItem::PushStackingContext {
                    bounds: window_bounds(s0),
                    clip: ClipRegion::Simple(window_bounds(s0)),
                }),
                forall|a: int, b: int|
                    0 <= a < s0.objects.len() && 0 <= b < s0.objects[a].spec_styles().len() ==> style_item(
                        #[trigger] s0.objects[a].spec_styles()[b],
                        s0.objects[a].spec_build_info(),
                        builder@[1 + style_total(s0.objects, a) + b],
                    ),
                forall|k: int|
                    0 <= k < j ==> builder@[1 + total + k] == (DisplayItem::Rect {
                        bounds: (#[trigger] s0.rectangles[k]).spec_rect(),
                        clip: ClipRegion::Simple(s0.rectangles[k].spec_rect()),
                        color: s0.rectangles[k].spec_color(),
                    }),
            decreases self.rectangles@.len() - j,
        {
            let ghost before = builder@;
            let ghost wbefore = self@;
            self.rectangles[j].paint(&mut builder);
            proof {
                lemma_style_total_monotone(s0.objects, s0.objects.len() as int);
                assert forall|p: int| 0 <= p < before.len() implies builder@[p] == before[p] by {}
                assert(builder@[0] == before[0]);
                assert forall|a: int, b: int|
                    0 <= a < s0.objects.len() && 0 <= b < s0.objects[a].spec_styles().len() implies style_item(
                        #[trigger] s0.objects[a].spec_styles()[b],
                        s0.objects[a].spec_build_info(),
                        builder@[1 + style_total(s0.objects, a) + b],
                    ) by {
                    lemma_style_total_monotone(s0.objects, a);
                    lemma_style_total_le(s0.objects, a + 1, s0.objects.len() as int);
                }
                assert forall|k: int| 0 <= k < self@.objects.len() implies (#[trigger] self@.objects[k]).wf() by {
                    assert(self@.objects[k] == wbefore.objects[k]);
                }
            }
            j = j + 1;
        }
        let ghost before = builder@;
        builder.push(DisplayItem::PopStackingContext);
        let epoch = self.next_epoch();
        proof {
            lemma_style_total_monotone(s0.objects, s0.objects.len() as int);
            assert forall|a: int, b: int|
                0 <= a < s0.objects.len() && 0 <= b < s0.objects[a].spec_styles().len() implies style_item(
                    #[trigger] s0.objects[a].spec_styles()[b],
                    s0.objects[a].spec_build_info(),
                    builder@[1 + style_total(s0.objects, a) + b],
                ) by {
                lemma_style_total_monotone(s0.objects, a);
                lemma_style_total_le(s0.objects, a + 1, s0.objects.len() as int);
                assert(builder@[1 + style_total(s0.objects, a) + b] == before[1 + style_total(s0.objects, a) + b]);
            }
            assert forall|k: int| 0 <= k < s0.rectangles.len() implies builder@[1 + total + k] == (DisplayItem::Rect {
                bounds: (#[trigger] s0.rectangles[k]).spec_rect(),
                clip: ClipRegion::Simple(s0.rectangles[k].spec_rect()),
                color: s0.rectangles[k].spec_color(),
            }) by {
                assert(builder@[1 + total + k] == before[1 + total + k]);
            }
            assert(builder@[0] == before[0]);
            assert(builder@[builder@.len() - 1] == DisplayItem::PopStackingContext);
            assert(frame_items(s0, builder@));
            assert(self@.objects == self.objects@);
            assert(!any_dirty(self@));
        }
        Some(Frame {
            epoch,
            width: self.width,
            height: self.height,
            background: self.root_background_color,
            pipeline_id: self.pipeline_id,
            display_list: builder,
        })
    }
}

} // verus!
