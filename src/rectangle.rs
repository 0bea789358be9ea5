use vstd::prelude::*;
use crate::geometry::{Point, Rect, rect_contains};
use crate::display_list::{ClipRegion, Color, DisplayItem, DisplayList, green, red};
use crate::event::WindowEvent;
use crate::renderable::Renderable;

verus! {

/// A rectangle that turns green while the pointer is over it and red
/// otherwise, and records when its color changes.
#[derive(Debug)]
pub struct Rectangle {
    pub rect: Rect,
    dirty: bool,
    active: bool,
}

/// Half of a device coordinate, rounded toward zero: the layout coordinate
/// that the hover test uses.
pub open spec fn halved(v: i32) -> i64 {
    if v >= 0 {
        (v / 2) as i64
    } else {
        -((-v) / 2) as i64
    }
}

/// The layout point that a pointer at device position `(x, y)` is tested at.
pub open spec fn pointer_point(x: i32, y: i32) -> Point {
    Point { x: halved(x), y: halved(y) }
}

/// Whether `event` moves the pointer over `rect`, leaving the hover state
/// untouched where it is no pointer move.
pub open spec fn hovered_after(rect: Rect, active: bool, event: WindowEvent) -> bool {
    match event {
        WindowEvent::MouseMoved(x, y) => rect_contains(rect, pointer_point(x, y)),
        _ => active,
    }
}

/// Whether `event` changes the hover state of a rectangle over `rect` that is
/// `active`: only such an event marks it dirty.
pub open spec fn marks_dirty(rect: Rect, active: bool, event: WindowEvent) -> bool {
    hovered_after(rect, active, event) != active
}

/// The color of a rectangle in the given hover state.
pub open spec fn hover_color(active: bool) -> Color {
    if active {
        green()
    } else {
        red()
    }
}

/// Whether `event` moves the pointer to a point inside `rect`.
pub open spec fn moves_inside(rect: Rect, event: WindowEvent) -> bool {
    match event {
        WindowEvent::MouseMoved(x, y) => rect_contains(rect, pointer_point(x, y)),
        _ => false,
    }
}

/// What an event does to a rectangle: the area stays, the hover state follows
/// the pointer, and the rectangle becomes dirty exactly when that state
/// changes.
pub proof fn lemma_after_event(r: Rectangle, event: WindowEvent)
    ensures
        r.after_event(event).spec_rect() == r.spec_rect(),
        r.after_event(event).spec_active() == hovered_after(r.spec_rect(), r.spec_active(), event),
        r.after_event(event).spec_dirty() == (r.spec_dirty() || marks_dirty(r.spec_rect(), r.spec_active(), event)),
{
}

/// The rectangle after handling `events` in order.
pub open spec fn after_events(r: Rectangle, events: Seq<WindowEvent>) -> Rectangle
    decreases events.len(),
{
    if events.len() == 0 {
        r
    } else {
        after_events(r, events.drop_last()).after_event(events.last())
    }
}

/// Moving the pointer into a rectangle that is not hovered, and then around
/// inside it, marks it dirty at the first move and at no later one; it ends up
/// hovered, green and dirty.
pub proof fn lemma_enter_marks_dirty_once(r: Rectangle, events: Seq<WindowEvent>)
    requires
        !r.spec_active(),
        events.len() > 0,
        forall|i: int| 0 <= i < events.len() ==> moves_inside(r.spec_rect(), #[trigger] events[i]),
    ensures
        marks_dirty(r.spec_rect(), r.spec_active(), events[0]),
        forall|i: int|
            0 < i < events.len() ==> !marks_dirty(
                r.spec_rect(),
                after_events(r, events.take(i)).spec_active(),
                #[trigger] events[i],
            ),
        after_events(r, events).spec_active(),
        after_events(r, events).spec_color() == green(),
        after_events(r, events).spec_dirty(),
{
    assert forall|n: int| 1 <= n <= events.len() implies {
        let t = #[trigger] after_events(r, events.take(n));
        &&& t.spec_rect() == r.spec_rect()
        &&& t.spec_active()
        &&& t.spec_color() == green()
        &&& t.spec_dirty()
    } by {
        lemma_inside_prefix(r, events, n);
    }
    assert(events.take(events.len() as int) =~= events);
    assert forall|i: int| 0 < i < events.len() implies !marks_dirty(
        r.spec_rect(),
        after_events(r, events.take(i)).spec_active(),
        #[trigger] events[i],
    ) by {
        let t = after_events(r, events.take(i));
        assert(t.spec_active());
        assert(moves_inside(r.spec_rect(), events[i]));
    }
}

proof fn lemma_inside_prefix(r: Rectangle, events: Seq<WindowEvent>, n: int)
    requires
        !r.spec_active(),
        1 <= n <= events.len(),
        forall|i: int| 0 <= i < events.len() ==> moves_inside(r.spec_rect(), #[trigger] events[i]),
    ensures
        after_events(r, events.take(n)).spec_rect() == r.spec_rect(),
        after_events(r, events.take(n)).spec_active(),
        after_events(r, events.take(n)).spec_color() == green(),
        after_events(r, events.take(n)).spec_dirty(),
    decreases n,
{
    let pre = events.take(n);
    assert(pre.drop_last() =~= events.take(n - 1));
    assert(moves_inside(r.spec_rect(), events[n - 1]));
    assert(pre.last() == events[n - 1]);
    if n == 1 {
        assert(events.take(0) =~= Seq::<WindowEvent>::empty());
        assert(after_events(r, events.take(0)) == r);
    } else {
        lemma_inside_prefix(r, events, n - 1);
    }
    assert(after_events(r, pre) == after_events(r, events.take(n - 1)).after_event(events[n - 1]));
}

/// A clean rectangle stays clean through any events that do not change its
/// hover state, and through steps of time.
pub proof fn lemma_clean_until_change(r: Rectangle, events: Seq<WindowEvent>)
    requires
        !r.spec_dirty(),
        forall|i: int|
            0 <= i < events.len() ==> !marks_dirty(
                r.spec_rect(),
                after_events(r, events.take(i)).spec_active(),
                #[trigger] events[i],
            ),
    ensures
        !after_events(r, events).spec_dirty(),
        !after_events(r, events).stepped().spec_dirty(),
    decreases events.len(),
{
    if events.len() > 0 {
        let pre = events.drop_last();
        assert forall|i: int| 0 <= i < pre.len() implies !marks_dirty(
            r.spec_rect(),
            after_events(r, pre.take(i)).spec_active(),
            #[trigger] pre[i],
        ) by {
            assert(pre.take(i) =~= events.take(i));
            assert(pre[i] == events[i]);
        }
        lemma_clean_until_change(r, pre);
        lemma_rect_kept(r, pre);
        let k = events.len() - 1;
        assert(events.take(k) =~= pre);
        assert(!marks_dirty(r.spec_rect(), after_events(r, pre).spec_active(), events[k]));
    }
}

proof fn lemma_rect_kept(r: Rectangle, events: Seq<WindowEvent>)
    ensures
        after_events(r, events).spec_rect() == r.spec_rect(),
    decreases events.len(),
{
    if events.len() > 0 {
        lemma_rect_kept(r, events.drop_last());
    }
}

fn halve(v: i32) -> (r: i64)
    ensures
        r == halved(v),
{
    if v >= 0 {
        (v / 2) as i64
    } else {
        let m: i64 = -(v as i64);
        -(m / 2)
    }
}

impl Rectangle {
    /// The area that is painted and hover-tested.
    pub closed spec fn spec_rect(&self) -> Rect {
        self.rect
    }

    /// Whether the appearance changed since the last paint.
    pub closed spec fn spec_dirty(&self) -> bool {
        self.dirty
    }

    /// The color the rectangle is painted with: it follows the hover state.
    pub open spec fn spec_color(&self) -> Color {
        hover_color(self.spec_active())
    }

    /// Whether the pointer was over the rectangle at its last move.
    pub closed spec fn spec_active(&self) -> bool {
        self.active
    }

    /// A red rectangle over `rect`, not hovered, and dirty since it was never
    /// painted.
    pub fn new(rect: Rect) -> (r: Rectangle)
        ensures
            r.spec_rect() == rect,
            r.spec_dirty(),
            r.spec_color() == red(),
            !r.spec_active(),
    {
        Rectangle { rect, dirty: true, active: false }
    }

    /// The color the rectangle is painted with.
    pub fn color(&self) -> (c: Color)
        ensures
            c == self.spec_color(),
    {
        if self.active {
            Color::green()
        } else {
            Color::red()
        }
    }

    /// Whether the pointer was over the rectangle at its last move.
    pub fn is_active(&self) -> (a: bool)
        ensures
            a == self.spec_active(),
    {
        self.active
    }

    /// Follows the pointer: a move into the rectangle makes it active and
    /// green, a move out of it inactive and red. The rectangle becomes dirty
    /// exactly when the hover state changes; other events change nothing.
    pub fn on_event(&mut self, event: &WindowEvent)
        ensures
            final(self).spec_rect() == old(self).spec_rect(),
            final(self).spec_active() == hovered_after(old(self).spec_rect(), old(self).spec_active(), *event),
            final(self).spec_dirty() == (old(self).spec_dirty()
                || marks_dirty(old(self).spec_rect(), old(self).spec_active(), *event)),
    {
        if let WindowEvent::MouseMoved(x, y) = event {
            let p = Point::new(halve(*x), halve(*y));
            if self.rect.contains(&p) {
                if !self.active {
                    self.dirty = true;
                }
                self.active = true;
            } else {
                if self.active {
                    self.dirty = true;
                }
                self.active = false;
            }
        }
    }

    /// Appends a fill of the current color over the rectangle and marks it
    /// clean.
    pub fn paint(&mut self, builder: &mut DisplayList)
        ensures
            final(builder)@ == old(builder)@.push(DisplayItem::Rect {
                bounds: old(self).spec_rect(),
                clip: ClipRegion::Simple(old(self).spec_rect()),
                color: old(self).spec_color(),
            }),
            final(self).spec_rect() == old(self).spec_rect(),
            final(self).spec_color() == old(self).spec_color(),
            final(self).spec_active() == old(self).spec_active(),
            !final(self).spec_dirty(),
    {
        let color = self.color();
        builder.push(DisplayItem::Rect { bounds: self.rect, clip: ClipRegion::simple(&self.rect), color });
        self.dirty = false;
    }
}

impl Renderable for Rectangle {
    open spec fn well_formed(&self) -> bool {
        true
    }

    open spec fn dirty_flag(&self) -> bool {
        self.spec_dirty()
    }

    open spec fn paints(&self, before: Seq<DisplayItem>, after: Seq<DisplayItem>) -> bool {
        after == before.push(DisplayItem::Rect {
            bounds: self.spec_rect(),
            clip: ClipRegion::Simple(self.spec_rect()),
            color: self.spec_color(),
        })
    }

    closed spec fn painted(&self) -> Rectangle {
        Rectangle { dirty: false, ..*self }
    }

    open spec fn stepped(&self) -> Rectangle {
        *self
    }

    closed spec fn after_event(&self, event: WindowEvent) -> Rectangle {
        let active = hovered_after(self.rect, self.active, event);
        Rectangle {
            rect: self.rect,
            dirty: self.dirty || marks_dirty(self.rect, self.active, event),
            active,
        }
    }

    fn render(&mut self, builder: &mut DisplayList) {
        self.paint(builder);
    }

    /// A hook for changes over time; a rectangle does not change by itself.
    fn update(&mut self) {
    }

    fn is_dirty(&self) -> (r: bool) {
        self.dirty
    }

    fn handle_window_event(&mut self, event: &WindowEvent) {
        self.on_event(event);
    }
}

} // verus!
