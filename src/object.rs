use vstd::prelude::*;
use crate::geometry::Rect;
use crate::display_list::{BorderRadius, ClipRegion, DisplayItem, DisplayList};
use crate::event::WindowEvent;
use crate::renderable::Renderable;
use crate::style::{BuildInfo, Style, style_fits, style_item};

verus! {

/// A rectangle painted by an ordered list of styles, optionally with rounded
/// corners.
#[derive(Debug)]
pub struct Object {
    styles: Vec<Style>,
    rect: Rect,
    border_radius: Option<BorderRadius>,
    dirty: bool,
}

/// The region an object's items are clipped to: its rectangle, rounded by its
/// corner radii where it has them.
pub open spec fn clip_of(rect: Rect, border_radius: Option<BorderRadius>) -> ClipRegion {
    match border_radius {
        Some(r) => ClipRegion::Rounded(rect, r),
        None => ClipRegion::Simple(rect),
    }
}

/// Whether `after` is `before` followed by one command of each style, in
/// order, for an object described by `info`.
pub open spec fn styles_painted(
    styles: Seq<Style>,
    info: BuildInfo,
    before: Seq<DisplayItem>,
    after: Seq<DisplayItem>,
) -> bool {
    &&& after.len() == before.len() + styles.len()
    &&& after.subrange(0, before.len() as int) == before
    &&& forall|i: int| 0 <= i < styles.len() ==> style_item(#[trigger] styles[i], info, after[before.len() + i])
}

/// An object's items are clipped to its plain rectangle exactly when no border
/// radius is set, and otherwise to its rectangle rounded by that radius.
pub proof fn lemma_clip_follows_radius(o: Object)
    ensures
        (o.spec_build_info().clip == ClipRegion::Simple(o.spec_rect())) <==> o.spec_border_radius() is None,
        o.spec_border_radius() matches Some(r) ==> o.spec_build_info().clip == ClipRegion::Rounded(o.spec_rect(), r),
{
}

impl Object {
    /// The object's rectangle.
    pub closed spec fn spec_rect(&self) -> Rect {
        self.rect
    }

    /// The object's corner radii.
    pub closed spec fn spec_border_radius(&self) -> Option<BorderRadius> {
        self.border_radius
    }

    /// The object's styles, in paint order.
    pub closed spec fn spec_styles(&self) -> Seq<Style> {
        self.styles@
    }

    /// Whether the appearance changed since the object was last painted.
    pub closed spec fn spec_dirty(&self) -> bool {
        self.dirty
    }

    /// What the object's styles are told about it.
    pub open spec fn spec_build_info(&self) -> BuildInfo {
        BuildInfo {
            rect: self.spec_rect(),
            clip: clip_of(self.spec_rect(), self.spec_border_radius()),
            border_radius: self.spec_border_radius(),
        }
    }

    /// Every style can paint the object's rectangle.
    pub open spec fn wf(&self) -> bool {
        forall|i: int| 0 <= i < self.spec_styles().len() ==> style_fits(#[trigger] self.spec_styles()[i], self.spec_rect())
    }

    /// An object over `rect` with no styles and square corners; it has not
    /// been painted yet.
    pub fn new(rect: Rect) -> (o: Object)
        ensures
            o.spec_rect() == rect,
            o.spec_border_radius() == None::<BorderRadius>,
            o.spec_styles() == Seq::<Style>::empty(),
            o.spec_dirty(),
            o.wf(),
    {
        Object { styles: Vec::new(), rect, border_radius: None, dirty: true }
    }

    /// Rounds the corners by `radius`.
    pub fn set_border_radius(&mut self, radius: BorderRadius)
        ensures
            final(self).spec_border_radius() == Some(radius),
            final(self).spec_rect() == old(self).spec_rect(),
            final(self).spec_styles() == old(self).spec_styles(),
            final(self).spec_dirty() == (old(self).spec_dirty() || old(self).spec_border_radius() != Some(radius)),
    {
        let changed = match self.border_radius {
            Some(r) => r != radius,
            None => true,
        };
        self.border_radius = Some(radius);
        self.dirty = self.dirty || changed;
    }

    /// Makes the corners square again.
    pub fn remove_border_radius(&mut self)
        ensures
            final(self).spec_border_radius() == None::<BorderRadius>,
            final(self).spec_rect() == old(self).spec_rect(),
            final(self).spec_styles() == old(self).spec_styles(),
            final(self).spec_dirty() == (old(self).spec_dirty() || old(self).spec_border_radius() is Some),
    {
        let changed = self.border_radius.is_some();
        self.border_radius = None;
        self.dirty = self.dirty || changed;
    }

    /// The object's rectangle.
    pub fn rect(&self) -> (r: Rect)
        ensures
            r == self.spec_rect(),
    {
        self.rect
    }

    /// The object's corner radii, where it has any.
    pub fn border_radius(&self) -> (r: Option<BorderRadius>)
        ensures
            r == self.spec_border_radius(),
    {
        self.border_radius
    }

    /// The number of styles.
    pub fn style_count(&self) -> (n: usize)
        ensures
            n == self.spec_styles().len(),
    {
        self.styles.len()
    }

    /// Whether every style can paint the object's rectangle.
    pub fn can_build(&self) -> (r: bool)
        ensures
            r == self.wf(),
    {
        let mut i: usize = 0;
        while i < self.styles.len()
            invariant
                i <= self.styles@.len(),
                forall|k: int| 0 <= k < i ==> style_fits(#[trigger] self.styles@[k], self.rect),
            decreases self.styles@.len() - i,
        {
            if !self.styles[i].fits(&self.rect) {
                assert(!style_fits(self.spec_styles()[i as int], self.spec_rect()));
                return false;
            }
            i = i + 1;
        }
        assert(forall|k: int| 0 <= k < self.spec_styles().len() ==> self.spec_styles()[k] == self.styles@[k]);
        true
    }

    /// The region the object's items are clipped to: a rounded rectangle where
    /// a border radius is set, the plain rectangle otherwise.
    pub fn clip_region(&self) -> (c: ClipRegion)
        ensures
            c == clip_of(self.spec_rect(), self.spec_border_radius()),
            (c is Simple) <==> self.spec_border_radius() is None,
    {
        match self.border_radius {
            Some(r) => ClipRegion::Rounded(self.rect, r),
            None => ClipRegion::simple(&self.rect),
        }
    }

    /// Appends one command for each style, in the order the styles were added,
    /// all clipped to the object's clip region.
    pub fn build(&self, builder: &mut DisplayList)
        requires
            self.wf(),
        ensures
            styles_painted(self.spec_styles(), self.spec_build_info(), old(builder)@, final(builder)@),
    {
        let build_info = BuildInfo {
            rect: self.rect,
            clip: self.clip_region(),
            border_radius: self.border_radius,
        };
        let ghost start = builder@;
        let mut i: usize = 0;
        while i < self.styles.len()
            invariant
                self.wf(),
                build_info == self.spec_build_info(),
                i <= self.styles@.len(),
                builder@.len() == start.len() + i,
                builder@.subrange(0, start.len() as int) == start,
                forall|j: int| 0 <= j < i ==> style_item(#[trigger] self.styles@[j], build_info, builder@[start.len() + j]),
            decreases self.styles@.len() - i,
        {
            let ghost before = builder@;
            assert(style_fits(self.spec_styles()[i as int], self.spec_rect()));
            self.styles[i].build(builder, &build_info);
            assert forall|j: int| 0 <= j < i + 1 implies style_item(#[trigger] self.styles@[j], build_info, builder@[start.len() + j]) by {
                if j < i {
                    assert(builder@.drop_last()[start.len() + j] == before[start.len() + j]);
                }
            }
            assert(builder@.subrange(0, start.len() as int) =~= start) by {
                assert(builder@.drop_last() == before);
                assert forall|k: int| 0 <= k < start.len() implies builder@[k] == start[k] by {
                    assert(builder@.drop_last()[k] == builder@[k]);
                    assert(before.subrange(0, start.len() as int)[k] == before[k]);
                }
            }
            i = i + 1;
        }
    }

    /// Appends the object's commands, as `build` does, and marks it clean.
    pub fn paint(&mut self, builder: &mut DisplayList)
        requires
            old(self).wf(),
        ensures
            styles_painted(old(self).spec_styles(), old(self).spec_build_info(), old(builder)@, final(builder)@),
            final(self).spec_styles() == old(self).spec_styles(),
            final(self).spec_rect() == old(self).spec_rect(),
            final(self).spec_border_radius() == old(self).spec_border_radius(),
            !final(self).spec_dirty(),
            final(self).wf(),
    {
        self.render(builder);
    }

    /// Adds a style, painted after those already there.
    pub fn add_style(&mut self, style: Style)
        requires
            old(self).wf(),
            style_fits(style, old(self).spec_rect()),
        ensures
            final(self).spec_styles() == old(self).spec_styles().push(style),
            final(self).spec_rect() == old(self).spec_rect(),
            final(self).spec_border_radius() == old(self).spec_border_radius(),
            final(self).spec_dirty(),
            final(self).wf(),
    {
        self.styles.push(style);
        self.dirty = true;
        assert forall|i: int| 0 <= i < self.spec_styles().len() implies style_fits(#[trigger] self.spec_styles()[i], self.spec_rect()) by {
            if i < old(self).spec_styles().len() {
                assert(self.spec_styles()[i] == old(self).spec_styles()[i]);
            }
        }
    }
}

impl Renderable for Object {
    open spec fn well_formed(&self) -> bool {
        self.wf()
    }

    open spec fn dirty_flag(&self) -> bool {
        self.spec_dirty()
    }

    open spec fn paints(&self, before: Seq<DisplayItem>, after: Seq<DisplayItem>) -> bool {
        styles_painted(self.spec_styles(), self.spec_build_info(), before, after)
    }

    closed spec fn painted(&self) -> Object {
        Object { dirty: false, ..*self }
    }

    open spec fn stepped(&self) -> Object {
        *self
    }

    open spec fn after_event(&self, event: WindowEvent) -> Object {
        *self
    }

    fn render(&mut self, builder: &mut DisplayList) {
        self.build(builder);
        self.dirty = false;
    }

    fn update(&mut self) {
    }

    fn is_dirty(&self) -> (r: bool) {
        self.dirty
    }

    fn handle_window_event(&mut self, _event: &WindowEvent) {
    }
}

} // verus!
