use vstd::prelude::*;
use crate::display_list::{DisplayItem, DisplayList};
use crate::event::WindowEvent;

verus! {

/// Something that paints itself into a display list, changes over time or in
/// answer to input, and says whether its appearance changed since it was last
/// painted.
pub trait Renderable: Sized {
    /// Whether the value is consistent.
    spec fn well_formed(&self) -> bool;

    /// Whether the appearance changed since the last paint.
    spec fn dirty_flag(&self) -> bool;

    /// Whether painting `self` onto a list holding `before` gives `after`.
    spec fn paints(&self, before: Seq<DisplayItem>, after: Seq<DisplayItem>) -> bool;

    /// The value after painting: as before, but clean.
    spec fn painted(&self) -> Self;

    /// The value after one step of time.
    spec fn stepped(&self) -> Self;

    /// The value after `event`.
    spec fn after_event(&self, event: WindowEvent) -> Self;

    /// Appends this item's drawing commands to `builder` and marks it clean.
    fn render(&mut self, builder: &mut DisplayList)
        requires
            old(self).well_formed(),
        ensures
            old(self).paints(old(builder)@, final(builder)@),
            *final(self) == old(self).painted(),
            final(self).well_formed(),
            !final(self).dirty_flag(),
    ;

    /// Advances the item by one step of time.
    fn update(&mut self)
        requires
            old(self).well_formed(),
        ensures
            *final(self) == old(self).stepped(),
            final(self).well_formed(),
    ;

    /// Whether the appearance changed since the last paint.
    fn is_dirty(&self) -> (r: bool)
        ensures
            r == self.dirty_flag(),
    ;

    /// Reacts to an input event.
    fn handle_window_event(&mut self, event: &WindowEvent)
        requires
            old(self).well_formed(),
        ensures
            *final(self) == old(self).after_event(*event),
            final(self).well_formed(),
    ;
}

} // verus!
