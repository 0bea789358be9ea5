use uirender::display_list::{
    BorderRadius, BorderSide, BorderStyle, BoxShadowClipMode, ClipRegion, Color, DisplayItem,
    DisplayList, GradientStop,
};
use uirender::event::{Key, WindowEvent};
use uirender::geometry::{Point, Rect, Size};
use uirender::object::Object;
use uirender::primitives::{Rectangle, Renderable};
use uirender::style::{shadow_bounds, BuildInfo, Style};
use uirender::window::{PipelineId, Window};

fn rect(x: i64, y: i64, w: i64, h: i64) -> Rect {
    Rect::new(Point::new(x, y), Size::new(w, h))
}

fn grey_border() -> BorderSide {
    BorderSide { width: 1, color: Color::new(128, 128, 128, 255), style: BorderStyle::Solid }
}

#[test]
fn rectangle_hover_end_to_end() {
    let mut r = Rectangle::new(rect(0, 0, 100, 100));
    let mut list = DisplayList::new();
    r.render(&mut list);
    assert!(!r.is_dirty());
    r.handle_window_event(&WindowEvent::MouseMoved(40, 40));
    assert!(r.is_active());
    assert!(r.is_dirty());
    assert_eq!(r.color(), Color::green());
    r.render(&mut list);
    assert!(!r.is_dirty());
    assert_eq!(list.len(), 2);
    match &list.items()[1] {
        DisplayItem::Rect { bounds, clip, color } => {
            assert_eq!(*bounds, rect(0, 0, 100, 100));
            assert_eq!(*clip, ClipRegion::Simple(rect(0, 0, 100, 100)));
            assert_eq!(*color, Color::green());
        }
        other => panic!("unexpected item {:?}", other),
    }
}

#[test]
fn new_rectangle_is_red_inactive_and_dirty() {
    let r = Rectangle::new(rect(5, 5, 10, 10));
    assert!(r.is_dirty());
    assert!(!r.is_active());
    assert_eq!(r.color(), Color::new(255, 0, 0, 255));
}

#[test]
fn repeated_inside_moves_mark_dirty_once() {
    let mut r = Rectangle::new(rect(0, 0, 100, 100));
    let mut list = DisplayList::new();
    r.render(&mut list);
    r.handle_window_event(&WindowEvent::MouseMoved(40, 40));
    assert!(r.is_dirty());
    r.render(&mut list);
    r.handle_window_event(&WindowEvent::MouseMoved(60, 60));
    assert!(!r.is_dirty());
    r.handle_window_event(&WindowEvent::MouseMoved(198, 198));
    assert!(!r.is_dirty());
    assert!(r.is_active());
    assert_eq!(r.color(), Color::green());
}

#[test]
fn leaving_marks_dirty_and_turns_red() {
    let mut r = Rectangle::new(rect(0, 0, 100, 100));
    let mut list = DisplayList::new();
    r.handle_window_event(&WindowEvent::MouseMoved(40, 40));
    r.render(&mut list);
    r.handle_window_event(&WindowEvent::MouseMoved(200, 40));
    assert!(r.is_dirty());
    assert!(!r.is_active());
    assert_eq!(r.color(), Color::red());
    r.render(&mut list);
    r.handle_window_event(&WindowEvent::MouseMoved(300, 300));
    assert!(!r.is_dirty());
}

#[test]
fn pointer_coordinates_are_halved_toward_zero() {
    let mut r = Rectangle::new(rect(0, 0, 10, 10));
    r.handle_window_event(&WindowEvent::MouseMoved(-1, -1));
    assert!(r.is_active());
    let mut s = Rectangle::new(rect(0, 0, 10, 10));
    s.handle_window_event(&WindowEvent::MouseMoved(19, 19));
    assert!(s.is_active());
    s.handle_window_event(&WindowEvent::MouseMoved(20, 19));
    assert!(!s.is_active());
}

#[test]
fn render_clears_dirty_until_state_change() {
    let mut r = Rectangle::new(rect(0, 0, 50, 50));
    let mut list = DisplayList::new();
    r.render(&mut list);
    assert!(!r.is_dirty());
    r.update();
    r.handle_window_event(&WindowEvent::Resized(10, 10));
    r.handle_window_event(&WindowEvent::KeyboardInput(Some(Key::Other)));
    r.handle_window_event(&WindowEvent::MouseMoved(500, 500));
    assert!(!r.is_dirty());
    r.handle_window_event(&WindowEvent::MouseMoved(2, 2));
    assert!(r.is_dirty());
}

fn sample_object(i: i64) -> Object {
    let mut object = Object::new(rect(10 + i * 130, 10, 100, 25));
    object.add_style(Style::BackgroundColor(Color::new(242, 242, 242, 255)));
    let border = grey_border();
    object.add_style(Style::Border(border, border, border, border));
    object.add_style(Style::BoxShadow(Color::new(0, 0, 0, 51), Point::zero(), 5, 1, 0));
    object.set_border_radius(BorderRadius::uniform(0));
    object
}

#[test]
fn five_objects_build_fill_border_and_shadow() {
    for i in 0..5i64 {
        let object = sample_object(i);
        let r = rect(10 + i * 130, 10, 100, 25);
        let clip = ClipRegion::Rounded(r, BorderRadius::uniform(0));
        let mut list = DisplayList::new();
        object.build(&mut list);
        let items = list.items();
        assert_eq!(items.len(), 3);
        match &items[0] {
            DisplayItem::Rect { bounds, clip: c, color } => {
                assert_eq!(*bounds, r);
                assert_eq!(*c, clip);
                assert_eq!(*color, Color::new(242, 242, 242, 255));
            }
            other => panic!("unexpected item {:?}", other),
        }
        match &items[1] {
            DisplayItem::Border { bounds, clip: c, left, top, right, bottom, radius } => {
                assert_eq!(*bounds, r);
                assert_eq!(*c, clip);
                assert_eq!(*left, grey_border());
                assert_eq!(*top, grey_border());
                assert_eq!(*right, grey_border());
                assert_eq!(*bottom, grey_border());
                assert_eq!(*radius, BorderRadius::uniform(0));
            }
            other => panic!("unexpected item {:?}", other),
        }
        match &items[2] {
            DisplayItem::BoxShadow {
                bounds,
                clip: c,
                box_bounds,
                offset,
                color,
                blur_radius,
                spread_radius,
                border_radius,
                clip_mode,
            } => {
                let expected = rect(10 + i * 130 - 16, 10 - 16, 132, 57);
                assert_eq!(*bounds, expected);
                assert_eq!(*c, ClipRegion::Simple(expected));
                assert_eq!(*box_bounds, r);
                assert_eq!(*offset, Point::new(0, 0));
                assert_eq!(*color, Color::new(0, 0, 0, 51));
                assert_eq!(*blur_radius, 5);
                assert_eq!(*spread_radius, 1);
                assert_eq!(*border_radius, 0);
                assert_eq!(*clip_mode, BoxShadowClipMode::Outset);
            }
            other => panic!("unexpected item {:?}", other),
        }
    }
}

#[test]
fn clip_is_simple_without_radius_and_rounded_with_one() {
    let r = rect(1, 2, 30, 40);
    let mut object = Object::new(r);
    assert_eq!(object.clip_region(), ClipRegion::Simple(r));
    let radius = BorderRadius::uniform(4);
    object.set_border_radius(radius);
    assert_eq!(object.clip_region(), ClipRegion::Rounded(r, radius));
    object.remove_border_radius();
    assert_eq!(object.clip_region(), ClipRegion::Simple(r));
    assert_eq!(object.border_radius(), None);
}

#[test]
fn shadow_bounds_inflate_by_spread_plus_three_blurs() {
    assert_eq!(shadow_bounds(&rect(10, 20, 100, 50), 2, 3), rect(1, 11, 118, 68));
    assert_eq!(shadow_bounds(&rect(0, 0, 10, 10), 0, 0), rect(0, 0, 10, 10));
}

#[test]
fn shadow_is_translated_by_offset() {
    let info = BuildInfo { rect: rect(100, 100, 20, 20), clip: ClipRegion::Simple(rect(100, 100, 20, 20)), border_radius: None };
    let mut list = DisplayList::new();
    let style = Style::BoxShadow(Color::new(0, 0, 0, 255), Point::new(5, -7), 1, 2, 3);
    assert!(style.fits(&info.rect));
    style.build(&mut list, &info);
    match &list.items()[0] {
        DisplayItem::BoxShadow { bounds, clip, box_bounds, offset, .. } => {
            assert_eq!(*bounds, rect(100, 88, 30, 30));
            assert_eq!(*clip, ClipRegion::Simple(rect(100, 88, 30, 30)));
            assert_eq!(*box_bounds, rect(100, 100, 20, 20));
            assert_eq!(*offset, Point::new(5, -7));
        }
        other => panic!("unexpected item {:?}", other),
    }
}

#[test]
fn shadow_that_leaves_the_coordinate_range_does_not_fit() {
    let style = Style::BoxShadow(Color::new(0, 0, 0, 255), Point::new(0, 0), i64::MAX, 0, 0);
    assert!(!style.fits(&rect(0, 0, 1, 1)));
    assert!(Style::BackgroundColor(Color::white()).fits(&rect(0, 0, 1, 1)));
}

#[test]
fn border_without_radius_uses_square_corners() {
    let r = rect(0, 0, 8, 8);
    let info = BuildInfo { rect: r, clip: ClipRegion::Simple(r), border_radius: None };
    let mut list = DisplayList::new();
    let side = grey_border();
    Style::Border(side, side, side, side).build(&mut list, &info);
    match &list.items()[0] {
        DisplayItem::Border { radius, .. } => assert_eq!(*radius, BorderRadius::zero()),
        other => panic!("unexpected item {:?}", other),
    }
}

#[test]
fn gradient_keeps_its_stops_in_order() {
    let r = rect(0, 0, 8, 8);
    let info = BuildInfo { rect: r, clip: ClipRegion::Simple(r), border_radius: None };
    let stops = vec![
        GradientStop { offset: 0, color: Color::red() },
        GradientStop { offset: 500, color: Color::white() },
        GradientStop { offset: 1000, color: Color::green() },
    ];
    let mut list = DisplayList::new();
    Style::Gradient(Point::new(0, 0), Point::new(8, 0), stops.clone()).build(&mut list, &info);
    match &list.items()[0] {
        DisplayItem::Gradient { bounds, clip, start, end, stops: s } => {
            assert_eq!(*bounds, r);
            assert_eq!(*clip, ClipRegion::Simple(r));
            assert_eq!(*start, Point::new(0, 0));
            assert_eq!(*end, Point::new(8, 0));
            assert_eq!(*s, stops);
        }
        other => panic!("unexpected item {:?}", other),
    }
}

#[test]
fn object_dirty_tracking() {
    let mut object = Object::new(rect(0, 0, 4, 4));
    assert!(object.is_dirty());
    let mut list = DisplayList::new();
    object.paint(&mut list);
    assert!(!object.is_dirty());
    assert_eq!(list.len(), 0);
    object.remove_border_radius();
    assert!(!object.is_dirty());
    object.set_border_radius(BorderRadius::uniform(2));
    assert!(object.is_dirty());
    object.render(&mut list);
    object.set_border_radius(BorderRadius::uniform(2));
    assert!(!object.is_dirty());
    object.add_style(Style::BackgroundColor(Color::white()));
    assert!(object.is_dirty());
    assert_eq!(object.style_count(), 1);
}

#[test]
fn rebuild_only_when_something_is_dirty() {
    let mut window = Window::new(800, 600);
    assert!(window.construct_display_list().is_none());
    window.add_rectangle(Rectangle::new(rect(0, 0, 100, 100)));
    assert!(window.needs_rebuild());
    let frame = window.construct_display_list().expect("a dirty rectangle asks for a frame");
    assert_eq!(frame.epoch, 0);
    assert_eq!((frame.width, frame.height), (800, 600));
    assert_eq!(frame.background, Color::white());
    assert_eq!(frame.pipeline_id, PipelineId(0, 0));
    assert_eq!(window.epoch(), 1);
    assert!(!window.needs_rebuild());
    assert!(window.construct_display_list().is_none());
    assert_eq!(window.epoch(), 1);
    assert!(!window.handle_event(&WindowEvent::MouseMoved(40, 40)));
    let frame = window.construct_display_list().expect("hover asks for a frame");
    assert_eq!(frame.epoch, 1);
    assert_eq!(window.epoch(), 2);
}

#[test]
fn frame_wraps_objects_then_rectangles_in_one_group() {
    let mut window = Window::new(640, 480);
    for i in 0..5i64 {
        window.add_object(sample_object(i));
    }
    window.add_rectangle(Rectangle::new(rect(0, 0, 10, 10)));
    let frame = window.construct_display_list().expect("new items ask for a frame");
    let items = frame.display_list.items();
    assert_eq!(items.len(), 1 + 15 + 1 + 1);
    match &items[0] {
        DisplayItem::PushStackingContext { bounds, clip } => {
            assert_eq!(*bounds, rect(0, 0, 640, 480));
            assert_eq!(*clip, ClipRegion::Simple(rect(0, 0, 640, 480)));
        }
        other => panic!("unexpected item {:?}", other),
    }
    assert!(matches!(items[1], DisplayItem::Rect { .. }));
    assert!(matches!(items[2], DisplayItem::Border { .. }));
    assert!(matches!(items[3], DisplayItem::BoxShadow { .. }));
    match &items[16] {
        DisplayItem::Rect { bounds, color, .. } => {
            assert_eq!(*bounds, rect(0, 0, 10, 10));
            assert_eq!(*color, Color::red());
        }
        other => panic!("unexpected item {:?}", other),
    }
    assert!(matches!(items[17], DisplayItem::PopStackingContext));
}

#[test]
fn close_and_escape_end_the_loop() {
    let mut window = Window::new(10, 10);
    assert!(window.handle_event(&WindowEvent::Closed));
    assert!(window.handle_event(&WindowEvent::KeyboardInput(Some(Key::Escape))));
    assert!(!window.handle_event(&WindowEvent::KeyboardInput(Some(Key::Other))));
    assert!(!window.handle_event(&WindowEvent::KeyboardInput(None)));
    assert!(!window.handle_event(&WindowEvent::Other));
}

#[test]
fn events_after_quit_are_not_handled() {
    let mut window = Window::new(10, 10);
    let events = vec![
        WindowEvent::Resized(300, 200),
        WindowEvent::Closed,
        WindowEvent::Resized(1, 1),
    ];
    assert!(window.handle_events(&events));
    assert_eq!(window.size(), (300, 200));
    let mut other = Window::new(10, 10);
    assert!(!other.handle_events(&vec![WindowEvent::Resized(7, 8), WindowEvent::Other]));
    assert_eq!(other.size(), (7, 8));
}

#[test]
fn geometry_helpers() {
    let r = rect(0, 0, 100, 100);
    assert!(r.contains(&Point::new(0, 0)));
    assert!(r.contains(&Point::new(99, 99)));
    assert!(!r.contains(&Point::new(100, 50)));
    assert!(!r.contains(&Point::new(-1, 50)));
    assert_eq!(r.translate(&Point::new(3, -4)), rect(3, -4, 100, 100));
    assert_eq!(r.inflate(2), rect(-2, -2, 104, 104));
    assert!(WindowEvent::Closed.is_quit());
}
