use ail::event::{EventKind, EventRequest, EventResponse, InputEvent};
use ail::management::WidgetRegistry;
use ail::object::{Object, ID};
use ail::widget::{Button, WidgetBox, WidgetState};
use ail::{ApplicationEvent, Rect, WidgetEvent};

#[derive(Clone, Copy, Debug, PartialEq)]
enum Msg {
    Entered,
}

fn hover_button(id: &'static str) -> WidgetBox<Msg> {
    let mut b: Button<Msg> = Button::new(id);
    b.on_hover(Msg::Entered);
    WidgetBox::Button(b)
}

fn state_of(reg: &WidgetRegistry<Msg>, id: &ID) -> WidgetState {
    reg.get_button(id).expect("button present").state()
}

#[test]
fn hit_test_bounds_are_inclusive_on_all_four_edges() {
    let r = Rect::from_coordinate(10, 10, 240, 40);
    assert!(r.contains_point(10, 10));
    assert!(r.contains_point(250, 50));
    assert!(!r.contains_point(251, 10));
    assert!(!r.contains_point(9, 10));
    assert!(!r.contains_point(10, 51));
}

#[test]
fn cursor_inside_the_region_hovers_the_widget_and_emits_its_message() {
    let mut reg: WidgetRegistry<Msg> = WidgetRegistry::new();
    reg.register(hover_button("a"));
    let id = ID::from("a");
    let events = reg.handle_cursor_moved(15, 15);
    assert_eq!(events.len(), 1);
    assert_eq!(events[0].0, id);
    assert_eq!(events[0].1, Msg::Entered);
    assert!(matches!(state_of(&reg, &id), WidgetState::Hover));
}

#[test]
fn corner_positions_count_as_inside_during_dispatch() {
    let mut reg: WidgetRegistry<Msg> = WidgetRegistry::new();
    reg.register(hover_button("a"));
    let id = ID::from("a");
    reg.handle_cursor_moved(10, 10);
    assert!(matches!(state_of(&reg, &id), WidgetState::Hover));
    reg.handle_cursor_moved(250, 50);
    assert!(matches!(state_of(&reg, &id), WidgetState::Hover));
    reg.handle_cursor_moved(251, 10);
    assert!(matches!(state_of(&reg, &id), WidgetState::Unfocus));
}

#[test]
fn repeated_sweeps_inside_the_region_keep_hover_and_reemit_the_message() {
    // The implemented policy: a hit widget emits its bound hover message on
    // every sweep, not only on entry.
    let mut reg: WidgetRegistry<Msg> = WidgetRegistry::new();
    reg.register(hover_button("a"));
    let id = ID::from("a");
    let first = reg.handle_cursor_moved(15, 15);
    let second = reg.handle_cursor_moved(16, 16);
    assert_eq!(first.len(), 1);
    assert_eq!(second.len(), 1);
    assert_eq!(second[0].0, id);
    assert_eq!(second[0].1, Msg::Entered);
    assert!(matches!(state_of(&reg, &id), WidgetState::Hover));
}

#[test]
fn leaving_the_region_unfocuses_on_the_very_next_sweep() {
    let mut reg: WidgetRegistry<Msg> = WidgetRegistry::new();
    reg.register(hover_button("a"));
    let id = ID::from("a");
    reg.handle_cursor_moved(15, 15);
    assert!(matches!(state_of(&reg, &id), WidgetState::Hover));
    let events = reg.handle_cursor_moved(500, 500);
    assert!(events.is_empty());
    assert!(matches!(state_of(&reg, &id), WidgetState::Unfocus));
}

#[test]
fn a_widget_without_a_bound_message_emits_nothing_when_hit() {
    let mut reg: WidgetRegistry<Msg> = WidgetRegistry::new();
    let b: Button<Msg> = Button::new("plain");
    reg.register(WidgetBox::Button(b));
    let id = ID::from("plain");
    let events = reg.handle_cursor_moved(15, 15);
    assert!(events.is_empty());
    assert!(matches!(state_of(&reg, &id), WidgetState::Hover));
}

#[test]
fn sweeping_an_empty_registry_collects_nothing() {
    let mut reg: WidgetRegistry<Msg> = WidgetRegistry::new();
    let events = reg.handle_cursor_moved(15, 15);
    assert!(events.is_empty());
}

#[test]
fn handle_maps_each_primitive_event_to_its_action() {
    let mut reg: WidgetRegistry<Msg> = WidgetRegistry::new();
    reg.register(hover_button("a"));
    match reg.handle(InputEvent::CursorMoved(15, 15)) {
        EventResponse::Dispatched(events) => {
            assert_eq!(events.len(), 1);
            assert_eq!(events[0].0, ID::from("a"));
        }
        _ => panic!("a cursor move must dispatch"),
    }
    assert!(matches!(
        reg.handle(InputEvent::Resized(640, 480)),
        EventResponse::Resize(640, 480)
    ));
    assert!(matches!(
        reg.handle(InputEvent::RedrawRequested),
        EventResponse::Render
    ));
    assert!(matches!(
        reg.handle(InputEvent::CloseRequested),
        EventResponse::Exit
    ));
}

#[test]
fn event_request_remembers_the_widget_and_the_kind() {
    let b: Button<Msg> = Button::new("a");
    let request = EventRequest::new(
        &b,
        EventKind::Application(ApplicationEvent::OnEvent(WidgetEvent::OnHover, b.id())),
    );
    assert_eq!(request.id(), ID::from("a"));
    match request.kind() {
        EventKind::Application(ApplicationEvent::OnEvent(WidgetEvent::OnHover, id)) => {
            assert_eq!(id, ID::from("a"));
        }
        _ => panic!("the kind must round-trip"),
    }
}

#[test]
fn overlapping_widgets_are_evaluated_in_registration_order() {
    let mut reg: WidgetRegistry<Msg> = WidgetRegistry::new();
    reg.register(hover_button("first"));
    reg.register(hover_button("second"));
    let events = reg.handle_cursor_moved(15, 15);
    assert_eq!(events.len(), 2);
    assert_eq!(events[0].0, ID::from("first"));
    assert_eq!(events[1].0, ID::from("second"));
}

#[test]
fn a_stored_widget_reports_its_region_and_hit_test() {
    let w = hover_button("a");
    let areas = w.area();
    assert_eq!(areas.len(), 1);
    assert_eq!(areas[0].x(), 10);
    assert_eq!(areas[0].y(), 10);
    assert_eq!(areas[0].width(), 240);
    assert_eq!(areas[0].height(), 40);
    assert!(w.hit_test(10, 10));
    assert!(w.hit_test(250, 50));
    assert!(!w.hit_test(251, 50));
    assert_eq!(w.id(), ID::from("a"));
}
