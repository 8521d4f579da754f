use ail::management::{RegistryError, WidgetRegistry};
use ail::object::ID;
use ail::widget::{Button, PanelBuilder, WidgetBox};

#[derive(Clone, Copy, Debug, PartialEq)]
enum Msg {
    Ping,
}

fn button(id: &'static str, label: &str) -> WidgetBox<Msg> {
    let mut b: Button<Msg> = Button::new(id);
    b.set_text(label);
    WidgetBox::Button(b)
}

#[test]
fn registered_widget_is_found_under_its_identity() {
    let mut reg: WidgetRegistry<Msg> = WidgetRegistry::new();
    assert_eq!(reg.len(), 0);
    reg.register(button("a", "A"));
    assert_eq!(reg.len(), 1);
    let id = ID::from("a");
    let found = reg.lookup(&id).expect("widget must be present");
    assert_eq!(found.id(), id);
}

#[test]
fn absent_identity_is_reported_not_found() {
    let mut reg: WidgetRegistry<Msg> = WidgetRegistry::new();
    reg.register(button("a", "A"));
    let ghost = ID::from("ghost");
    assert!(reg.lookup(&ghost).is_none());
    assert_eq!(reg.get_button(&ghost).err(), Some(RegistryError::NotFound));
    assert_eq!(reg.get_panel(&ghost).err(), Some(RegistryError::NotFound));
}

#[test]
fn registering_twice_under_one_identity_keeps_only_the_second() {
    let mut reg: WidgetRegistry<Msg> = WidgetRegistry::new();
    reg.register(button("a", "first"));
    reg.register(button("a", "second"));
    assert_eq!(reg.len(), 1);
    let id = ID::from("a");
    let b = reg.get_button(&id).expect("a button is stored");
    assert_eq!(b.text(), "second");
}

#[test]
fn replacement_keeps_the_registration_position() {
    let mut reg: WidgetRegistry<Msg> = WidgetRegistry::new();
    reg.register(button("a", "A"));
    reg.register(button("b", "B"));
    reg.register(button("a", "A2"));
    assert_eq!(reg.len(), 2);
    let a = ID::from("a");
    let b = ID::from("b");
    assert_eq!(reg.get_button(&a).expect("present").text(), "A2");
    assert_eq!(reg.get_button(&b).expect("present").text(), "B");
}

#[test]
fn typed_lookup_against_the_wrong_kind_is_a_type_mismatch() {
    let mut reg: WidgetRegistry<Msg> = WidgetRegistry::new();
    let builder: PanelBuilder<Msg> = PanelBuilder::new();
    let panel = builder.build(&mut reg);
    reg.register(WidgetBox::Panel(panel));
    let panel_id = ID::from("panel");
    assert!(reg.get_panel(&panel_id).is_ok());
    assert_eq!(
        reg.get_button(&panel_id).err(),
        Some(RegistryError::TypeMismatch)
    );

    reg.register(button("a", "A"));
    let a = ID::from("a");
    assert!(reg.get_button(&a).is_ok());
    assert_eq!(reg.get_panel(&a).err(), Some(RegistryError::TypeMismatch));
}

#[test]
fn exclusive_lookup_lets_the_caller_mutate_the_stored_widget() {
    let mut reg: WidgetRegistry<Msg> = WidgetRegistry::new();
    reg.register(button("a", "A"));
    let id = ID::from("a");
    {
        let b = reg.get_button_mut(&id).expect("present");
        b.set_text("changed");
    }
    assert_eq!(reg.get_button(&id).expect("present").text(), "changed");
    let w = reg.search_mut(id);
    assert_eq!(w.id(), ID::from("a"));
}

#[test]
fn panel_builder_registers_its_widgets_in_order() {
    let mut reg: WidgetRegistry<Msg> = WidgetRegistry::new();
    let mut builder: PanelBuilder<Msg> = PanelBuilder::new();
    builder.push(button("a", "A"));
    builder.push(button("b", "B"));
    let panel = builder.build(&mut reg);
    assert_eq!(reg.len(), 2);
    assert!(reg.get_button(&ID::from("a")).is_ok());
    assert!(reg.get_button(&ID::from("b")).is_ok());
    let ids = panel.widget_ids();
    assert_eq!(ids.len(), 2);
    assert_eq!(ids[0], ID::from("a"));
    assert_eq!(ids[1], ID::from("b"));
}
