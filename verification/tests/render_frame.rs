use ail::event::{EventResponse, InputEvent};
use ail::management::{RegistryError, WidgetRegistry};
use ail::object::ID;
use ail::render::Command;
use ail::widget::{Button, WidgetBox, WidgetState};
use ail::Color;

#[derive(Clone, Copy, Debug, PartialEq)]
enum Msg {
    Hovered,
}

fn button(id: &'static str, label: &str) -> WidgetBox<Msg> {
    let mut b: Button<Msg> = Button::new(id);
    b.set_text(label);
    WidgetBox::Button(b)
}

fn written_text(cmd: &Command) -> &str {
    match cmd {
        Command::WriteString(_, _, _, _, _, text) => text.as_str(),
        Command::FillRectangle(..) => panic!("expected a label command"),
    }
}

#[test]
fn an_unfocused_button_draws_shadow_background_and_label() {
    let b: Button<Msg> = Button::new("a");
    let cmds = b.draw();
    assert_eq!(cmds.len(), 3);
    // Shadow rectangle, then the background inset by one pixel per edge,
    // then the label, in the light theme's normal colors.
    assert_eq!(
        cmds[0],
        Command::FillRectangle(10, 10, 240, 40, 42, Color::ARGB(255, 128, 128, 128))
    );
    assert_eq!(
        cmds[1],
        Command::FillRectangle(11, 11, 238, 38, 42, Color::White)
    );
    assert_eq!(
        cmds[2],
        Command::WriteString(10, 10, 240, 40, Color::Black, String::from("Button"))
    );
}

#[test]
fn a_hovered_button_draws_in_the_hover_colors() {
    let mut b: Button<Msg> = Button::new("a");
    b.handle_hover();
    let cmds = b.draw();
    assert_eq!(
        cmds[0],
        Command::FillRectangle(10, 10, 240, 40, 42, Color::ARGB(255, 0, 170, 204))
    );
}

#[test]
fn frame_commands_keep_widget_order_and_emission_order() {
    let mut reg: WidgetRegistry<Msg> = WidgetRegistry::new();
    reg.register(button("a", "A"));
    reg.register(button("b", "B"));
    let ids = vec![ID::from("a"), ID::from("b")];
    let cmds = reg.render_commands(&ids).expect("all identities present");
    assert_eq!(cmds.len(), 6);
    assert!(matches!(cmds[0], Command::FillRectangle(..)));
    assert!(matches!(cmds[1], Command::FillRectangle(..)));
    assert_eq!(written_text(&cmds[2]), "A");
    assert!(matches!(cmds[3], Command::FillRectangle(..)));
    assert!(matches!(cmds[4], Command::FillRectangle(..)));
    assert_eq!(written_text(&cmds[5]), "B");
}

#[test]
fn a_frame_naming_an_absent_identity_is_refused() {
    let mut reg: WidgetRegistry<Msg> = WidgetRegistry::new();
    reg.register(button("a", "A"));
    let ids = vec![ID::from("a"), ID::from("ghost")];
    assert_eq!(reg.render_commands(&ids).err(), Some(RegistryError::NotFound));
    let empty: Vec<ID> = vec![];
    assert_eq!(reg.render_commands(&empty).expect("empty frame").len(), 0);
}

#[test]
fn hover_message_handler_changes_what_the_next_frame_shows() {
    // End to end: a button is hovered, its message reaches the handler,
    // the handler renames the button, and the next frame draws the new
    // label.
    let mut reg: WidgetRegistry<Msg> = WidgetRegistry::new();
    let mut b: Button<Msg> = Button::new("button");
    b.on_hover(Msg::Hovered);
    reg.register(WidgetBox::Button(b));
    let id = ID::from("button");

    match reg.handle(InputEvent::CursorMoved(15, 15)) {
        EventResponse::Dispatched(events) => {
            assert_eq!(events.len(), 1);
            assert_eq!(events[0].0, id);
            assert_eq!(events[0].1, Msg::Hovered);
            for (event_id, message) in events {
                assert_eq!(message, Msg::Hovered);
                let target = reg.get_button_mut(&event_id).expect("present");
                target.set_text("Hovered");
            }
        }
        _ => panic!("a cursor move must dispatch"),
    }

    let stored = reg.get_button(&id).expect("present");
    assert!(matches!(stored.state(), WidgetState::Hover));
    assert_eq!(stored.text(), "Hovered");

    let cmds = reg.render_commands(&vec![id]).expect("present");
    assert_eq!(cmds.len(), 3);
    assert_eq!(written_text(&cmds[2]), "Hovered");
}
