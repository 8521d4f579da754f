//! A push button: a fixed-region widget with a text label, a theme
//! snapshot, and an optional message bound to its hover trigger.

use vstd::prelude::*;

verus! {

use crate::Rect;
use crate::Theme;
use crate::object::ID;
use crate::object::Object;
use crate::render::Command;
use crate::render::CommandView;
use crate::render::command_views;
use crate::widget::Drawable;
use crate::widget::EventListener;
use crate::widget::Layout;
use crate::widget::Widget;
use crate::widget::WidgetState;

/// The mathematical model of a [`Button`].
pub struct ButtonView<M> {
    pub id: Seq<char>,
    pub text: Seq<char>,
    pub theme: Theme,
    pub state: WidgetState,
    pub on_click: Option<M>,
    pub on_hover: Option<M>,
}

impl<M> ButtonView<M> {
    /// A button's single hit-test region: the fixed box from `(10, 10)`
    /// extending 240 by 40 pixels.
    pub open spec fn areas(self) -> Seq<Rect> {
        seq![Rect { left: 10, top: 10, right: 250, bottom: 50 }]
    }

    /// The button after its hover trigger fired: only the state moves, to
    /// `Hover`.
    pub open spec fn after_hover(self) -> Self {
        ButtonView { state: WidgetState::Hover, ..self }
    }

    /// The button after its unfocus trigger fired: only the state moves,
    /// to `Unfocus`.
    pub open spec fn after_unfocus(self) -> Self {
        ButtonView { state: WidgetState::Unfocus, ..self }
    }

    /// The color triple the button draws with in its current state.
    pub open spec fn active_pair(self) -> crate::ColorPair {
        match self.state {
            WidgetState::Hover => self.theme.hover,
            WidgetState::Click => self.theme.click,
            WidgetState::Unfocus => self.theme.normal,
        }
    }

    /// The button's draw commands: a shadow rectangle, the background
    /// rectangle inset by one pixel per edge, then the label, all in the
    /// current state's colors.
    pub open spec fn commands(self) -> Seq<CommandView> {
        seq![
            CommandView::FillRectangle(10, 10, 240, 40, 42, self.active_pair().shadow),
            CommandView::FillRectangle(11, 11, 238, 38, 42, self.active_pair().bgr),
            CommandView::WriteString(10, 10, 240, 40, self.active_pair().color, self.text),
        ]
    }
}

/// A push button.
///
/// Its hover trigger moves the state to `Hover` and yields the bound hover
/// message on every event that hits the button, each time it fires; its
/// unfocus trigger resets the state to `Unfocus` and yields nothing.
#[derive(Debug)]
pub struct Button<M: Copy> {
    id: ID,
    text: String,
    theme: Theme,
    state: WidgetState,
    on_click: Option<M>,
    on_hover: Option<M>,
}

impl<M: Copy> View for Button<M> {
    type V = ButtonView<M>;

    closed spec fn view(&self) -> ButtonView<M> {
        ButtonView {
            id: self.id@,
            text: self.text@,
            theme: self.theme,
            state: self.state,
            on_click: self.on_click,
            on_hover: self.on_hover,
        }
    }
}

impl<M: Copy> Button<M> {
    /// Builds an unfocused button named `id`, labelled `"Button"`, with the
    /// light theme and no messages bound.
    pub fn new(id: &'static str) -> (r: Self)
        ensures
            r@ == (ButtonView::<M> {
                id: id@,
                text: "Button"@,
                theme: Theme::spec_light(),
                state: WidgetState::Unfocus,
                on_click: None,
                on_hover: None,
            }),
    {
        Self {
            id: ID::new(id),
            text: "Button".to_owned(),
            theme: Theme::light(),
            state: WidgetState::Unfocus,
            on_click: None,
            on_hover: None,
        }
    }

    /// The button's current label.
    pub fn text(&self) -> (r: &str)
        ensures
            r@ == self@.text,
    {
        self.text.as_str()
    }

    /// The button's current interaction state.
    pub fn state(&self) -> (r: WidgetState)
        ensures
            r == self@.state,
    {
        self.state
    }

    /// Binds `mes` to the button's hover trigger.
    pub fn on_hover(&mut self, mes: M)
        ensures
            final(self)@ == (ButtonView { on_hover: Some(mes), ..old(self)@ }),
    {
        self.on_hover = Some(mes);
    }

    /// Replaces the button's label.
    pub fn set_text(&mut self, text: &str)
        ensures
            final(self)@ == (ButtonView { text: text@, ..old(self)@ }),
    {
        self.text = text.to_owned();
    }

    /// Replaces the button's theme snapshot.
    pub fn set_theme(&mut self, theme: Theme)
        ensures
            final(self)@ == (ButtonView { theme, ..old(self)@ }),
    {
        self.theme = theme;
    }

    /// Fires the hover trigger: the state moves to `Hover` and the bound
    /// hover message, if any, is yielded.
    pub fn handle_hover(&mut self) -> (m: Option<M>)
        ensures
            final(self)@ == old(self)@.after_hover(),
            m == old(self)@.on_hover,
    {
        self.state = WidgetState::Hover;
        self.on_hover
    }

    /// Fires the unfocus trigger: the state resets to `Unfocus`.
    pub fn handle_unfocus(&mut self)
        ensures
            final(self)@ == old(self)@.after_unfocus(),
    {
        self.state = WidgetState::Unfocus;
    }

    /// Returns the button's current draw commands, in order: shadow
    /// rectangle, inset background rectangle, label.
    pub fn draw(&self) -> (cmds: Vec<Command>)
        ensures
            command_views(cmds@) == self@.commands(),
    {
        let (bgr, color, shadow) = match self.state {
            WidgetState::Hover => (self.theme.hover.bgr, self.theme.hover.color, self.theme.hover.shadow),
            WidgetState::Click => (self.theme.click.bgr, self.theme.click.color, self.theme.click.shadow),
            WidgetState::Unfocus => (
                self.theme.normal.bgr,
                self.theme.normal.color,
                self.theme.normal.shadow,
            ),
        };
        let mut cmds: Vec<Command> = Vec::new();
        cmds.push(Command::FillRectangle(10, 10, 240, 40, 42, shadow));
        cmds.push(Command::FillRectangle(10 + 1, 10 + 1, 240 - 2, 40 - 2, 42, bgr));
        cmds.push(Command::WriteString(10, 10, 240, 40, color, self.text.clone()));
        proof {
            assert(command_views(cmds@) =~= self@.commands());
        }
        cmds
    }
}

impl<M: Copy> Widget<M> for Button<M> {

}

impl<M: Copy> Layout for Button<M> {
    open spec fn spec_areas(&self) -> Seq<Rect> {
        self@.areas()
    }

    fn area(&self) -> (r: Vec<Rect>) {
        let mut r: Vec<Rect> = Vec::new();
        r.push(Rect::from_coordinate(10, 10, 240, 40));
        proof {
            assert(r@ =~= self.spec_areas());
        }
        r
    }
}

impl<M: Copy> Drawable for Button<M> {
    fn theme(&mut self, theme: Theme) {
        self.set_theme(theme);
    }

    fn render(&mut self) -> Vec<Command> {
        self.draw()
    }
}

impl<M: Copy> EventListener<M> for Button<M> {
    fn on_click(&mut self) -> Option<M> {
        self.on_click
    }

    fn on_hover(&mut self) -> Option<M> {
        self.handle_hover()
    }

    fn unfocus(&mut self) {
        self.handle_unfocus();
    }

    fn on_update(&mut self) -> Option<M> {
        None
    }
}

impl<M: Copy> Object for Button<M> {
    open spec fn spec_id(&self) -> Seq<char> {
        self@.id
    }

    fn id(&self) -> (r: ID) {
        self.id
    }
}

} // verus!
