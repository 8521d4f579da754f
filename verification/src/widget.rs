//! The capability traits every widget satisfies, the interaction state
//! machine, and the uniform handle the registry stores widgets behind.
//!
//! A widget is polymorphic over four capabilities: identity, layout,
//! drawing and event response. The registry stores widgets behind
//! [`WidgetBox`], a tagged union over the closed set of widget kinds, so a
//! caller can recover the concrete type by a checked match instead of an
//! unchecked cast.

use vstd::prelude::*;

pub mod button;
pub mod panel;

pub use button::Button;
pub use button::ButtonView;
pub use panel::Panel;
pub use panel::PanelBuilder;
pub use panel::PanelView;

verus! {

use crate::Rect;
use crate::Theme;
use crate::object::ID;
use crate::object::Object;
use crate::render::Command;
use crate::render::CommandView;
use crate::render::command_views;

/// The interaction state of a widget.
///
/// Transitions are driven only by the event dispatch sweep: a cursor inside
/// a widget's region moves it to `Hover`, a cursor outside resets it to
/// `Unfocus`. `Click` is reachable in the model but no primitive event is
/// wired to it.
#[derive(Clone, Copy, Debug, PartialEq, Eq, Structural)]
pub enum WidgetState {
    Hover,
    Click,
    Unfocus,
}

/// The event-response capability: how a widget reacts to each trigger,
/// optionally yielding an application message. Every reaction defaults to a
/// no-op that yields nothing.
pub trait EventListener<M: Copy> {
    fn on_click(&mut self) -> Option<M> {
        None
    }

    fn on_hover(&mut self) -> Option<M> {
        None
    }

    fn unfocus(&mut self) {
    }

    fn on_update(&mut self) -> Option<M> {
        None
    }
}

/// The drawing capability: a widget may accept a theme and emits its
/// current command sequence. Both default to no-ops.
pub trait Drawable {
    fn theme(&mut self, theme: Theme) {
    }

    fn render(&mut self) -> Vec<Command> {
        Vec::new()
    }
}

/// The layout capability: the current set of hit-test and paint regions.
/// Required — a widget with no regions is neither interactive nor visible.
pub trait Layout {
    /// The regions, as the mathematical model of this widget's extent.
    spec fn spec_areas(&self) -> Seq<Rect>;

    /// Returns the widget's current regions, each a well-formed rectangle.
    fn area(&self) -> (r: Vec<Rect>)
        ensures
            r@ == self.spec_areas(),
            forall|i: int| 0 <= i < r@.len() ==> (#[trigger] r@[i]).wf(),
    ;
}

/// A widget is any value carrying all four capabilities.
pub trait Widget<M: Copy>: Object + Drawable + Layout + EventListener<M> {

}

/// The capability of a widget that groups others: it can lay out the
/// identities it contains.
pub trait Container {
    fn format(&mut self) -> Vec<ID>;
}

/// The mathematical model of a stored widget: the model of whichever
/// concrete widget the handle holds.
pub enum WidgetBoxView<M> {
    Button(ButtonView<M>),
    Panel(PanelView),
}

impl<M> WidgetBoxView<M> {
    /// The widget's identity label.
    pub open spec fn id(self) -> Seq<char> {
        match self {
            WidgetBoxView::Button(b) => b.id,
            WidgetBoxView::Panel(p) => p.id,
        }
    }

    /// The widget's current hit-test regions.
    pub open spec fn areas(self) -> Seq<Rect> {
        match self {
            WidgetBoxView::Button(b) => b.areas(),
            WidgetBoxView::Panel(p) => Seq::empty(),
        }
    }

    /// Whether the point `(x, y)` lies inside any of the widget's regions.
    pub open spec fn hit(self, x: int, y: int) -> bool {
        exists|i: int| 0 <= i < self.areas().len() && (#[trigger] self.areas()[i]).spec_contains(x, y)
    }

    /// The widget's interaction state; a widget without a state machine
    /// reads as `Unfocus`.
    pub open spec fn state(self) -> WidgetState {
        match self {
            WidgetBoxView::Button(b) => b.state,
            WidgetBoxView::Panel(p) => WidgetState::Unfocus,
        }
    }

    /// The message the widget's hover trigger yields, if one is bound.
    pub open spec fn hover_msg(self) -> Option<M> {
        match self {
            WidgetBoxView::Button(b) => b.on_hover,
            WidgetBoxView::Panel(p) => None,
        }
    }

    /// The widget after its hover trigger fired.
    pub open spec fn after_hover(self) -> Self {
        match self {
            WidgetBoxView::Button(b) => WidgetBoxView::Button(b.after_hover()),
            WidgetBoxView::Panel(p) => WidgetBoxView::Panel(p),
        }
    }

    /// The widget after its unfocus trigger fired.
    pub open spec fn after_unfocus(self) -> Self {
        match self {
            WidgetBoxView::Button(b) => WidgetBoxView::Button(b.after_unfocus()),
            WidgetBoxView::Panel(p) => WidgetBoxView::Panel(p),
        }
    }

    /// The drawing commands the widget currently emits, in order.
    pub open spec fn commands(self) -> Seq<CommandView> {
        match self {
            WidgetBoxView::Button(b) => b.commands(),
            WidgetBoxView::Panel(p) => Seq::empty(),
        }
    }

    /// The widget with the given theme applied, where it is themeable.
    pub open spec fn with_theme(self, theme: Theme) -> Self {
        match self {
            WidgetBoxView::Button(b) => WidgetBoxView::Button(
                ButtonView { theme, ..b },
            ),
            WidgetBoxView::Panel(p) => WidgetBoxView::Panel(p),
        }
    }
}

/// The uniform, type-erasing handle the registry stores a widget behind:
/// a tagged union over the closed set of widget kinds.
#[derive(Debug)]
pub enum WidgetBox<M: Copy> {
    Button(Button<M>),
    Panel(Panel),
}

impl<M: Copy> View for WidgetBox<M> {
    type V = WidgetBoxView<M>;

    open spec fn view(&self) -> WidgetBoxView<M> {
        match self {
            WidgetBox::Button(b) => WidgetBoxView::Button(b@),
            WidgetBox::Panel(p) => WidgetBoxView::Panel(p@),
        }
    }
}

impl<M: Copy> WidgetBox<M> {
    /// Returns the stored widget's identity.
    pub fn id(&self) -> (r: ID)
        ensures
            r@ == self@.id(),
    {
        match self {
            WidgetBox::Button(b) => b.id(),
            WidgetBox::Panel(p) => p.id(),
        }
    }

    /// Returns the stored widget's current regions.
    pub fn area(&self) -> (r: Vec<Rect>)
        ensures
            r@ == self@.areas(),
            forall|i: int| 0 <= i < r@.len() ==> (#[trigger] r@[i]).wf(),
    {
        match self {
            WidgetBox::Button(b) => b.area(),
            WidgetBox::Panel(p) => p.area(),
        }
    }

    /// Tests whether the cursor position `(x, y)` lies inside any of the
    /// stored widget's regions, with inclusive bounds on every edge.
    pub fn hit_test(&self, x: i32, y: i32) -> (r: bool)
        ensures
            r == self@.hit(x as int, y as int),
    {
        let areas = self.area();
        let mut i: usize = 0;
        while i < areas.len()
            invariant
                i <= areas@.len(),
                areas@ == self@.areas(),
                forall|j: int| 0 <= j < areas@.len() ==> (#[trigger] areas@[j]).wf(),
                forall|j: int| 0 <= j < i ==> !(#[trigger] areas@[j]).spec_contains(x as int, y as int),
            decreases areas@.len() - i,
        {
            if areas[i].contains_point(x, y) {
                return true;
            }
            i += 1;
        }
        false
    }

    /// Fires the stored widget's hover trigger: its state moves to
    /// `Hover` and its bound hover message, if any, is yielded.
    pub fn on_hover(&mut self) -> (m: Option<M>)
        ensures
            final(self)@ == old(self)@.after_hover(),
            m == old(self)@.hover_msg(),
    {
        match self {
            WidgetBox::Button(b) => b.handle_hover(),
            WidgetBox::Panel(p) => None,
        }
    }

    /// Fires the stored widget's unfocus trigger: its state resets to
    /// `Unfocus`.
    pub fn unfocus(&mut self)
        ensures
            final(self)@ == old(self)@.after_unfocus(),
    {
        match self {
            WidgetBox::Button(b) => b.handle_unfocus(),
            WidgetBox::Panel(p) => {
            },
        }
    }

    /// Applies `theme` to the stored widget, where it is themeable.
    pub fn theme(&mut self, theme: Theme)
        ensures
            final(self)@ == old(self)@.with_theme(theme),
    {
        match self {
            WidgetBox::Button(b) => b.set_theme(theme),
            WidgetBox::Panel(p) => {
            },
        }
    }

    /// Returns the drawing commands the stored widget currently emits, in
    /// order.
    pub fn draw(&self) -> (cmds: Vec<Command>)
        ensures
            command_views(cmds@) == self@.commands(),
    {
        match self {
            WidgetBox::Button(b) => b.draw(),
            WidgetBox::Panel(p) => {
                let cmds: Vec<Command> = Vec::new();
                proof {
                    assert(command_views(cmds@) =~= self@.commands());
                }
                cmds
            },
        }
    }

    /// Recovers the concrete button this handle stores, or reports that it
    /// stores a widget of another kind.
    pub fn as_button(&self) -> (r: Option<&Button<M>>)
        ensures
            match r {
                Some(b) => self@ == WidgetBoxView::Button(b@),
                None => !(self@ is Button),
            },
    {
        match self {
            WidgetBox::Button(b) => Some(b),
            WidgetBox::Panel(p) => None,
        }
    }

    /// Recovers the concrete panel this handle stores, or reports that it
    /// stores a widget of another kind.
    pub fn as_panel(&self) -> (r: Option<&Panel>)
        ensures
            match r {
                Some(p) => self@ == WidgetBoxView::<M>::Panel(p@),
                None => !(self@ is Panel),
            },
    {
        match self {
            WidgetBox::Button(b) => None,
            WidgetBox::Panel(p) => Some(p),
        }
    }
}

impl<M: Copy> Object for WidgetBox<M> {
    open spec fn spec_id(&self) -> Seq<char> {
        self@.id()
    }

    fn id(&self) -> (r: ID) {
        WidgetBox::id(self)
    }
}

} // verus!
