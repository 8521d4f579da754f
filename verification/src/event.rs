//! The primitive event stream the dispatch loop consumes, the requests
//! widgets raise, and the single entry point that turns one primitive
//! event into the action the embedding shell must perform.

use vstd::prelude::*;

verus! {

use crate::ApplicationEvent;
use crate::management::WidgetRegistry;
use crate::management::event_views;
use crate::management::spec_after_sweep;
use crate::management::spec_events;
use crate::object::ID;
use crate::object::Object;
use crate::widget::Widget;

/// What a queued event asks for.
#[derive(Clone, Copy, Debug)]
pub enum EventKind<M: Copy> {
    Redraw,
    User(M),
    Application(ApplicationEvent),
}

/// An event raised for one widget, carrying its identity.
pub struct EventRequest<M: Copy> {
    id: ID,
    kind: EventKind<M>,
}

impl<M: Copy> EventRequest<M> {
    /// The identity label of the widget the request is for.
    pub closed spec fn spec_id(&self) -> Seq<char> {
        self.id@
    }

    /// What the request asks for.
    pub closed spec fn spec_kind(&self) -> EventKind<M> {
        self.kind
    }

    /// Raises `kind` for `widget`.
    pub fn new(widget: &impl Widget<M>, kind: EventKind<M>) -> (r: Self)
        ensures
            r.spec_id() == widget.spec_id(),
            r.spec_kind() == kind,
    {
        Self { id: widget.id(), kind }
    }

    /// The identity of the widget the request is for.
    pub fn id(&self) -> (r: ID)
        ensures
            r@ == self.spec_id(),
    {
        self.id
    }

    /// What the request asks for.
    pub fn kind(&self) -> (r: EventKind<M>)
        ensures
            r == self.spec_kind(),
    {
        self.kind
    }
}

/// One primitive event delivered by the windowing bridge.
#[derive(Clone, Copy, Debug, PartialEq, Eq, Structural)]
pub enum InputEvent {
    /// The drawing surface now measures `width` by `height` pixels.
    Resized(u32, u32),
    /// The cursor moved to `(x, y)`, in window pixels.
    CursorMoved(i32, i32),
    /// The platform asked the application to close.
    CloseRequested,
    /// The platform asked for the frame to be drawn again.
    RedrawRequested,
}

/// What the embedding shell must do after one event was handled.
pub enum EventResponse<M: Copy> {
    /// A cursor sweep ran: request one redraw — exactly one, however many
    /// widgets changed state — then deliver each collected message, in
    /// order, to the application's handler.
    Dispatched(Vec<(ID, M)>),
    /// Forward the new surface size to the drawing backend.
    Resize(u32, u32),
    /// Render the current frame.
    Render,
    /// Finish processing, then leave the event loop.
    Exit,
}

impl<M: Copy> WidgetRegistry<M> {
    /// Consumes one primitive event.
    ///
    /// A cursor move runs the dispatch sweep over the registered widgets
    /// and hands back the collected messages; every other event leaves the
    /// widgets untouched and only tells the shell what to do: resizes go
    /// to the drawing surface, a redraw request triggers a render, a close
    /// request ends the loop.
    pub fn handle(&mut self, event: InputEvent) -> (r: EventResponse<M>)
        requires
            old(self).wf(),
        ensures
            final(self).wf(),
            match event {
                InputEvent::CursorMoved(x, y) => {
                    &&& final(self)@ == spec_after_sweep(old(self)@, x as int, y as int)
                    &&& match r {
                        EventResponse::Dispatched(events) => event_views(events@) == spec_events(
                            old(self)@,
                            x as int,
                            y as int,
                        ),
                        _ => false,
                    }
                },
                InputEvent::Resized(width, height) => final(self)@ == old(self)@ && r
                    == EventResponse::<M>::Resize(width, height),
                InputEvent::CloseRequested => final(self)@ == old(self)@ && r
                    == EventResponse::<M>::Exit,
                InputEvent::RedrawRequested => final(self)@ == old(self)@ && r
                    == EventResponse::<M>::Render,
            },
    {
        match event {
            InputEvent::CursorMoved(x, y) => {
                let events = self.handle_cursor_moved(x, y);
                EventResponse::Dispatched(events)
            },
            InputEvent::Resized(width, height) => EventResponse::Resize(width, height),
            InputEvent::CloseRequested => EventResponse::Exit,
            InputEvent::RedrawRequested => EventResponse::Render,
        }
    }
}

} // verus!
