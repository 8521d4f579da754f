//! The widget registry: the identity-indexed ownership store of all live
//! widgets, and the event dispatch sweep that drives their interaction
//! state from cursor positions.
//!
//! The registry keeps its widgets in registration order and holds exactly
//! one widget per identity: registering under an identity already present
//! replaces that widget in place. Lookups fail explicitly; the typed
//! lookups report a mismatch instead of reinterpreting the stored value.

use vstd::prelude::*;

verus! {

use crate::object::ID;
use crate::widget::WidgetBox;
use crate::widget::WidgetBoxView;

/// Why a registry lookup did not yield a widget.
#[derive(Clone, Copy, Debug, PartialEq, Eq, Structural)]
pub enum RegistryError {
    /// No widget is registered under the identity.
    NotFound,
    /// A widget is registered under the identity, but it is of another
    /// concrete kind than the one asked for.
    TypeMismatch,
}

/// The widgets after one cursor sweep at `(x, y)`: each widget that the
/// cursor hits fires its hover trigger, every other widget its unfocus
/// trigger.
pub open spec fn spec_after_sweep<M>(ws: Seq<WidgetBoxView<M>>, x: int, y: int) -> Seq<
    WidgetBoxView<M>,
> {
    ws.map_values(
        |w: WidgetBoxView<M>|
            if w.hit(x, y) {
                w.after_hover()
            } else {
                w.after_unfocus()
            },
    )
}

/// The messages one cursor sweep at `(x, y)` collects: for each widget the
/// cursor hits, in registration order, the widget's bound hover message
/// paired with its identity label — nothing for a hit widget with no
/// message bound.
pub open spec fn spec_events<M>(ws: Seq<WidgetBoxView<M>>, x: int, y: int) -> Seq<(Seq<char>, M)>
    decreases ws.len(),
{
    if ws.len() == 0 {
        Seq::empty()
    } else {
        let rest = spec_events(ws.drop_last(), x, y);
        if ws.last().hit(x, y) {
            match ws.last().hover_msg() {
                Some(m) => rest.push((ws.last().id(), m)),
                None => rest,
            }
        } else {
            rest
        }
    }
}

/// The identity labels and payloads of collected events, as mathematical
/// values.
pub open spec fn event_views<M>(events: Seq<(ID, M)>) -> Seq<(Seq<char>, M)> {
    events.map_values(|e: (ID, M)| (e.0@, e.1))
}

/// An identity-indexed, mutually-exclusive store of widgets; the ownership
/// root for all widgets.
///
/// The model of a registry is the sequence of its widgets' models in
/// registration order; [`WidgetRegistry::wf`] says their identities are
/// pairwise distinct, and every operation preserves it.
pub struct WidgetRegistry<M: Copy> {
    widgets: Vec<WidgetBox<M>>,
}

impl<M: Copy> View for WidgetRegistry<M> {
    type V = Seq<WidgetBoxView<M>>;

    closed spec fn view(&self) -> Seq<WidgetBoxView<M>> {
        self.widgets@.map_values(|w: WidgetBox<M>| w@)
    }
}

/// Whether the widgets' identities are pairwise distinct.
pub open spec fn seq_distinct<M>(ws: Seq<WidgetBoxView<M>>) -> bool {
    forall|i: int, j: int|
        0 <= i < j < ws.len() ==> (#[trigger] ws[i]).id() != (#[trigger] ws[j]).id()
}

/// Whether some widget in `ws` carries the identity label `id`.
pub open spec fn seq_has<M>(ws: Seq<WidgetBoxView<M>>, id: Seq<char>) -> bool {
    exists|i: int| 0 <= i < ws.len() && (#[trigger] ws[i]).id() == id
}

/// The position in `ws` of the widget carrying the identity label `id`.
pub open spec fn seq_index_of<M>(ws: Seq<WidgetBoxView<M>>, id: Seq<char>) -> int {
    choose|i: int| 0 <= i < ws.len() && (#[trigger] ws[i]).id() == id
}

/// The widgets after registering `w`: `w` replaces the widget already
/// carrying its identity in place, or is appended when its identity is
/// new.
pub open spec fn seq_register<M>(ws: Seq<WidgetBoxView<M>>, w: WidgetBoxView<M>) -> Seq<
    WidgetBoxView<M>,
> {
    if seq_has(ws, w.id()) {
        ws.update(seq_index_of(ws, w.id()), w)
    } else {
        ws.push(w)
    }
}

/// The widgets after registering every widget of `new` in turn, first to
/// last.
pub open spec fn seq_register_all<M>(
    ws: Seq<WidgetBoxView<M>>,
    new: Seq<WidgetBoxView<M>>,
) -> Seq<WidgetBoxView<M>>
    decreases new.len(),
{
    if new.len() == 0 {
        ws
    } else {
        seq_register(seq_register_all(ws, new.drop_last()), new.last())
    }
}

impl<M: Copy> WidgetRegistry<M> {
    /// Every identity present names exactly one live widget.
    pub open spec fn wf(&self) -> bool {
        seq_distinct(self@)
    }

    /// Whether some widget is registered under the identity label `id`.
    pub open spec fn spec_has(&self, id: Seq<char>) -> bool {
        seq_has(self@, id)
    }

    /// The position of the widget registered under `id`.
    pub open spec fn spec_index_of(&self, id: Seq<char>) -> int {
        seq_index_of(self@, id)
    }

    /// The widget registered under `id`.
    pub open spec fn spec_at(&self, id: Seq<char>) -> WidgetBoxView<M> {
        self@[self.spec_index_of(id)]
    }

    /// In a well-formed registry, a position holding `id` is the position
    /// of `id`.
    proof fn lemma_index_of(&self, id: Seq<char>, i: int)
        requires
            self.wf(),
            0 <= i < self@.len(),
            self@[i].id() == id,
        ensures
            self.spec_has(id),
            self.spec_index_of(id) == i,
            self.spec_at(id) == self@[i],
    {
        assert(self.spec_has(id));
        let k = self.spec_index_of(id);
        assert(0 <= k < self@.len() && self@[k].id() == id);
        if k < i {
            assert(self@[k].id() != self@[i].id());
        } else if i < k {
            assert(self@[i].id() != self@[k].id());
        }
    }

    /// Creates the empty registry.
    pub fn new() -> (r: Self)
        ensures
            r@ == Seq::<WidgetBoxView<M>>::empty(),
            r.wf(),
    {
        let r = WidgetRegistry { widgets: Vec::new() };
        proof {
            assert(r@ =~= Seq::<WidgetBoxView<M>>::empty());
        }
        r
    }

    /// The number of widgets registered.
    pub fn len(&self) -> (r: usize)
        ensures
            r == self@.len(),
    {
        self.widgets.len()
    }

    /// The position of the widget registered under `id`, if any.
    fn index_of(&self, id: &ID) -> (r: Option<usize>)
        requires
            self.wf(),
        ensures
            match r {
                Some(i) => self.spec_has(id@) && i == self.spec_index_of(id@),
                None => !self.spec_has(id@),
            },
    {
        let n = self.widgets.len();
        let mut i: usize = 0;
        while i < n
            invariant
                n == self@.len(),
                i <= n,
                self.wf(),
                forall|j: int| 0 <= j < i ==> (#[trigger] self@[j]).id() != id@,
            decreases n - i,
        {
            let wid = self.widgets[i].id();
            if wid == *id {
                proof {
                    self.lemma_index_of(id@, i as int);
                }
                return Some(i);
            }
            i += 1;
        }
        None
    }

    /// Takes ownership of `widget` and inserts it under its identity,
    /// replacing in place any widget previously registered under that
    /// identity.
    pub fn register(&mut self, widget: WidgetBox<M>)
        requires
            old(self).wf(),
        ensures
            final(self).wf(),
            final(self)@ == seq_register(old(self)@, widget@),
            final(self).spec_has(widget@.id()),
            final(self).spec_at(widget@.id()) == widget@,
    {
        let ghost w_view = widget@;
        let wid = widget.id();
        match self.index_of(&wid) {
            Some(i) => {
                proof {
                    self.lemma_index_of(wid@, i as int);
                }
                self.widgets[i] = widget;
                proof {
                    assert(self@ =~= old(self)@.update(i as int, w_view));
                    assert forall|a: int, b: int| 0 <= a < b < self@.len() implies (
                    #[trigger] self@[a]).id() != (#[trigger] self@[b]).id() by {
                        assert(old(self)@[a].id() != old(self)@[b].id());
                    }
                    self.lemma_index_of(w_view.id(), i as int);
                }
            },
            None => {
                self.widgets.push(widget);
                proof {
                    assert(self@ =~= old(self)@.push(w_view));
                    assert forall|a: int, b: int| 0 <= a < b < self@.len() implies (
                    #[trigger] self@[a]).id() != (#[trigger] self@[b]).id() by {
                        if b < self@.len() - 1 {
                            assert(old(self)@[a].id() != old(self)@[b].id());
                        } else {
                            assert(old(self)@[a].id() != w_view.id());
                        }
                    }
                    self.lemma_index_of(w_view.id(), self@.len() - 1);
                }
            },
        }
    }

    /// Looks up the widget registered under `id`, reporting its absence
    /// explicitly.
    pub fn lookup(&self, id: &ID) -> (r: Option<&WidgetBox<M>>)
        requires
            self.wf(),
        ensures
            match r {
                Some(w) => self.spec_has(id@) && w@ == self.spec_at(id@),
                None => !self.spec_has(id@),
            },
    {
        match self.index_of(id) {
            Some(i) => Some(&self.widgets[i]),
            None => None,
        }
    }

    /// Borrows the widget registered under `id`.
    pub fn search(&self, id: &ID) -> (r: &WidgetBox<M>)
        requires
            self.wf(),
            self.spec_has(id@),
        ensures
            r@ == self.spec_at(id@),
    {
        match self.lookup(id) {
            Some(w) => w,
            None => unreached(),
        }
    }

    /// Exclusively borrows the widget registered under `id`; the registry
    /// afterwards holds whatever the caller leaves behind the borrow.
    pub fn search_mut(&mut self, id: ID) -> (r: &mut WidgetBox<M>)
        requires
            old(self).wf(),
            old(self).spec_has(id@),
        ensures
            (*r)@ == old(self).spec_at(id@),
            final(self)@ == old(self)@.update(old(self).spec_index_of(id@), (*final(r))@),
    {
        match self.index_of(&id) {
            Some(i) => &mut self.widgets[i],
            None => unreached(),
        }
    }

    /// Recovers the concrete button registered under `id`, failing closed
    /// when `id` is absent or names a widget of another kind.
    pub fn get_button(&self, id: &ID) -> (r: Result<&crate::widget::Button<M>, RegistryError>)
        requires
            self.wf(),
        ensures
            match r {
                Ok(b) => self.spec_has(id@) && self.spec_at(id@) == WidgetBoxView::Button(b@),
                Err(RegistryError::NotFound) => !self.spec_has(id@),
                Err(RegistryError::TypeMismatch) => self.spec_has(id@) && !(self.spec_at(id@)
                    is Button),
            },
    {
        match self.lookup(id) {
            Some(w) => match w.as_button() {
                Some(b) => Ok(b),
                None => Err(RegistryError::TypeMismatch),
            },
            None => Err(RegistryError::NotFound),
        }
    }

    /// Recovers the concrete panel registered under `id`, failing closed
    /// when `id` is absent or names a widget of another kind.
    pub fn get_panel(&self, id: &ID) -> (r: Result<&crate::widget::Panel, RegistryError>)
        requires
            self.wf(),
        ensures
            match r {
                Ok(p) => self.spec_has(id@) && self.spec_at(id@) == WidgetBoxView::<M>::Panel(p@),
                Err(RegistryError::NotFound) => !self.spec_has(id@),
                Err(RegistryError::TypeMismatch) => self.spec_has(id@) && !(self.spec_at(id@)
                    is Panel),
            },
    {
        match self.lookup(id) {
            Some(w) => match w.as_panel() {
                Some(p) => Ok(p),
                None => Err(RegistryError::TypeMismatch),
            },
            None => Err(RegistryError::NotFound),
        }
    }

    /// Exclusively recovers the concrete button registered under `id`,
    /// failing closed when `id` is absent or names a widget of another
    /// kind; the registry afterwards holds whatever the caller leaves
    /// behind the borrow.
    pub fn get_button_mut(&mut self, id: &ID) -> (r: Result<
        &mut crate::widget::Button<M>,
        RegistryError,
    >)
        requires
            old(self).wf(),
        ensures
            match r {
                Ok(b) => {
                    &&& old(self).spec_has(id@)
                    &&& old(self).spec_at(id@) == WidgetBoxView::Button((*b)@)
                    &&& final(self)@ == old(self)@.update(
                        old(self).spec_index_of(id@),
                        WidgetBoxView::Button((*final(b))@),
                    )
                },
                Err(RegistryError::NotFound) => !old(self).spec_has(id@) && final(self)@ == old(
                    self,
                )@,
                Err(RegistryError::TypeMismatch) => old(self).spec_has(id@) && !(old(
                    self,
                ).spec_at(id@) is Button) && final(self)@ == old(self)@,
            },
    {
        match self.index_of(id) {
            Some(i) => match &mut self.widgets[i] {
                WidgetBox::Button(b) => Ok(b),
                WidgetBox::Panel(_) => Err(RegistryError::TypeMismatch),
            },
            None => Err(RegistryError::NotFound),
        }
    }

    /// Exclusively recovers the concrete panel registered under `id`,
    /// failing closed when `id` is absent or names a widget of another
    /// kind; the registry afterwards holds whatever the caller leaves
    /// behind the borrow.
    pub fn get_panel_mut(&mut self, id: &ID) -> (r: Result<
        &mut crate::widget::Panel,
        RegistryError,
    >)
        requires
            old(self).wf(),
        ensures
            match r {
                Ok(p) => {
                    &&& old(self).spec_has(id@)
                    &&& old(self).spec_at(id@) == WidgetBoxView::<M>::Panel((*p)@)
                    &&& final(self)@ == old(self)@.update(
                        old(self).spec_index_of(id@),
                        WidgetBoxView::<M>::Panel((*final(p))@),
                    )
                },
                Err(RegistryError::NotFound) => !old(self).spec_has(id@) && final(self)@ == old(
                    self,
                )@,
                Err(RegistryError::TypeMismatch) => old(self).spec_has(id@) && !(old(
                    self,
                ).spec_at(id@) is Panel) && final(self)@ == old(self)@,
            },
    {
        match self.index_of(id) {
            Some(i) => match &mut self.widgets[i] {
                WidgetBox::Panel(p) => Ok(p),
                WidgetBox::Button(_) => Err(RegistryError::TypeMismatch),
            },
            None => Err(RegistryError::NotFound),
        }
    }

    /// One event dispatch sweep for a pointer-move to `(x, y)`.
    ///
    /// Every registered widget is evaluated in registration order: a
    /// widget whose region contains the cursor fires its hover trigger, a
    /// widget missed by the cursor fires its unfocus trigger. The messages
    /// the hover triggers yield are collected in the same order, each
    /// paired with its widget's identity; a widget emits its message on
    /// every sweep that hits it.
    pub fn handle_cursor_moved(&mut self, x: i32, y: i32) -> (events: Vec<(ID, M)>)
        requires
            old(self).wf(),
        ensures
            final(self).wf(),
            final(self)@ == spec_after_sweep(old(self)@, x as int, y as int),
            event_views(events@) == spec_events(old(self)@, x as int, y as int),
    {
        let mut events: Vec<(ID, M)> = Vec::new();
        let n = self.widgets.len();
        proof {
            assert(forall|j: int|
                0 <= j < n ==> (#[trigger] old(self)@[j]) == old(self).widgets@[j]@);
            assert(event_views(events@) =~= spec_events(old(self)@.take(0), x as int, y as int));
        }
        let mut i: usize = 0;
        #[verifier::loop_isolation(false)]
        while i < n
            invariant
                n == self.widgets@.len(),
                i <= n,
                forall|j: int|
                    i <= j < n ==> (#[trigger] self.widgets@[j])@ == old(self).widgets@[j]@,
                forall|j: int|
                    0 <= j < i ==> (#[trigger] self.widgets@[j])@ == (if old(self)@[j].hit(
                        x as int,
                        y as int,
                    ) {
                        old(self)@[j].after_hover()
                    } else {
                        old(self)@[j].after_unfocus()
                    }),
                event_views(events@) == spec_events(old(self)@.take(i as int), x as int, y as int),
            decreases n - i,
        {
            let hit = self.widgets[i].hit_test(x, y);
            if hit {
                let m = self.widgets[i].on_hover();
                if let Some(mm) = m {
                    let wid = self.widgets[i].id();
                    events.push((wid, mm));
                }
            } else {
                self.widgets[i].unfocus();
            }
            proof {
                assert(old(self)@.take(i + 1).drop_last() =~= old(self)@.take(i as int));
                assert(old(self)@.take(i + 1).last() == old(self)@[i as int]);
                assert(event_views(events@) =~= spec_events(
                    old(self)@.take(i + 1),
                    x as int,
                    y as int,
                ));
            }
            i += 1;
        }
        proof {
            assert(old(self)@.take(n as int) =~= old(self)@);
            assert(self@ =~= spec_after_sweep(old(self)@, x as int, y as int));
            assert forall|a: int, b: int| 0 <= a < b < self@.len() implies (
            #[trigger] self@[a]).id() != (#[trigger] self@[b]).id() by {
                assert(old(self)@[a].id() != old(self)@[b].id());
            }
        }
        events
    }
}

/// A widget's identity, regions, hit test and bound hover message are
/// untouched by its hover and unfocus triggers: only the interaction state
/// moves.
pub proof fn lemma_triggers_preserve_shape<M>(w: WidgetBoxView<M>)
    ensures
        w.after_hover().id() == w.id(),
        w.after_unfocus().id() == w.id(),
        w.after_hover().areas() == w.areas(),
        w.after_unfocus().areas() == w.areas(),
        w.after_hover().hover_msg() == w.hover_msg(),
        w.after_unfocus().hover_msg() == w.hover_msg(),
        w.after_hover().after_hover() == w.after_hover(),
        w.after_unfocus().after_unfocus() == w.after_unfocus(),
        forall|x: int, y: int| #[trigger] w.after_hover().hit(x, y) == w.hit(x, y),
        forall|x: int, y: int| #[trigger] w.after_unfocus().hit(x, y) == w.hit(x, y),
{
    assert(w.after_hover().areas() == w.areas());
    assert(w.after_unfocus().areas() == w.areas());
}

/// Uniqueness: after a widget is registered, its identity names a widget,
/// and the widget found under that identity is the registered one — in
/// particular its identity equals the identity looked up. This holds for
/// every widget and every well-formed registry state.
pub proof fn lemma_register_uniqueness<M>(ws: Seq<WidgetBoxView<M>>, w: WidgetBoxView<M>)
    requires
        seq_distinct(ws),
    ensures
        seq_distinct(seq_register(ws, w)),
        seq_has(seq_register(ws, w), w.id()),
        seq_register(ws, w)[seq_index_of(seq_register(ws, w), w.id())] == w,
        seq_register(ws, w)[seq_index_of(seq_register(ws, w), w.id())].id() == w.id(),
{
    let after = seq_register(ws, w);
    if seq_has(ws, w.id()) {
        let i = seq_index_of(ws, w.id());
        assert(0 <= i < ws.len() && ws[i].id() == w.id());
        assert forall|a: int, b: int| 0 <= a < b < after.len() implies (
        #[trigger] after[a]).id() != (#[trigger] after[b]).id() by {
            assert(ws[a].id() != ws[b].id());
        }
        assert(after[i] == w);
        let k = seq_index_of(after, w.id());
        assert(seq_has(after, w.id()));
        assert(0 <= k < after.len() && after[k].id() == w.id());
        if k != i {
            if k < i {
                assert(after[k].id() != after[i].id());
            } else {
                assert(after[i].id() != after[k].id());
            }
        }
    } else {
        let i = after.len() - 1;
        assert(after[i] == w);
        assert forall|a: int, b: int| 0 <= a < b < after.len() implies (
        #[trigger] after[a]).id() != (#[trigger] after[b]).id() by {
            if b < i {
                assert(ws[a].id() != ws[b].id());
            } else {
                assert(!(ws[a].id() == w.id()));
            }
        }
        let k = seq_index_of(after, w.id());
        assert(seq_has(after, w.id()));
        assert(0 <= k < after.len() && after[k].id() == w.id());
        if k != i {
            assert(after[k].id() != after[i].id());
        }
    }
}

/// Replace semantics: registering two widgets that carry the same identity
/// leaves exactly one widget under that identity — every widget found
/// under it is the second one — and leaves the count of the second
/// registration unchanged.
pub proof fn lemma_replace_semantics<M>(
    ws: Seq<WidgetBoxView<M>>,
    w1: WidgetBoxView<M>,
    w2: WidgetBoxView<M>,
)
    requires
        seq_distinct(ws),
        w1.id() == w2.id(),
    ensures
        seq_register(seq_register(ws, w1), w2).len() == seq_register(ws, w1).len(),
        seq_has(seq_register(seq_register(ws, w1), w2), w2.id()),
        forall|i: int|
            0 <= i < seq_register(seq_register(ws, w1), w2).len() && (#[trigger] seq_register(
                seq_register(ws, w1),
                w2,
            )[i]).id() == w2.id() ==> seq_register(seq_register(ws, w1), w2)[i] == w2,
{
    lemma_register_uniqueness(ws, w1);
    let once = seq_register(ws, w1);
    lemma_register_uniqueness(once, w2);
    let after = seq_register(once, w2);
    let i1 = seq_index_of(once, w1.id());
    assert(once[i1] == w1);
    assert(seq_has(once, w2.id()));
    assert(after.len() == once.len());
    let i2 = seq_index_of(after, w2.id());
    assert(after[i2] == w2);
    assert forall|i: int|
        0 <= i < after.len() && (#[trigger] after[i]).id() == w2.id() implies after[i] == w2 by {
        if i < i2 {
            assert(after[i].id() != after[i2].id());
        } else if i2 < i {
            assert(after[i2].id() != after[i].id());
        }
    }
}

/// State idempotence: a second cursor sweep at the same position changes
/// no widget further and collects exactly the same messages — a widget
/// kept under the cursor stays in its state, and a bound hover message is
/// emitted again on every sweep that hits its widget.
pub proof fn lemma_sweep_idempotent<M>(ws: Seq<WidgetBoxView<M>>, x: int, y: int)
    ensures
        spec_after_sweep(spec_after_sweep(ws, x, y), x, y) == spec_after_sweep(ws, x, y),
        spec_events(spec_after_sweep(ws, x, y), x, y) == spec_events(ws, x, y),
    decreases ws.len(),
{
    let once = spec_after_sweep(ws, x, y);
    assert forall|i: int| 0 <= i < once.len() implies #[trigger] spec_after_sweep(once, x, y)[i]
        == once[i] by {
        lemma_triggers_preserve_shape(ws[i]);
    }
    assert(spec_after_sweep(once, x, y) =~= once);
    if ws.len() == 0 {
        assert(once =~= ws);
    } else {
        lemma_sweep_idempotent(ws.drop_last(), x, y);
        assert(once.drop_last() =~= spec_after_sweep(ws.drop_last(), x, y));
        lemma_triggers_preserve_shape(ws.last());
        assert(once.last() == (if ws.last().hit(x, y) {
            ws.last().after_hover()
        } else {
            ws.last().after_unfocus()
        }));
        assert(once.last().hit(x, y) == ws.last().hit(x, y));
        assert(once.last().hover_msg() == ws.last().hover_msg());
        assert(once.last().id() == ws.last().id());
        assert(spec_events(once, x, y) == spec_events(ws, x, y));
    }
}

/// Unfocus on exit: a widget the cursor covered on one sweep and misses on
/// the next ends that next sweep in the `Unfocus` state; if it is a widget
/// with a state machine, the first sweep had put it in `Hover`.
pub proof fn lemma_unfocus_on_exit<M>(
    ws: Seq<WidgetBoxView<M>>,
    i: int,
    x1: int,
    y1: int,
    x2: int,
    y2: int,
)
    requires
        0 <= i < ws.len(),
        ws[i].hit(x1, y1),
        !ws[i].hit(x2, y2),
    ensures
        ws[i] is Button ==> spec_after_sweep(ws, x1, y1)[i].state() == crate::widget::WidgetState::Hover,
        spec_after_sweep(spec_after_sweep(ws, x1, y1), x2, y2)[i].state()
            == crate::widget::WidgetState::Unfocus,
{
    let once = spec_after_sweep(ws, x1, y1);
    assert(once[i] == ws[i].after_hover());
    lemma_triggers_preserve_shape(ws[i]);
    assert(!once[i].hit(x2, y2));
    assert(spec_after_sweep(once, x2, y2)[i] == once[i].after_unfocus());
}

} // verus!
