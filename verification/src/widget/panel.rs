//! A panel: a widget that groups other widgets. The panel itself has no
//! extent and draws nothing; it remembers the identities of the widgets it
//! was built from.

use vstd::prelude::*;

verus! {

use crate::Rect;
use crate::object::ID;
use crate::object::Object;
use crate::widget::Container;
use crate::widget::Drawable;
use crate::widget::EventListener;
use crate::widget::Layout;
use crate::widget::Widget;
use crate::widget::WidgetBox;
use crate::widget::WidgetBoxView;
use crate::management::WidgetRegistry;
use crate::management::seq_register_all;

/// The mathematical model of a [`Panel`]: its identity label and the
/// labels of the widgets it was built from, in registration order.
pub struct PanelView {
    pub id: Seq<char>,
    pub w_id: Seq<Seq<char>>,
}

/// A widget that groups other widgets; it has no extent of its own.
#[derive(Debug)]
pub struct Panel {
    id: ID,
    w_id: Vec<ID>,
}

impl View for Panel {
    type V = PanelView;

    closed spec fn view(&self) -> PanelView {
        PanelView { id: self.id@, w_id: self.w_id@.map_values(|i: ID| i@) }
    }
}

impl Panel {
    /// Returns the identities of the widgets this panel was built from, in
    /// registration order.
    pub fn widget_ids(&self) -> (r: &Vec<ID>)
        ensures
            r@.map_values(|i: ID| i@) == self@.w_id,
    {
        &self.w_id
    }
}

impl Container for Panel {
    fn format(&mut self) -> Vec<ID> {
        Vec::new()
    }
}

impl Drawable for Panel {

}

impl Layout for Panel {
    open spec fn spec_areas(&self) -> Seq<Rect> {
        Seq::empty()
    }

    fn area(&self) -> (r: Vec<Rect>) {
        let r: Vec<Rect> = Vec::new();
        proof {
            assert(r@ =~= self.spec_areas());
        }
        r
    }
}

impl<M: Copy> EventListener<M> for Panel {

}

impl<M: Copy> Widget<M> for Panel {

}

impl Object for Panel {
    open spec fn spec_id(&self) -> Seq<char> {
        self@.id
    }

    fn id(&self) -> (r: ID) {
        self.id
    }
}

/// Accumulates widgets, to be registered together as one panel.
pub struct PanelBuilder<M: Copy> {
    inner: Vec<WidgetBox<M>>,
}

impl<M: Copy> View for PanelBuilder<M> {
    type V = Seq<crate::widget::WidgetBoxView<M>>;

    closed spec fn view(&self) -> Seq<crate::widget::WidgetBoxView<M>> {
        self.inner@.map_values(|w: WidgetBox<M>| w@)
    }
}

impl<M: Copy> PanelBuilder<M> {
    /// Begins an empty panel.
    pub fn new() -> (r: Self)
        ensures
            r@ == Seq::<crate::widget::WidgetBoxView<M>>::empty(),
    {
        let r = PanelBuilder { inner: Vec::new() };
        proof {
            assert(r@ =~= Seq::<crate::widget::WidgetBoxView<M>>::empty());
        }
        r
    }

    /// Appends one widget to the panel under construction.
    pub fn push(&mut self, widget: WidgetBox<M>)
        ensures
            final(self)@ == old(self)@.push(widget@),
    {
        let ghost w_view = widget@;
        self.inner.push(widget);
        proof {
            assert(self@ =~= old(self)@.push(w_view));
        }
    }

    /// Registers every accumulated widget in the registry, first to last,
    /// and returns the panel remembering their identities in that order.
    pub fn build(self, registry: &mut WidgetRegistry<M>) -> (p: Panel)
        requires
            old(registry).wf(),
        ensures
            final(registry).wf(),
            final(registry)@ == seq_register_all(old(registry)@, self@),
            p@.id == "panel"@,
            p@.w_id == self@.map_values(|w: WidgetBoxView<M>| w.id()),
    {
        let ghost orig_vec = self.inner@;
        let ghost orig = self@;
        let mut inner = self.inner;
        let mut w_id: Vec<ID> = Vec::new();
        proof {
            assert(orig =~= orig_vec.map_values(|w: WidgetBox<M>| w@));
            assert(inner@ =~= orig_vec.skip(0));
            assert(w_id@.map_values(|x: ID| x@) =~~= orig.take(0).map_values(
                |w: WidgetBoxView<M>| w.id(),
            ));
            assert(seq_register_all(old(registry)@, orig.take(0)) =~= old(registry)@);
        }
        let n = inner.len();
        let mut i: usize = 0;
        #[verifier::loop_isolation(false)]
        while inner.len() > 0
            invariant
                registry.wf(),
                i <= n,
                n == orig_vec.len(),
                i + inner@.len() == orig_vec.len(),
                inner@ == orig_vec.skip(i as int),
                w_id@.map_values(|x: ID| x@) == orig.take(i as int).map_values(
                    |w: WidgetBoxView<M>| w.id(),
                ),
                registry@ == seq_register_all(old(registry)@, orig.take(i as int)),
            decreases inner@.len(),
        {
            let ghost prev_ids = w_id@;
            let w = inner.remove(0);
            proof {
                assert(w == orig_vec[i as int]);
                assert(w@ == orig[i as int]);
                assert(inner@ =~= orig_vec.skip(i as int + 1));
            }
            let wid = w.id();
            w_id.push(wid);
            registry.register(w);
            proof {
                assert(orig.take(i as int + 1).drop_last() =~= orig.take(i as int));
                assert(orig.take(i as int + 1).last() == orig[i as int]);
                assert(w_id@ == prev_ids.push(wid));
                assert(wid@ == orig[i as int].id());
                assert(prev_ids.map_values(|x: ID| x@) == orig.take(i as int).map_values(
                    |w: WidgetBoxView<M>| w.id(),
                ));
                assert forall|j: int| 0 <= j < i + 1 implies (#[trigger] w_id@[j])@ == orig.take(
                    i as int + 1,
                )[j].id() by {
                    if j < i {
                        assert(prev_ids.map_values(|x: ID| x@)[j] == prev_ids[j]@);
                        assert(orig.take(i as int).map_values(|w: WidgetBoxView<M>| w.id())[j]
                            == orig.take(i as int)[j].id());
                    }
                }
                assert(w_id@.map_values(|x: ID| x@) =~~= orig.take(i as int + 1).map_values(
                    |w: WidgetBoxView<M>| w.id(),
                ));
            }
            i += 1;
        }
        proof {
            assert(orig.take(i as int) =~= orig);
        }
        Panel { id: ID::new("panel"), w_id }
    }
}

} // verus!
