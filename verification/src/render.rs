//! The drawing instruction set widgets emit, and the render pipeline that
//! assembles one frame's ordered command list from the registry.
//!
//! A drawing backend consumes the commands in order: later commands draw on
//! top of earlier ones. All geometry is in whole window pixels; a corner
//! radius is given in tenths of a pixel.

use vstd::prelude::*;

verus! {

use crate::Color;
use crate::management::RegistryError;
use crate::management::WidgetRegistry;
use crate::object::ID;

/// One vector-drawing instruction.
///
/// `FillRectangle(x, y, width, height, radius, color)` fills an axis-aligned
/// rectangle with corners rounded by `radius` tenths of a pixel.
/// `WriteString(x, y, width, height, color, text)` draws `text` inside the
/// given box.
#[derive(Clone, Debug, PartialEq)]
pub enum Command {
    FillRectangle(u32, u32, u32, u32, u32, Color),
    WriteString(u32, u32, u32, u32, Color, String),
}

/// The mathematical model of a [`Command`]: the same instruction with the
/// text carried as a sequence of characters.
pub enum CommandView {
    FillRectangle(u32, u32, u32, u32, u32, Color),
    WriteString(u32, u32, u32, u32, Color, Seq<char>),
}

impl View for Command {
    type V = CommandView;

    open spec fn view(&self) -> CommandView {
        match self {
            Command::FillRectangle(x, y, w, h, radius, color) => CommandView::FillRectangle(
                *x,
                *y,
                *w,
                *h,
                *radius,
                *color,
            ),
            Command::WriteString(x, y, w, h, color, text) => CommandView::WriteString(
                *x,
                *y,
                *w,
                *h,
                *color,
                text@,
            ),
        }
    }
}

/// The models of a sequence of commands, in order.
pub open spec fn command_views(s: Seq<Command>) -> Seq<CommandView> {
    s.map_values(|c: Command| c@)
}

/// The identity labels of a sequence of identities, in order.
pub open spec fn id_views(ids: Seq<ID>) -> Seq<Seq<char>> {
    ids.map_values(|i: ID| i@)
}

/// Whether every identity label in `ids` names a widget of `reg`.
pub open spec fn spec_all_present<M: Copy>(reg: WidgetRegistry<M>, ids: Seq<Seq<char>>) -> bool {
    forall|i: int| 0 <= i < ids.len() ==> reg.spec_has(#[trigger] ids[i])
}

/// The commands of one frame showing the widgets named by `ids`: each
/// widget's command sequence in turn, in the order the identities appear.
pub open spec fn spec_frame<M: Copy>(reg: WidgetRegistry<M>, ids: Seq<Seq<char>>) -> Seq<
    CommandView,
>
    decreases ids.len(),
{
    if ids.len() == 0 {
        Seq::empty()
    } else {
        spec_frame(reg, ids.drop_last()) + reg.spec_at(ids.last()).commands()
    }
}

impl<M: Copy> WidgetRegistry<M> {
    /// Assembles one frame: the widgets named by `ids`, looked up in the
    /// registry, each contribute their current command sequence, in the
    /// order the identities appear and, within one widget, in the widget's
    /// own emission order.
    ///
    /// An identity absent from the registry is a caller error and is
    /// reported instead of being skipped, since skipping would desynchronize
    /// what is drawn from what receives input.
    pub fn render_commands(&self, ids: &Vec<ID>) -> (r: Result<Vec<Command>, RegistryError>)
        requires
            self.wf(),
        ensures
            match r {
                Ok(cmds) => spec_all_present(*self, id_views(ids@)) && command_views(cmds@)
                    == spec_frame(*self, id_views(ids@)),
                Err(e) => e == RegistryError::NotFound && !spec_all_present(*self, id_views(ids@)),
            },
    {
        let mut cmds: Vec<Command> = Vec::new();
        let n = ids.len();
        proof {
            assert(command_views(cmds@) =~= spec_frame(*self, id_views(ids@).take(0)));
        }
        let mut k: usize = 0;
        #[verifier::loop_isolation(false)]
        while k < n
            invariant
                n == ids@.len(),
                k <= n,
                forall|j: int| 0 <= j < k ==> self.spec_has(#[trigger] id_views(ids@)[j]),
                command_views(cmds@) == spec_frame(*self, id_views(ids@).take(k as int)),
            decreases n - k,
        {
            match self.lookup(&ids[k]) {
                Some(w) => {
                    let mut part = w.draw();
                    cmds.append(&mut part);
                    proof {
                        assert(id_views(ids@).take(k + 1).drop_last() =~= id_views(ids@).take(
                            k as int,
                        ));
                        assert(id_views(ids@).take(k + 1).last() == id_views(ids@)[k as int]);
                        assert(command_views(cmds@) =~= spec_frame(
                            *self,
                            id_views(ids@).take(k + 1),
                        ));
                    }
                },
                None => {
                    return Err(RegistryError::NotFound);
                },
            }
            k += 1;
        }
        proof {
            assert(id_views(ids@).take(n as int) =~= id_views(ids@));
        }
        Ok(cmds)
    }
}

/// Render ordering: a frame showing the widget under `a` and then the
/// widget under `b` carries all of the first widget's commands before any
/// of the second widget's, each widget's own emission order kept.
pub proof fn lemma_render_ordering<M: Copy>(reg: WidgetRegistry<M>, a: Seq<char>, b: Seq<char>)
    ensures
        spec_frame(reg, seq![a, b]) == reg.spec_at(a).commands() + reg.spec_at(b).commands(),
{
    let ids = seq![a, b];
    assert(ids.drop_last() =~= seq![a]);
    assert(seq![a].drop_last() =~= Seq::<Seq<char>>::empty());
    assert(spec_frame(reg, Seq::<Seq<char>>::empty()) == Seq::<CommandView>::empty());
    assert(seq![a].last() == a);
    assert(spec_frame(reg, seq![a]) =~= reg.spec_at(a).commands());
    assert(spec_frame(reg, ids) =~= reg.spec_at(a).commands() + reg.spec_at(b).commands());
}

} // verus!
