//! The exhibitor: which outputs there are, under which identifiers, when each
//! display draws, and what the layout and the pointer are to do when something
//! happens.
//!
//! A display draws a frame and asks for its page flip in one go. While the page
//! flip is under way the display draws no other frame: it takes note that one is
//! needed, and draws it when the page flip is done.

use crate::defs::{Button, DrmBundle, Illusion, OutputInfo, Position, SurfaceId};
use crate::registry::Registry;
use vstd::prelude::*;

verus! {

/// What builds an output from its DRM device.
pub trait OutputFactory {
    /// Builds the output with the identifier `id`, or says why it cannot.
    fn create(&mut self, bundle: &DrmBundle, id: i32) -> Result<OutputInfo, Illusion>;
}

/// What a collaborator of the exhibitor is to do.
#[derive(Clone, Copy, PartialEq, Eq, Debug, Structural)]
pub enum Action {
    /// The display of this output is to draw a frame and to ask for its page
    /// flip.
    Redraw(i32),
    /// The layout is to take this surface in.
    ManageSurface(SurfaceId),
    /// The layout is to let this surface go.
    UnmanageSurface(SurfaceId),
    /// The pointer is to move by this much, and to find its output.
    MovePointer(Position),
    /// The pointer is to go to this place on its output.
    PlacePointer(Option<Position>),
    /// The pointer is to forget its place.
    ResetPointer,
    /// The coordinator is to be asked for a redraw.
    Notify,
}

/// Where a display stands between its frames.
#[derive(Clone, Copy, PartialEq, Eq, Debug, Structural)]
pub struct Pace {
    /// A frame was drawn and its page flip is under way.
    pub scheduled: bool,
    /// A frame is needed, and is to be drawn when the page flip is done.
    pub needed: bool,
}

/// The pace of a display once a redraw was asked for: a display that waits for a
/// page flip takes note that a frame is needed; any other draws at once.
pub open spec fn notified(pace: Pace) -> Pace {
    Pace { scheduled: true, needed: pace.scheduled }
}

/// The pace of a display once a page flip of its output is done: it draws the
/// frame that is needed, if one is, and else waits for no page flip any more. A
/// display that waited for no page flip is as it was.
pub open spec fn flipped(pace: Pace) -> Pace {
    if pace.scheduled {
        Pace { scheduled: pace.needed, needed: false }
    } else {
        pace
    }
}

/// The displays among the first `count` that draw when a redraw is asked for:
/// those that wait for no page flip, in the order of the outputs.
pub open spec fn notify_actions(outputs: Seq<i32>, paces: Seq<Pace>, count: int) -> Seq<Action>
    decreases count,
{
    if count <= 0 {
        Seq::empty()
    } else {
        let before = notify_actions(outputs, paces, count - 1);
        if paces[count - 1].scheduled {
            before
        } else {
            before.push(Action::Redraw(outputs[count - 1]))
        }
    }
}

/// The exhibitor.
pub struct Exhibitor {
    last_output_id: i32,
    displays: Registry<OutputInfo>,
    paces: Vec<Pace>,
    pointer_focus: SurfaceId,
}

impl Exhibitor {
    /// The identifier that was given to an output last.
    pub closed spec fn last_output_id(&self) -> i32 {
        self.last_output_id
    }

    /// The identifiers of the outputs that have a display, in the order in which
    /// the outputs were found.
    pub closed spec fn outputs(&self) -> Seq<i32> {
        self.displays.values().map_values(|info: OutputInfo| info.id)
    }

    /// What is known of the outputs that have a display.
    pub closed spec fn infos(&self) -> Seq<OutputInfo> {
        self.displays.values()
    }

    /// Where each display stands between its frames, in the order of the outputs.
    pub closed spec fn paces(&self) -> Seq<Pace> {
        self.paces@
    }

    /// The surface that the pointer is on.
    pub closed spec fn pointer_focus(&self) -> SurfaceId {
        self.pointer_focus
    }

    /// The invariant: identifiers count from one, and no output has an identifier
    /// that is yet to be given out.
    pub closed spec fn wf(&self) -> bool {
        &&& self.displays.wf()
        &&& self.paces@.len() == self.displays.values().len()
        &&& 0 <= self.last_output_id
        &&& forall|i: int|
            0 <= i < self.displays.values().len() ==> {
                &&& 0 < (#[trigger] self.displays.values()[i]).id <= self.last_output_id
                &&& self.displays.keys()[i] == self.displays.values()[i].id as u64
            }
    }

    /// Every output has an identifier that was given out, and none is listed twice.
    pub proof fn lemma_outputs(&self)
        requires
            self.wf(),
        ensures
            self.outputs().no_duplicates(),
            self.outputs().len() == self.infos().len(),
            self.outputs().len() == self.paces().len(),
            forall|i: int| 0 <= i < self.outputs().len() ==> 0 < #[trigger] self.outputs()[i] <= self.last_output_id(),
    {
        self.displays.lemma_lengths();
        let keys = self.displays.keys();
        let values = self.displays.values();
        assert forall|a: int, b: int|
            0 <= a < self.outputs().len()
                && 0 <= b < self.outputs().len()
                && a != b implies self.outputs()[a]
            != self.outputs()[b] by {
            assert(keys[a] == values[a].id as u64);
            assert(keys[b] == values[b].id as u64);
        }
        assert forall|i: int| 0 <= i < self.outputs().len() implies 0 < #[trigger] self.outputs()[i]
            <= self.last_output_id() by {
            assert(0 < values[i].id);
        }
    }

    /// The identifier that comes next is greater than that of every output, so
    /// that no identifier is used twice.
    pub proof fn lemma_next_id_is_new(&self, next: i32)
        requires
            self.wf(),
            next == self.last_output_id() + 1,
        ensures
            !self.outputs().contains(next),
            forall|i: int| 0 <= i < self.outputs().len() ==> #[trigger] self.outputs()[i] < next,
    {
        self.lemma_outputs();
        if self.outputs().contains(next) {
            let p = self.outputs().index_of(next);
            assert(self.outputs()[p] <= self.last_output_id());
        }
    }

    /// An exhibitor without outputs, with the pointer on no surface.
    pub fn new() -> (exhibitor: Exhibitor)
        ensures
            exhibitor.wf(),
            exhibitor.last_output_id() == 0,
            exhibitor.outputs() == Seq::<i32>::empty(),
            exhibitor.infos() == Seq::<OutputInfo>::empty(),
            exhibitor.paces() == Seq::<Pace>::empty(),
            exhibitor.pointer_focus() == (SurfaceId { value: 0 }),
    {
        let exhibitor = Exhibitor {
            last_output_id: 0,
            displays: Registry::new(),
            paces: Vec::new(),
            pointer_focus: SurfaceId::invalid(),
        };
        assert(exhibitor.outputs() =~= Seq::<i32>::empty());
        exhibitor
    }

    /// Whether another output can be given an identifier: identifiers are not
    /// used twice, and there are no more of them than an `i32` holds.
    pub fn can_add_output(&self) -> (room: bool)
        ensures
            room == (self.last_output_id() < i32::MAX),
    {
        self.last_output_id < i32::MAX
    }

    /// Gives out the next identifier for an output. Identifiers count from one and
    /// none is given out twice.
    pub fn generate_next_output_id(&mut self) -> (id: i32)
        requires
            old(self).wf(),
            old(self).last_output_id() < i32::MAX,
        ensures
            final(self).wf(),
            0 < id,
            id == old(self).last_output_id() + 1,
            final(self).last_output_id() == id,
            !final(self).outputs().contains(id),
            final(self).infos() == old(self).infos(),
            final(self).outputs() == old(self).outputs(),
            final(self).paces() == old(self).paces(),
            final(self).pointer_focus() == old(self).pointer_focus(),
    {
        proof {
            self.lemma_next_id_is_new((self.last_output_id + 1) as i32);
        }
        self.last_output_id += 1;
        self.last_output_id
    }

    /// Takes in the output that was built under the identifier `id`, which was
    /// given out for it: on success the output has a display from now on. An
    /// output that could not be built is passed over.
    pub fn on_output_created(
        &mut self,
        id: i32,
        outcome: Result<OutputInfo, Illusion>,
    ) -> (registered: Option<i32>)
        requires
            old(self).wf(),
            0 < id <= old(self).last_output_id(),
            !old(self).outputs().contains(id),
            outcome is Ok ==> outcome->Ok_0.id == id,
        ensures
            final(self).wf(),
            final(self).last_output_id() == old(self).last_output_id(),
            final(self).pointer_focus() == old(self).pointer_focus(),
            match outcome {
                Ok(info) => {
                    &&& registered == Some(id)
                    &&& final(self).infos() == old(self).infos().push(info)
                    &&& final(self).outputs() == old(self).outputs().push(id)
                    &&& final(self).paces() == old(self).paces().push(
                        Pace { scheduled: false, needed: false },
                    )
                },
                Err(_) => {
                    &&& registered is None
                    &&& final(self).infos() == old(self).infos()
                    &&& final(self).outputs() == old(self).outputs()
                    &&& final(self).paces() == old(self).paces()
                },
            },
    {
        match outcome {
            Ok(info) => {
                proof {
                    self.displays.lemma_lengths();
                    if self.displays.has(id as u64) {
                        let p = self.displays.position_of(id as u64);
                        assert(self.displays.keys()[p] == self.displays.values()[p].id as u64);
                        assert(self.outputs()[p] == id);
                    }
                }
                self.displays.insert(id as u64, info);
                self.paces.push(Pace { scheduled: false, needed: false });
                assert(self.outputs() =~= old(self).outputs().push(id));
                Some(id)
            },
            Err(_) => None,
        }
    }

    /// A new output was found: it is given the next identifier, and built under
    /// it. The identifier is spent whether the output can be built or not.
    pub fn on_output_found<F: OutputFactory>(
        &mut self,
        factory: &mut F,
        bundle: DrmBundle,
    ) -> (registered: Option<i32>)
        requires
            old(self).wf(),
            old(self).last_output_id() < i32::MAX,
        ensures
            final(self).wf(),
            final(self).last_output_id() == old(self).last_output_id() + 1,
            final(self).pointer_focus() == old(self).pointer_focus(),
            registered is Some ==> registered == Some(final(self).last_output_id())
                && final(self).outputs() == old(self).outputs().push(final(self).last_output_id())
                && final(self).paces() == old(self).paces().push(
                Pace { scheduled: false, needed: false },
            ),
            registered is None ==> final(self).outputs() == old(self).outputs()
                && final(self).infos() == old(self).infos() && final(self).paces() == old(self).paces(),
    {
        proof {
            self.lemma_outputs();
        }
        let id = self.generate_next_output_id();
        let outcome = factory.create(&bundle, id);
        let outcome = match outcome {
            Ok(info) => {
                let mut info = info;
                info.id = id;
                Ok(info)
            },
            Err(err) => Err(err),
        };
        proof {
            if self.outputs().contains(id) {
                let p = self.outputs().index_of(id);
                assert(old(self).outputs()[p] <= old(self).last_output_id());
            }
        }
        self.on_output_created(id, outcome)
    }

    /// Whether the output `id` has a display.
    pub fn has_output(&self, id: i32) -> (present: bool)
        requires
            self.wf(),
        ensures
            present == self.outputs().contains(id),
    {
        proof {
            self.displays.lemma_lengths();
            if id > 0 && self.displays.has(id as u64) {
                let p = self.displays.position_of(id as u64);
                assert(self.displays.keys()[p] == self.displays.values()[p].id as u64);
                assert(0 < self.displays.values()[p].id);
                assert(self.outputs()[p] == id);
            }
            if self.outputs().contains(id) {
                let p = self.outputs().index_of(id);
                assert(self.displays.keys()[p] == self.displays.values()[p].id as u64);
                assert(0 < self.displays.values()[p].id);
                self.displays.lemma_position(id as u64, p);
            }
        }
        id > 0 && self.displays.contains_key(id as u64)
    }

    /// Position of the output `id` among the outputs.
    fn find_output(&self, id: i32) -> (found: Option<usize>)
        requires
            self.wf(),
        ensures
            found is Some <==> self.outputs().contains(id),
            found is Some ==> found->0 == self.outputs().index_of(id) && found->0 < self.paces().len(),
    {
        proof {
            self.lemma_outputs();
            self.displays.lemma_lengths();
            if id > 0 && self.displays.has(id as u64) {
                let p = self.displays.position_of(id as u64);
                assert(self.displays.keys()[p] == self.displays.values()[p].id as u64);
                assert(0 < self.displays.values()[p].id);
                assert(self.outputs()[p] == id);
            }
            if self.outputs().contains(id) {
                let p = self.outputs().index_of(id);
                assert(self.displays.keys()[p] == self.displays.values()[p].id as u64);
                assert(0 < self.displays.values()[p].id);
                self.displays.lemma_position(id as u64, p);
            }
        }
        if id > 0 {
            self.displays.position(id as u64)
        } else {
            None
        }
    }

    /// A redraw is needed. Every display that waits for no page flip draws, in
    /// the order of the outputs, and waits for its page flip from now on; a
    /// display that waits for one takes note that a frame is needed.
    pub fn on_notify(&mut self) -> (actions: Vec<Action>)
        requires
            old(self).wf(),
        ensures
            final(self).wf(),
            actions@ == notify_actions(
                old(self).outputs(),
                old(self).paces(),
                old(self).outputs().len() as int,
            ),
            final(self).paces() == old(self).paces().map_values(|pace: Pace| notified(pace)),
            final(self).last_output_id() == old(self).last_output_id(),
            final(self).infos() == old(self).infos(),
            final(self).outputs() == old(self).outputs(),
            final(self).pointer_focus() == old(self).pointer_focus(),
    {
        proof {
            self.lemma_outputs();
        }
        let ghost outputs = self.outputs();
        let ghost before = self.paces@;
        let mut actions: Vec<Action> = Vec::new();
        let n = self.paces.len();
        let mut i: usize = 0;
        while i < n
            invariant
                i <= n,
                n == before.len(),
                n == outputs.len(),
                n == self.displays.values().len(),
                self.paces@.len() == n,
                self.displays == old(self).displays,
                self.last_output_id == old(self).last_output_id,
                self.pointer_focus == old(self).pointer_focus,
                self.displays.wf(),
                outputs == old(self).outputs(),
                before == old(self).paces(),
                actions@ == notify_actions(outputs, before, i as int),
                forall|k: int| 0 <= k < i ==> #[trigger] self.paces@[k] == notified(before[k]),
                forall|k: int| i <= k < n ==> #[trigger] self.paces@[k] == before[k],
            decreases n - i,
        {
            let pace = self.paces[i];
            if !pace.scheduled {
                let id = self.displays.value_at(i).id;
                actions.push(Action::Redraw(id));
            }
            self.paces.set(i, Pace { scheduled: true, needed: pace.scheduled });
            i += 1;
        }
        assert(self.paces@ =~= before.map_values(|pace: Pace| notified(pace)));
        actions
    }

    /// The page flip of the output `id` is done. Its display draws the frame that
    /// was needed meanwhile, if one was, and waits for the page flip of that one;
    /// else it waits for no page flip any more. An output without a display, and
    /// one whose display waited for no page flip, are passed over.
    pub fn on_pageflip(&mut self, id: i32) -> (actions: Vec<Action>)
        requires
            old(self).wf(),
        ensures
            final(self).wf(),
            final(self).last_output_id() == old(self).last_output_id(),
            final(self).infos() == old(self).infos(),
            final(self).outputs() == old(self).outputs(),
            final(self).pointer_focus() == old(self).pointer_focus(),
            old(self).outputs().contains(id) ==> {
                let p = old(self).outputs().index_of(id);
                let pace = old(self).paces()[p];
                &&& final(self).paces() == old(self).paces().update(p, flipped(pace))
                &&& actions@ == (if pace.scheduled && pace.needed {
                    seq![Action::Redraw(id)]
                } else {
                    Seq::<Action>::empty()
                })
            },
            !old(self).outputs().contains(id) ==> final(self).paces() == old(self).paces() && actions@
                == Seq::<Action>::empty(),
    {
        let mut actions: Vec<Action> = Vec::new();
        if let Some(p) = self.find_output(id) {
            let pace = self.paces[p];
            if pace.scheduled {
                if pace.needed {
                    actions.push(Action::Redraw(id));
                }
                self.paces.set(p, Pace { scheduled: pace.needed, needed: false });
            }
            assert(self.paces@ =~= old(self).paces().update(p as int, flipped(pace)));
        }
        actions
    }

    /// The display of the output `id` could not draw its frame, or could not ask
    /// for the page flip: it waits for no page flip. An output without a display
    /// is passed over.
    pub fn on_redraw_failed(&mut self, id: i32)
        requires
            old(self).wf(),
        ensures
            final(self).wf(),
            final(self).last_output_id() == old(self).last_output_id(),
            final(self).infos() == old(self).infos(),
            final(self).outputs() == old(self).outputs(),
            final(self).pointer_focus() == old(self).pointer_focus(),
            old(self).outputs().contains(id) ==> {
                let p = old(self).outputs().index_of(id);
                final(self).paces() == old(self).paces().update(
                    p,
                    Pace { scheduled: false, needed: old(self).paces()[p].needed },
                )
            },
            !old(self).outputs().contains(id) ==> final(self).paces() == old(self).paces(),
    {
        if let Some(p) = self.find_output(id) {
            let pace = self.paces[p];
            self.paces.set(p, Pace { scheduled: false, needed: pace.needed });
        }
    }

    /// Where the display of the output `id` stands between its frames.
    pub fn get_pace(&self, id: i32) -> (pace: Option<Pace>)
        requires
            self.wf(),
        ensures
            pace == (if self.outputs().contains(id) {
                Some(self.paces()[self.outputs().index_of(id)])
            } else {
                None
            }),
    {
        match self.find_output(id) {
            Some(p) => Some(self.paces[p]),
            None => None,
        }
    }

    /// A surface is ready: the layout is to take it in.
    pub fn on_surface_ready(&self, sid: SurfaceId) -> (actions: Vec<Action>)
        ensures
            actions@ == seq![Action::ManageSurface(sid)],
    {
        let mut actions: Vec<Action> = Vec::new();
        actions.push(Action::ManageSurface(sid));
        actions
    }

    /// A surface was destroyed: the layout is to let it go, and the pointer is on
    /// it no more.
    pub fn on_surface_destroyed(&mut self, sid: SurfaceId) -> (actions: Vec<Action>)
        ensures
            actions@ == seq![Action::UnmanageSurface(sid)],
            final(self).pointer_focus() == (if old(self).pointer_focus() == sid {
                SurfaceId { value: 0 }
            } else {
                old(self).pointer_focus()
            }),
            final(self).last_output_id() == old(self).last_output_id(),
            final(self).infos() == old(self).infos(),
            final(self).outputs() == old(self).outputs(),
            final(self).paces() == old(self).paces(),
            old(self).wf() ==> final(self).wf(),
    {
        let mut actions: Vec<Action> = Vec::new();
        actions.push(Action::UnmanageSurface(sid));
        if self.pointer_focus == sid {
            self.pointer_focus = SurfaceId::invalid();
        }
        actions
    }

    /// The pointer is on the surface `sid` from now on.
    pub fn set_pointer_focus(&mut self, sid: SurfaceId)
        ensures
            final(self).pointer_focus() == sid,
            final(self).last_output_id() == old(self).last_output_id(),
            final(self).infos() == old(self).infos(),
            final(self).outputs() == old(self).outputs(),
            final(self).paces() == old(self).paces(),
            old(self).wf() ==> final(self).wf(),
    {
        self.pointer_focus = sid;
    }

    /// The surface that the pointer is on.
    pub fn get_pointer_focus(&self) -> (sid: SurfaceId)
        ensures
            sid == self.pointer_focus(),
    {
        self.pointer_focus
    }

    /// The pointer device moved: the pointer is to move, and a redraw is asked for.
    pub fn on_motion(&self, vector: Position) -> (actions: Vec<Action>)
        ensures
            actions@ == seq![Action::MovePointer(vector), Action::Notify],
    {
        let mut actions: Vec<Action> = Vec::new();
        actions.push(Action::MovePointer(vector));
        actions.push(Action::Notify);
        actions
    }

    /// The pointer device gave a place: the pointer is to go there, and a redraw
    /// is asked for.
    pub fn on_position(&self, position: Option<Position>) -> (actions: Vec<Action>)
        ensures
            actions@ == seq![Action::PlacePointer(position), Action::Notify],
    {
        let mut actions: Vec<Action> = Vec::new();
        actions.push(Action::PlacePointer(position));
        actions.push(Action::Notify);
        actions
    }

    /// A pointer button was pressed or released: nothing is to be done.
    pub fn on_button(&self, button: Button) -> (actions: Vec<Action>)
        ensures
            actions@ == Seq::<Action>::empty(),
    {
        Vec::new()
    }

    /// The pointer device lost its place: the pointer is to forget it.
    pub fn on_position_reset(&self) -> (actions: Vec<Action>)
        ensures
            actions@ == seq![Action::ResetPointer],
    {
        let mut actions: Vec<Action> = Vec::new();
        actions.push(Action::ResetPointer);
        actions
    }
}

/// A display that waits for a page flip draws no frame when a redraw is asked for:
/// every display that draws then waited for none. So the page flip of an output is
/// done before the next one is asked for.
pub proof fn lemma_no_redraw_while_scheduled(outputs: Seq<i32>, paces: Seq<Pace>, count: int, k: int)
    requires
        0 <= count <= outputs.len(),
        count <= paces.len(),
        0 <= k < notify_actions(outputs, paces, count).len(),
    ensures
        exists|i: int|
            0 <= i < count && !paces[i].scheduled && notify_actions(outputs, paces, count)[k]
                == Action::Redraw(#[trigger] outputs[i]),
    decreases count,
{
    if count > 0 {
        let before = notify_actions(outputs, paces, count - 1);
        if k < before.len() {
            lemma_no_redraw_while_scheduled(outputs, paces, count - 1, k);
            let i = choose|i: int|
                0 <= i < count - 1 && !paces[i].scheduled && before[k] == Action::Redraw(
                    #[trigger] outputs[i],
                );
            assert(0 <= i < count && !paces[i].scheduled && notify_actions(outputs, paces, count)[k]
                == Action::Redraw(outputs[i]));
        } else {
            assert(!paces[count - 1].scheduled);
            assert(notify_actions(outputs, paces, count)[k] == Action::Redraw(outputs[count - 1]));
        }
    }
}

} // verus!
