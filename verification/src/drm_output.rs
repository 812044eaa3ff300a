//! The presentation state of one output: which buffer is locked for scan-out,
//! which framebuffer stands for which buffer, and what to ask of the kernel next.
//!
//! The calls on the DRM device and on the buffer manager are made by the caller;
//! this module decides which calls are due and takes their results.

use crate::defs::{Area, DrmBundle, Illusion, OutputInfo, Position, Size};
use crate::text::{integer, integer_text, natural, natural_text};
use std::collections::HashMap;
use std::collections::VecDeque;
use vstd::prelude::*;

verus! {

broadcast use {
    vstd::std_specs::hash::group_hash_axioms,
    vstd::std_specs::vecdeque::group_vec_dequeue_axioms,
};

/// The identifier that names no framebuffer.
pub const INVALID_FRAMEBUFFER: u32 = 0;

/// Color depth of the framebuffers of an output, in bits.
pub const FRAMEBUFFER_DEPTH: u8 = 24;

/// Bits per pixel of the framebuffers of an output.
pub const FRAMEBUFFER_BPP: u8 = 32;

/// The flag of a page flip that asks the kernel for a completion event.
pub const PAGE_FLIP_EVENT: u32 = 0x01;

/// The refresh rate that an output reports.
pub const REFRESH_RATE: usize = 60;

/// A display mode: the visible size in pixels.
#[derive(Clone, Copy, PartialEq, Eq, Debug, Structural)]
pub struct ModeInfo {
    pub hdisplay: u16,
    pub vdisplay: u16,
}

/// What the DRM device says of a connector.
#[derive(Clone, PartialEq, Eq, Debug)]
pub struct Connector {
    pub modes: Vec<ModeInfo>,
    pub mm_width: u32,
    pub mm_height: u32,
}

/// A buffer object of the buffer manager, locked for scan-out.
#[derive(Clone, Copy, PartialEq, Eq, Debug, Structural)]
pub struct BufferObject {
    pub width: u32,
    pub height: u32,
    pub stride: u32,
    pub handle: u32,
}

/// What to ask for when a buffer object has no framebuffer yet.
#[derive(Clone, Copy, PartialEq, Eq, Debug, Structural)]
pub struct FramebufferRequest {
    pub fd: i32,
    pub width: u32,
    pub height: u32,
    pub depth: u8,
    pub bpp: u8,
    pub pitch: u32,
    pub handle: u32,
}

/// What to ask for when a new framebuffer is to be shown: the CRTC is programmed
/// with the mode of the output, at the origin, for the one connector.
#[derive(Clone, Copy, PartialEq, Eq, Debug, Structural)]
pub struct CrtcRequest {
    pub fd: i32,
    pub crtc_id: u32,
    pub fb: u32,
    pub x: u32,
    pub y: u32,
    pub connector_id: u32,
    pub mode: ModeInfo,
}

/// What to ask for to show the current framebuffer at the next vertical blank.
/// The completion event carries the identifier of the output.
#[derive(Clone, Copy, PartialEq, Eq, Debug, Structural)]
pub struct PageFlipRequest {
    pub fd: i32,
    pub crtc_id: u32,
    pub fb: u32,
    pub flags: u32,
    pub user_data: i32,
}

/// How a swap of buffers goes on once the front buffer is locked.
#[derive(Clone, Copy, PartialEq, Eq, Debug, Structural)]
pub enum FramebufferChoice {
    /// The buffer has a framebuffer, which is now the current one.
    Known(u32),
    /// The buffer needs a framebuffer.
    Create(FramebufferRequest),
}

/// Where an output stands in a swap of buffers.
#[derive(Clone, Copy, PartialEq, Eq, Debug, Structural)]
pub enum SwapPhase {
    /// No swap is under way.
    Idle,
    /// A framebuffer was asked for, for the buffer with this handle.
    AwaitFramebuffer(u32),
    /// The CRTC is being programmed, for the buffer with this handle and with
    /// this framebuffer.
    AwaitCrtc(u32, u32),
}

/// The text that reports a failed page flip: it names the CRTC, the connector and
/// the error code.
pub open spec fn page_flip_error_text(crtc_id: u32, connector_id: u32, error: i32) -> Seq<char> {
    "Failed to page flip (crtc_id: "@ + natural_text(crtc_id as nat) + ", connector_id: "@
        + natural_text(connector_id as nat) + ", error: "@ + integer_text(error as int) + ")"@
}

/// Writes the report of a failed page flip.
fn format_page_flip_error(crtc_id: u32, connector_id: u32, error: i32) -> (text: String)
    ensures
        text@ == page_flip_error_text(crtc_id, connector_id, error),
{
    let mut text = "Failed to page flip (crtc_id: ".to_owned();
    let crtc = natural(crtc_id as u64);
    text.append(crtc.as_str());
    text.append(", connector_id: ");
    let connector = natural(connector_id as u64);
    text.append(connector.as_str());
    text.append(", error: ");
    let code = integer(error as i64);
    text.append(code.as_str());
    text.append(")");
    text
}

/// A physical output.
pub struct DrmOutput {
    position: Position,
    size: Size,
    physical_size: Size,
    id: i32,
    name: String,
    buffers: HashMap<u32, u32>,
    drm: DrmBundle,
    mode: ModeInfo,
    bo: VecDeque<BufferObject>,
    fb: u32,
    phase: SwapPhase,
}

impl DrmOutput {
    /// Identifier of the output.
    pub closed spec fn id(&self) -> i32 {
        self.id
    }

    /// Position of the output among the outputs.
    pub closed spec fn position(&self) -> Position {
        self.position
    }

    /// Size of the output in pixels.
    pub closed spec fn size(&self) -> Size {
        self.size
    }

    /// Size of the output in millimeters.
    pub closed spec fn physical_size(&self) -> Size {
        self.physical_size
    }

    /// Name of the output.
    pub closed spec fn name(&self) -> Seq<char> {
        self.name@
    }

    /// The device, the CRTC and the connector of the output.
    pub closed spec fn drm(&self) -> DrmBundle {
        self.drm
    }

    /// The mode of the output.
    pub closed spec fn mode(&self) -> ModeInfo {
        self.mode
    }

    /// The framebuffer of each buffer object that was shown, by the handle of the
    /// buffer object.
    pub closed spec fn framebuffers(&self) -> Map<u32, u32> {
        self.buffers@
    }

    /// The buffer object that is locked for scan-out.
    pub closed spec fn locked(&self) -> Option<BufferObject> {
        if self.bo@.len() > 0 {
            Some(self.bo@[0])
        } else {
            None
        }
    }

    /// The current framebuffer.
    pub closed spec fn framebuffer(&self) -> u32 {
        self.fb
    }

    /// Where the output stands in a swap of buffers.
    pub closed spec fn phase(&self) -> SwapPhase {
        self.phase
    }

    /// The invariant of an output: at most one buffer object is locked; while a
    /// swap waits for a framebuffer or for the CRTC, the buffer object in question
    /// is the locked one. No framebuffer is
    /// remembered for it while the swap waits for one; the one that was made is
    /// remembered for it while the swap waits for the CRTC.
    pub closed spec fn wf(&self) -> bool {
        &&& self.bo@.len() <= 1
        &&& match self.phase {
            SwapPhase::Idle => true,
            SwapPhase::AwaitFramebuffer(handle) => {
                &&& !self.buffers@.contains_key(handle)
                &&& self.bo@.len() == 1
                &&& self.bo@[0].handle == handle
            },
            SwapPhase::AwaitCrtc(handle, fb) => {
                &&& self.buffers@.contains_key(handle)
                &&& self.buffers@[handle] == fb
                &&& self.bo@.len() == 1
                &&& self.bo@[0].handle == handle
            },
        }
    }

    /// Whether every framebuffer that this output remembers is remembered by
    /// `later` too, for the same buffer object.
    pub open spec fn framebuffers_kept_by(&self, later: &DrmOutput) -> bool {
        forall|handle: u32| #[trigger]
            self.framebuffers().contains_key(handle) ==> later.framebuffers().contains_key(handle)
                && later.framebuffers()[handle] == self.framebuffers()[handle]
    }

    /// How a swap goes on once the buffer object `bo` is locked: with the
    /// framebuffer that is remembered for it, or else with a new one, of a depth of
    /// 24 bits and with 32 bits per pixel.
    pub open spec fn choice_for(&self, bo: BufferObject) -> FramebufferChoice {
        if self.framebuffers().contains_key(bo.handle) {
            FramebufferChoice::Known(self.framebuffers()[bo.handle])
        } else {
            FramebufferChoice::Create(
                FramebufferRequest {
                    fd: self.drm().fd,
                    width: bo.width,
                    height: bo.height,
                    depth: FRAMEBUFFER_DEPTH,
                    bpp: FRAMEBUFFER_BPP,
                    pitch: bo.stride,
                    handle: bo.handle,
                },
            )
        }
    }

    /// Whether `other` differs from this output in nothing but what a swap of
    /// buffers changes.
    pub open spec fn same_output(&self, other: &DrmOutput) -> bool {
        &&& self.id() == other.id()
        &&& self.position() == other.position()
        &&& self.size() == other.size()
        &&& self.physical_size() == other.physical_size()
        &&& self.name() == other.name()
        &&& self.drm().same_as(&other.drm())
        &&& self.mode() == other.mode()
    }

    /// Creates the state of an output from what the device says of its connector.
    /// The output takes the first mode of the connector. It has no name, lies at
    /// the origin, and has shown no buffer yet. Without a connector, or with a
    /// connector that has no mode, there is no output.
    pub fn new(
        drm: DrmBundle,
        id: i32,
        connector: Option<Connector>,
    ) -> (made: Result<DrmOutput, Illusion>)
        ensures
            made is Ok <==> connector is Some && connector->0.modes@.len() > 0,
            made is Err ==> made->Err_0.text() == "Failed to get mode for connector"@,
            made is Ok ==> {
                let output = made->Ok_0;
                let connector = connector->0;
                &&& output.id() == id
                &&& output.drm().same_as(&drm)
                &&& output.mode() == connector.modes@[0]
                &&& output.size() == (Size {
                    width: connector.modes@[0].hdisplay as usize,
                    height: connector.modes@[0].vdisplay as usize,
                })
                &&& output.physical_size() == (Size {
                    width: connector.mm_width as usize,
                    height: connector.mm_height as usize,
                })
                &&& output.position() == (Position { x: 0, y: 0 })
                &&& output.name() == Seq::<char>::empty()
                &&& output.framebuffers() == Map::<u32, u32>::empty()
                &&& output.locked() is None
                &&& output.framebuffer() == INVALID_FRAMEBUFFER
                &&& output.phase() == SwapPhase::Idle
                &&& output.wf()
            },
    {
        match connector {
            Some(connector) => {
                if connector.modes.len() == 0 {
                    return Err(Illusion::General("Failed to get mode for connector".to_owned()));
                }
                let mode = connector.modes[0];
                let size = Size::new(mode.hdisplay as usize, mode.vdisplay as usize);
                let physical_size = Size::new(
                    connector.mm_width as usize,
                    connector.mm_height as usize,
                );
                Ok(
                    DrmOutput {
                        position: Position::origin(),
                        size: size,
                        physical_size: physical_size,
                        id: id,
                        name: String::new(),
                        buffers: HashMap::new(),
                        drm: drm,
                        mode: mode,
                        bo: VecDeque::with_capacity(1),
                        fb: INVALID_FRAMEBUFFER,
                        phase: SwapPhase::Idle,
                    },
                )
            },
            None => Err(Illusion::General("Failed to get mode for connector".to_owned())),
        }
    }

    /// What clients are told of the output.
    pub fn get_info(&self) -> (info: OutputInfo)
        ensures
            info.id == self.id(),
            info.area == (Area { pos: self.position(), size: self.size() }),
            info.physical_size == self.physical_size(),
            info.refresh_rate == REFRESH_RATE,
            info.make@ == self.name(),
            info.model@ == self.name(),
    {
        OutputInfo {
            id: self.id,
            area: Area::new(self.position, self.size),
            physical_size: self.physical_size,
            refresh_rate: REFRESH_RATE,
            make: self.name.clone(),
            model: self.name.clone(),
        }
    }

    /// Moves the output.
    pub fn set_position(&mut self, position: Position)
        ensures
            final(self).position() == position,
            final(self).id() == old(self).id(),
            final(self).size() == old(self).size(),
            final(self).physical_size() == old(self).physical_size(),
            final(self).name() == old(self).name(),
            final(self).drm() == old(self).drm(),
            final(self).mode() == old(self).mode(),
            final(self).framebuffers() == old(self).framebuffers(),
            final(self).locked() == old(self).locked(),
            final(self).framebuffer() == old(self).framebuffer(),
            final(self).phase() == old(self).phase(),
            old(self).wf() ==> final(self).wf(),
    {
        self.position = position;
    }
}

/// The swap of buffers, the page flip and the recreation.
impl DrmOutput {
    /// Begins a swap of buffers: gives up the buffer object that is locked, for
    /// the caller to release.
    pub fn take_locked_buffer(&mut self) -> (released: Option<BufferObject>)
        requires
            old(self).wf(),
            old(self).phase() == SwapPhase::Idle,
        ensures
            final(self).wf(),
            released == old(self).locked(),
            final(self).locked() is None,
            final(self).same_output(old(self)),
            final(self).framebuffers() == old(self).framebuffers(),
            final(self).framebuffer() == old(self).framebuffer(),
            final(self).phase() == old(self).phase(),
    {
        let released = self.bo.pop_front();
        released
    }

    /// Goes on with a swap of buffers once the caller has tried to lock the front
    /// buffer. A buffer that has a framebuffer gets it again. One that has none
    /// needs one: with a depth of 24 bits and 32 bits per pixel.
    pub fn swap_gbm_buffers(&mut self, locked: Option<BufferObject>) -> (step: Result<
        FramebufferChoice,
        Illusion,
    >)
        requires
            old(self).wf(),
            old(self).locked() is None,
            old(self).phase() == SwapPhase::Idle,
        ensures
            final(self).wf(),
            final(self).same_output(old(self)),
            final(self).framebuffers() == old(self).framebuffers(),
            final(self).locked() == locked,
            match locked {
                None => {
                    &&& step is Err
                    &&& step->Err_0.text() == "Failed to lock front buffer"@
                    &&& final(self).framebuffer() == old(self).framebuffer()
                    &&& final(self).phase() == SwapPhase::Idle
                },
                Some(bo) => {
                    &&& step == Ok::<FramebufferChoice, Illusion>(old(self).choice_for(bo))
                    &&& final(self).framebuffer() == (match old(self).choice_for(bo) {
                        FramebufferChoice::Known(fb) => fb,
                        FramebufferChoice::Create(_) => old(self).framebuffer(),
                    })
                    &&& final(self).phase() == (match old(self).choice_for(bo) {
                        FramebufferChoice::Known(_) => SwapPhase::Idle,
                        FramebufferChoice::Create(_) => SwapPhase::AwaitFramebuffer(bo.handle),
                    })
                },
            },
    {
        match locked {
            Some(bo) => {
                self.bo.push_back(bo);
                let known = match self.buffers.get(&bo.handle) {
                    Some(fb) => Some(*fb),
                    None => None,
                };
                match known {
                    Some(fb) => {
                        self.fb = fb;
                        Ok(FramebufferChoice::Known(fb))
                    },
                    None => {
                        self.phase = SwapPhase::AwaitFramebuffer(bo.handle);
                        Ok(
                            FramebufferChoice::Create(
                                FramebufferRequest {
                                    fd: self.drm.fd,
                                    width: bo.width,
                                    height: bo.height,
                                    depth: FRAMEBUFFER_DEPTH,
                                    bpp: FRAMEBUFFER_BPP,
                                    pitch: bo.stride,
                                    handle: bo.handle,
                                },
                            ),
                        )
                    },
                }
            },
            None => Err(Illusion::General("Failed to lock front buffer".to_owned())),
        }
    }

    /// Goes on with a swap of buffers once the caller has asked for the
    /// framebuffer. A framebuffer that was made is remembered for the buffer from
    /// now on, whatever becomes of the swap, so that no other is ever asked for;
    /// and it is to be shown: the CRTC is to be programmed with it. Without a
    /// framebuffer the swap fails.
    pub fn framebuffer_added(
        &mut self,
        added: Result<u32, i32>,
    ) -> (step: Result<CrtcRequest, Illusion>)
        requires
            old(self).wf(),
            old(self).phase() is AwaitFramebuffer,
        ensures
            final(self).wf(),
            final(self).same_output(old(self)),
            old(self).framebuffers_kept_by(final(self)),
            final(self).locked() == old(self).locked(),
            final(self).framebuffer() == old(self).framebuffer(),
            match added {
                Ok(fb) => {
                    &&& final(self).framebuffers() == old(self).framebuffers().insert(
                        old(self).phase()->AwaitFramebuffer_0,
                        fb,
                    )
                    &&& step == Ok::<CrtcRequest, Illusion>(
                        CrtcRequest {
                            fd: old(self).drm().fd,
                            crtc_id: old(self).drm().crtc_id,
                            fb: fb,
                            x: 0,
                            y: 0,
                            connector_id: old(self).drm().connector_id,
                            mode: old(self).mode(),
                        },
                    )
                    &&& final(self).phase() == SwapPhase::AwaitCrtc(old(self).phase()->AwaitFramebuffer_0, fb)
                },
                Err(_) => {
                    &&& step is Err
                    &&& step->Err_0.text() == "Failed to create DRM framebuffer"@
                    &&& final(self).framebuffers() == old(self).framebuffers()
                    &&& final(self).phase() == SwapPhase::Idle
                },
            },
    {
        match (added, self.phase) {
            (Ok(fb), SwapPhase::AwaitFramebuffer(handle)) => {
                self.buffers.insert(handle, fb);
                self.phase = SwapPhase::AwaitCrtc(handle, fb);
                Ok(
                    CrtcRequest {
                        fd: self.drm.fd,
                        crtc_id: self.drm.crtc_id,
                        fb: fb,
                        x: 0,
                        y: 0,
                        connector_id: self.drm.connector_id,
                        mode: self.mode,
                    },
                )
            },
            _ => {
                self.phase = SwapPhase::Idle;
                Err(Illusion::General("Failed to create DRM framebuffer".to_owned()))
            },
        }
    }

    /// Ends a swap of buffers once the caller has programmed the CRTC. On success
    /// the framebuffer is the current one. It stays remembered for its buffer
    /// either way.
    pub fn crtc_set(&mut self, set: Result<(), i32>) -> (done: Result<u32, Illusion>)
        requires
            old(self).wf(),
            old(self).phase() is AwaitCrtc,
        ensures
            final(self).wf(),
            final(self).framebuffers() == old(self).framebuffers(),
            final(self).framebuffers().contains_key(old(self).phase()->AwaitCrtc_0),
            final(self).framebuffers()[old(self).phase()->AwaitCrtc_0] == old(self).phase()->AwaitCrtc_1,
            final(self).same_output(old(self)),
            final(self).locked() == old(self).locked(),
            final(self).phase() == SwapPhase::Idle,
            match set {
                Ok(_) => {
                    &&& done == Ok::<u32, Illusion>(old(self).phase()->AwaitCrtc_1)
                    &&& final(self).framebuffer() == old(self).phase()->AwaitCrtc_1
                },
                Err(_) => {
                    &&& done is Err
                    &&& done->Err_0.text() == "Failed to set CRTC"@
                    &&& final(self).framebuffer() == old(self).framebuffer()
                },
            },
    {
        let phase = self.phase;
        self.phase = SwapPhase::Idle;
        match (set, phase) {
            (Ok(_), SwapPhase::AwaitCrtc(_, fb)) => {
                self.fb = fb;
                Ok(fb)
            },
            _ => Err(Illusion::General("Failed to set CRTC".to_owned())),
        }
    }

    /// What to ask of the kernel to show the current framebuffer: a page flip
    /// with a completion event that carries the identifier of the output.
    pub fn schedule_pageflip(&self) -> (request: PageFlipRequest)
        ensures
            request == (PageFlipRequest {
                fd: self.drm().fd,
                crtc_id: self.drm().crtc_id,
                fb: self.framebuffer(),
                flags: PAGE_FLIP_EVENT,
                user_data: self.id(),
            }),
    {
        PageFlipRequest {
            fd: self.drm.fd,
            crtc_id: self.drm.crtc_id,
            fb: self.fb,
            flags: PAGE_FLIP_EVENT,
            user_data: self.id,
        }
    }

    /// Tells how the scheduling of a page flip went: a refusal by the kernel is an
    /// error that names the CRTC, the connector and the error code.
    pub fn pageflip_scheduled(&self, result: Result<(), i32>) -> (scheduled: Result<(), Illusion>)
        ensures
            result is Ok <==> scheduled is Ok,
            result is Err ==> scheduled->Err_0.text() == page_flip_error_text(
                self.drm().crtc_id,
                self.drm().connector_id,
                result->Err_0,
            ),
    {
        match result {
            Ok(_) => Ok(()),
            Err(error) => Err(
                Illusion::General(
                    format_page_flip_error(self.drm.crtc_id, self.drm.connector_id, error),
                ),
            ),
        }
    }

    /// Creates the state of this output anew, for the same device and with the
    /// same identifier. What the old state remembered of framebuffers is not
    /// taken over.
    pub fn recreate(&self, connector: Option<Connector>) -> (made: Result<DrmOutput, Illusion>)
        ensures
            made is Ok <==> connector is Some && connector->0.modes@.len() > 0,
            made is Err ==> made->Err_0.text() == "Failed to get mode for connector"@,
            made is Ok ==> {
                let output = made->Ok_0;
                &&& output.id() == self.id()
                &&& output.drm().same_as(&self.drm())
                &&& output.mode() == connector->0.modes@[0]
                &&& output.framebuffers() == Map::<u32, u32>::empty()
                &&& output.locked() is None
                &&& output.framebuffer() == INVALID_FRAMEBUFFER
                &&& output.phase() == SwapPhase::Idle
                &&& output.wf()
            },
    {
        DrmOutput::new(self.drm.duplicate(), self.id, connector)
    }
}

/// A buffer object gets at most one framebuffer. Once a framebuffer is remembered
/// for a buffer object, whatever swaps follow, a swap to that buffer object asks
/// for no other framebuffer: it takes the one that is remembered.
pub proof fn lemma_framebuffer_once(before: DrmOutput, after: DrmOutput, bo: BufferObject)
    requires
        before.framebuffers().contains_key(bo.handle),
        before.framebuffers_kept_by(&after),
    ensures
        after.choice_for(bo) == FramebufferChoice::Known(before.framebuffers()[bo.handle]),
{
}

/// What is remembered of framebuffers over some steps and then over some more
/// is remembered over all of them.
pub proof fn lemma_framebuffers_kept_on(first: DrmOutput, second: DrmOutput, third: DrmOutput)
    requires
        first.framebuffers_kept_by(&second),
        second.framebuffers_kept_by(&third),
    ensures
        first.framebuffers_kept_by(&third),
{
    assert forall|handle: u32| #[trigger]
        first.framebuffers().contains_key(handle) implies third.framebuffers().contains_key(handle)
        && third.framebuffers()[handle] == first.framebuffers()[handle] by {
        assert(second.framebuffers().contains_key(handle));
    }
}

} // verus!
