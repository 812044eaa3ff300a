//! The table that tells which client owns which surface.

use crate::defs::{EventHandlerId, SurfaceId};
use std::collections::HashMap;
use vstd::prelude::*;

verus! {

broadcast use vstd::std_specs::hash::group_hash_axioms;

/// Shared knowledge between the clients' proxies and the engine: the owner of each
/// surface, the DRM device in use and the client that asked for a screenshot.
///
/// It holds identifiers only, never a reference back to a client.
pub struct Mediator {
    sid_to_cid: HashMap<u64, EventHandlerId>,
    drm_device: Option<(i32, String)>,
    screenshooter: Option<EventHandlerId>,
}

impl Mediator {
    /// The owner of each surface, keyed by the surface's identifier.
    pub closed spec fn owners(&self) -> Map<u64, EventHandlerId> {
        self.sid_to_cid@
    }

    /// The owner of `sid`, or `None`.
    pub open spec fn owner(&self, sid: SurfaceId) -> Option<EventHandlerId> {
        if self.owners().contains_key(sid.value) {
            Some(self.owners()[sid.value])
        } else {
            None
        }
    }

    /// File descriptor and path of the DRM device, once known.
    pub closed spec fn drm_device(&self) -> Option<(i32, Seq<char>)> {
        match self.drm_device {
            Some((fd, path)) => Some((fd, path@)),
            None => None,
        }
    }

    /// The client that takes screenshots, once known.
    pub closed spec fn screenshooter(&self) -> Option<EventHandlerId> {
        self.screenshooter
    }

    pub fn new() -> (mediator: Mediator)
        ensures
            mediator.owners() == Map::<u64, EventHandlerId>::empty(),
            mediator.drm_device() is None,
            mediator.screenshooter() is None,
    {
        Mediator { sid_to_cid: HashMap::new(), drm_device: None, screenshooter: None }
    }

    /// Records that `sid` belongs to client `cid`.
    pub fn relate_sid_to_client(&mut self, sid: SurfaceId, cid: EventHandlerId)
        ensures
            final(self).owners() == old(self).owners().insert(sid.value, cid),
            final(self).drm_device() == old(self).drm_device(),
            final(self).screenshooter() == old(self).screenshooter(),
    {
        self.sid_to_cid.insert(sid.value, cid);
    }

    /// The client that `sid` belongs to.
    pub fn get_client_for_sid(&self, sid: SurfaceId) -> (cid: Option<EventHandlerId>)
        ensures
            cid == self.owner(sid),
    {
        match self.sid_to_cid.get(&sid.value) {
            Some(cid) => Some(*cid),
            None => None,
        }
    }

    /// Forgets `sid`.
    pub fn remove(&mut self, sid: SurfaceId)
        ensures
            final(self).owners() == old(self).owners().remove(sid.value),
            final(self).drm_device() == old(self).drm_device(),
            final(self).screenshooter() == old(self).screenshooter(),
    {
        self.sid_to_cid.remove(&sid.value);
    }

    /// Records the DRM device in use.
    pub fn set_drm_device(&mut self, fd: i32, path: String)
        ensures
            final(self).drm_device() == Some((fd, path@)),
            final(self).owners() == old(self).owners(),
            final(self).screenshooter() == old(self).screenshooter(),
    {
        self.drm_device = Some((fd, path));
    }

    /// File descriptor of the DRM device in use.
    pub fn get_drm_fd(&self) -> (fd: Option<i32>)
        ensures
            fd == match self.drm_device() {
                Some(device) => Some(device.0),
                None => None,
            },
    {
        match &self.drm_device {
            Some(device) => Some(device.0),
            None => None,
        }
    }

    /// Records the client that takes screenshots.
    pub fn set_screenshooter(&mut self, cid: EventHandlerId)
        ensures
            final(self).screenshooter() == Some(cid),
            final(self).owners() == old(self).owners(),
            final(self).drm_device() == old(self).drm_device(),
    {
        self.screenshooter = Some(cid);
    }

    /// The client that takes screenshots.
    pub fn get_screenshooter(&self) -> (cid: Option<EventHandlerId>)
        ensures
            cid == self.screenshooter(),
    {
        self.screenshooter
    }
}

} // verus!
