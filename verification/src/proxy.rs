//! The protocol state of one client: what objects it made, which surfaces and
//! buffers stand behind them, and what it is to be told.
//!
//! A proxy is a facade for the handlers of the client's requests, which it turns
//! into requests for the coordinator, and a gateway for what happens in the server,
//! which it turns into events for the client. It sends nothing itself: every
//! operation returns, in order, what is to be sent.

use crate::defs::{
    Area, Button, EventHandlerId, Key, KeyMods, MemoryPoolId, MemoryViewId, Milliseconds, ObjectId,
    Position, ShowReason, Size, SurfaceId, SurfaceState, WindowInfo, display_id,
};
use crate::global::Global;
use crate::mediator::Mediator;
use crate::messages::{ButtonState, Event, Request, ShellSurfaceOid, ToplevelStates};
use crate::registry::Registry;
use std::collections::BTreeMap;
use std::collections::HashMap;
use vstd::prelude::*;

verus! {

broadcast use {
    vstd::std_specs::hash::group_hash_axioms,
    vstd::std_specs::btree::group_btree_axioms,
    vstd::laws_cmp::group_laws_cmp,
};

/// What a proxy knows of one surface: the objects that its client made for it.
#[derive(Clone, Copy, PartialEq, Eq, Debug, Structural)]
pub struct SurfaceInfo {
    /// The `wl_surface`, for keyboard and pointer focus.
    pub surface_oid: Option<ObjectId>,
    /// The buffer that is attached and not released yet.
    pub buffer_oid: Option<ObjectId>,
    /// The frame callback that is asked for and not done yet.
    pub frame_oid: Option<ObjectId>,
    /// The shell binding, for reconfiguration.
    pub shell_surface_oid: Option<ShellSurfaceOid>,
}

impl SurfaceInfo {
    /// Nothing is known of the surface.
    pub open spec fn blank() -> SurfaceInfo {
        SurfaceInfo { surface_oid: None, buffer_oid: None, frame_oid: None, shell_surface_oid: None }
    }

    pub fn new() -> (info: SurfaceInfo)
        ensures
            info == SurfaceInfo::blank(),
    {
        SurfaceInfo { surface_oid: None, shell_surface_oid: None, buffer_oid: None, frame_oid: None }
    }
}

/// What a proxy knows of one buffer: the memory view behind it.
#[derive(Clone, Copy, PartialEq, Eq, Debug, Structural)]
pub struct BufferInfo {
    pub mvid: MemoryViewId,
}

impl BufferInfo {
    pub fn new(mvid: MemoryViewId) -> (info: BufferInfo)
        ensures
            info.mvid == mvid,
    {
        BufferInfo { mvid }
    }
}

/// The state of a proxy as plain mathematics.
pub struct ProxyView {
    /// The client.
    pub id: EventHandlerId,
    /// The globals, in the order in which they were registered.
    pub globals: Seq<Global>,
    /// The regions that the client defined, by object identifier.
    pub regions: Map<u32, Area>,
    /// The client's pointer objects, in the order in which they were added.
    pub pointers: Seq<ObjectId>,
    /// The client's keyboard objects, in the order in which they were added.
    pub keyboards: Seq<ObjectId>,
    /// The memory pools that the client owns, in the order in which they were made.
    pub pools: Seq<MemoryPoolId>,
    /// The client's surface objects, in the order in which they were first used,
    pub surface_oids: Seq<ObjectId>,
    /// and the surface behind each of them.
    pub surface_sids: Seq<SurfaceId>,
    /// What is known of each surface, by surface identifier.
    pub infos: Map<u64, SurfaceInfo>,
    /// What is known of each buffer, by object identifier.
    pub buffers: Map<u32, BufferInfo>,
    /// The serial that the next event takes.
    pub serial: u32,
}

/// `items` with `item` in it: added last, unless it is there already.
pub open spec fn with_item<T>(items: Seq<T>, item: T) -> Seq<T> {
    if items.contains(item) {
        items
    } else {
        items.push(item)
    }
}

/// `items` with no `item` in it, where `items` holds nothing twice.
pub open spec fn without_item<T>(items: Seq<T>, item: T) -> Seq<T> {
    if items.contains(item) {
        items.remove(items.index_of(item))
    } else {
        items
    }
}

/// The serial that is `count` steps after `serial`. Serials wrap round.
pub open spec fn serial_after(serial: u32, count: int) -> u32 {
    ((serial + count) % 0x1_0000_0000) as u32
}

impl ProxyView {
    /// No object is listed twice, and each surface object has its surface.
    pub open spec fn wf(&self) -> bool {
        &&& self.pointers.no_duplicates()
        &&& self.keyboards.no_duplicates()
        &&& self.pools.no_duplicates()
        &&& self.surface_oids.no_duplicates()
        &&& self.surface_oids.len() == self.surface_sids.len()
        &&& forall|i: int| 0 <= i < self.globals.len() ==> (#[trigger] self.globals[i]).name == i + 1
    }

    /// The surface behind a surface object.
    pub open spec fn sid_of(&self, oid: ObjectId) -> Option<SurfaceId> {
        if self.surface_oids.contains(oid) {
            Some(self.surface_sids[self.surface_oids.index_of(oid)])
        } else {
            None
        }
    }

    /// What is known of a surface.
    pub open spec fn info(&self, sid: SurfaceId) -> Option<SurfaceInfo> {
        if self.infos.contains_key(sid.value) {
            Some(self.infos[sid.value])
        } else {
            None
        }
    }

    /// What is known of a surface, nothing being known of one that is not listed.
    pub open spec fn info_or_blank(&self, sid: SurfaceId) -> SurfaceInfo {
        if self.infos.contains_key(sid.value) {
            self.infos[sid.value]
        } else {
            SurfaceInfo::blank()
        }
    }

    /// The `wl_surface` object of a surface that can take focus: the surface is
    /// valid, is listed, and its object is known.
    pub open spec fn focus_target(&self, sid: SurfaceId) -> Option<ObjectId> {
        if sid.is_valid() && self.infos.contains_key(sid.value) {
            self.infos[sid.value].surface_oid
        } else {
            None
        }
    }
}

/// The state of one client.
pub struct Proxy {
    id: EventHandlerId,
    globals: BTreeMap<u32, Global>,
    regions: HashMap<u32, Area>,
    pointer_oids: Registry<ObjectId>,
    keyboard_oids: Registry<ObjectId>,
    memory_pools: Registry<MemoryPoolId>,
    surface_oid_to_sid_dictionary: Registry<(ObjectId, SurfaceId)>,
    sid_to_surface_info_dictionary: HashMap<u64, SurfaceInfo>,
    buffer_oid_to_buffer_info_dictionary: HashMap<u32, BufferInfo>,
    last_global_id: u32,
    next_serial: u32,
}

/// The key under which an object identifier is kept.
pub open spec fn oid_key() -> spec_fn(ObjectId) -> u64 {
    |oid: ObjectId| oid.value as u64
}

/// The key under which a memory pool is kept.
pub open spec fn pool_key() -> spec_fn(MemoryPoolId) -> u64 {
    |mpid: MemoryPoolId| mpid.value
}

/// The key under which a surface object is kept with its surface.
pub open spec fn pair_key() -> spec_fn((ObjectId, SurfaceId)) -> u64 {
    |pair: (ObjectId, SurfaceId)| pair.0.value as u64
}

impl View for Proxy {
    type V = ProxyView;

    closed spec fn view(&self) -> ProxyView {
        ProxyView {
            id: self.id,
            globals: Seq::new(
                self.last_global_id as nat,
                |i: int| self.globals@[(i + 1) as u32],
            ),
            regions: self.regions@,
            pointers: self.pointer_oids.values(),
            keyboards: self.keyboard_oids.values(),
            pools: self.memory_pools.values(),
            surface_oids: self.surface_oid_to_sid_dictionary.values().map_values(
                |pair: (ObjectId, SurfaceId)| pair.0,
            ),
            surface_sids: self.surface_oid_to_sid_dictionary.values().map_values(
                |pair: (ObjectId, SurfaceId)| pair.1,
            ),
            infos: self.sid_to_surface_info_dictionary@,
            buffers: self.buffer_oid_to_buffer_info_dictionary@,
            serial: self.next_serial,
        }
    }
}

impl Proxy {
    /// The invariant of a proxy: no object is listed twice, and the globals are
    /// named one, two, three in the order of their registration.
    pub closed spec fn wf(&self) -> bool {
        &&& self.pointer_oids.wf()
        &&& self.pointer_oids.keyed_by(oid_key())
        &&& self.keyboard_oids.wf()
        &&& self.keyboard_oids.keyed_by(oid_key())
        &&& self.memory_pools.wf()
        &&& self.memory_pools.keyed_by(pool_key())
        &&& self.surface_oid_to_sid_dictionary.wf()
        &&& self.surface_oid_to_sid_dictionary.keyed_by(pair_key())
        &&& forall|name: u32| #[trigger]
            self.globals@.contains_key(name) <==> 1 <= name <= self.last_global_id
        &&& forall|name: u32|
            1 <= name <= self.last_global_id ==> (#[trigger] self.globals@[name]).name == name
    }

    /// The invariant, said of the view.
    pub proof fn lemma_view_wf(&self)
        requires
            self.wf(),
        ensures
            self@.wf(),
    {
        self.pointer_oids.lemma_lengths();
        self.keyboard_oids.lemma_lengths();
        self.memory_pools.lemma_lengths();
        self.surface_oid_to_sid_dictionary.lemma_lengths();
        self.pointer_oids.lemma_keyed(oid_key(), ObjectId { value: 0 });
        self.keyboard_oids.lemma_keyed(oid_key(), ObjectId { value: 0 });
        self.memory_pools.lemma_keyed(pool_key(), MemoryPoolId { value: 0 });
        let pairs = self.surface_oid_to_sid_dictionary.values();
        let keys = self.surface_oid_to_sid_dictionary.keys();
        let oids = self@.surface_oids;
        assert forall|a: int, b: int| 0 <= a < oids.len()
            && 0 <= b < oids.len()
            && a != b implies oids[a]
            != oids[b] by {
            assert(keys[a] == pair_key()(pairs[a]));
            assert(keys[b] == pair_key()(pairs[b]));
        }
    }

    /// Creates the state of a client that has made no object yet.
    pub fn new(id: EventHandlerId) -> (proxy: Proxy)
        ensures
            proxy.wf(),
            proxy@ == (ProxyView {
                id: id,
                globals: Seq::empty(),
                regions: Map::empty(),
                pointers: Seq::empty(),
                keyboards: Seq::empty(),
                pools: Seq::empty(),
                surface_oids: Seq::empty(),
                surface_sids: Seq::empty(),
                infos: Map::empty(),
                buffers: Map::empty(),
                serial: 0,
            }),
    {
        let proxy = Proxy {
            id: id,
            globals: BTreeMap::new(),
            regions: HashMap::new(),
            pointer_oids: Registry::new(),
            keyboard_oids: Registry::new(),
            memory_pools: Registry::new(),
            surface_oid_to_sid_dictionary: Registry::new(),
            sid_to_surface_info_dictionary: HashMap::new(),
            buffer_oid_to_buffer_info_dictionary: HashMap::new(),
            last_global_id: 0,
            next_serial: 0,
        };
        assert(proxy@.surface_oids =~= Seq::empty());
        assert(proxy@.surface_sids =~= Seq::empty());
        assert(proxy@.globals =~= Seq::empty());
        proxy
    }

    /// The client.
    pub fn get_id(&self) -> (id: EventHandlerId)
        ensures
            id == self@.id,
    {
        self.id
    }

    /// The globals, by their names. Walked by name they come in the order in which
    /// they are to be advertised: that of their registration.
    pub fn get_globals(&self) -> (globals: &BTreeMap<u32, Global>)
        requires
            self.wf(),
        ensures
            forall|name: u32| #[trigger]
                globals@.contains_key(name) <==> 1 <= name <= self@.globals.len(),
            forall|name: u32|
                1 <= name <= self@.globals.len() ==> #[trigger] globals@[name] == self@.globals[name - 1],
    {
        &self.globals
    }

    /// The global with the name `name`, if there is one.
    pub fn get_global(&self, name: u32) -> (global: Option<Global>)
        requires
            self.wf(),
        ensures
            global == (if 1 <= name <= self@.globals.len() {
                Some(self@.globals[name - 1])
            } else {
                None
            }),
    {
        match self.globals.get(&name) {
            Some(global) => Some(*global),
            None => None,
        }
    }

    /// Whether another global can be registered: names are not used twice, and
    /// there are no more of them than a `u32` holds.
    pub fn can_register_global(&self) -> (room: bool)
        requires
            self.wf(),
        ensures
            room == (self@.globals.len() < u32::MAX),
    {
        self.last_global_id < u32::MAX
    }

    /// Registers a global under the next free name. Names count from one.
    pub fn register_global(&mut self, global: Global)
        requires
            old(self).wf(),
            old(self)@.globals.len() < u32::MAX,
        ensures
            final(self).wf(),
            final(self)@ == (ProxyView {
                globals: old(self)@.globals.push(
                    Global { name: (old(self)@.globals.len() + 1) as u32, interface: global.interface },
                ),
                ..old(self)@
            }),
    {
        let mut global = global;
        self.last_global_id += 1;
        global.name = self.last_global_id;
        self.globals.insert(self.last_global_id, global);
        assert(self@.globals =~= old(self)@.globals.push(global));
    }
}

/// Puts `value` into a registry that is used as a set.
fn set_insert<V: Copy>(
    registry: &mut Registry<V>,
    key: u64,
    value: V,
    Ghost(key_of): Ghost<spec_fn(V) -> u64>,
)
    requires
        old(registry).wf(),
        old(registry).keyed_by(key_of),
        key == key_of(value),
        forall|a: V, b: V| #![trigger key_of(a), key_of(b)] key_of(a) == key_of(b) ==> a == b,
    ensures
        final(registry).wf(),
        final(registry).keyed_by(key_of),
        final(registry).values() == with_item(old(registry).values(), value),
{
    proof {
        registry.lemma_keyed(key_of, value);
        registry.lemma_lengths();
    }
    registry.insert(key, value);
    proof {
        if old(registry).has(key) {
            assert(registry.values() =~= old(registry).values());
        }
    }
}

/// Takes `value` out of a registry that is used as a set.
fn set_remove<V: Copy>(
    registry: &mut Registry<V>,
    key: u64,
    Ghost(value): Ghost<V>,
    Ghost(key_of): Ghost<spec_fn(V) -> u64>,
)
    requires
        old(registry).wf(),
        old(registry).keyed_by(key_of),
        key == key_of(value),
        forall|a: V, b: V| #![trigger key_of(a), key_of(b)] key_of(a) == key_of(b) ==> a == b,
    ensures
        final(registry).wf(),
        final(registry).keyed_by(key_of),
        final(registry).values() == without_item(old(registry).values(), value),
{
    proof {
        registry.lemma_keyed(key_of, value);
        registry.lemma_lengths();
    }
    registry.remove(key);
    proof {
        if old(registry).has(key) {
            let p = old(registry).position_of(key);
            registry.lemma_lengths();
            assert forall|i: int| 0 <= i < registry.keys().len() implies #[trigger] registry.keys()[i]
                == key_of(registry.values()[i]) by {
                let i0 = if i < p { i } else { i + 1 };
                assert(old(registry).keys()[i0] == key_of(old(registry).values()[i0]));
            }
        }
    }
}

impl Proxy {
    /// What the view says of a surface object is what the dictionary holds.
    proof fn lemma_dictionary(&self, oid: ObjectId)
        requires
            self.wf(),
        ensures
            self@.surface_oids.contains(oid) <==> self.surface_oid_to_sid_dictionary.has(oid.value as u64),
            self@.surface_oids.contains(oid) ==> {
                let p = self.surface_oid_to_sid_dictionary.position_of(oid.value as u64);
                &&& self@.surface_oids.index_of(oid) == p
                &&& 0 <= p < self.surface_oid_to_sid_dictionary.values().len()
                &&& self.surface_oid_to_sid_dictionary.values()[p] == (oid, self@.surface_sids[p])
            },
            self@.surface_oids.len() == self.surface_oid_to_sid_dictionary.values().len(),
            self@.surface_sids.len() == self.surface_oid_to_sid_dictionary.values().len(),
    {
        let dictionary = self.surface_oid_to_sid_dictionary;
        let keys = dictionary.keys();
        let pairs = dictionary.values();
        let oids = self@.surface_oids;
        dictionary.lemma_lengths();
        self.lemma_view_wf();
        if oids.contains(oid) {
            let i = oids.index_of(oid);
            assert(oids[i] == oid);
            assert(keys[i] == pair_key()(pairs[i]));
            dictionary.lemma_position(oid.value as u64, i);
        }
        if keys.contains(oid.value as u64) {
            let p = keys.index_of(oid.value as u64);
            assert(keys[p] == pair_key()(pairs[p]));
            assert(oids[p] == oid);
            assert(oids.contains(oid));
            let i = oids.index_of(oid);
            assert(oids[i] == oid);
        }
    }

    /// The surface behind a surface object.
    pub fn find_sid(&self, oid: ObjectId) -> (sid: Option<SurfaceId>)
        requires
            self.wf(),
        ensures
            sid == self@.sid_of(oid),
    {
        proof {
            self.lemma_dictionary(oid);
        }
        match self.surface_oid_to_sid_dictionary.get(oid.value as u64) {
            Some(pair) => Some(pair.1),
            None => None,
        }
    }

    /// What is known of a surface.
    pub fn find_info(&self, sid: SurfaceId) -> (info: Option<SurfaceInfo>)
        ensures
            info == self@.info(sid),
    {
        match self.sid_to_surface_info_dictionary.get(&sid.value) {
            Some(info) => Some(*info),
            None => None,
        }
    }

    /// What is known of a surface, nothing being known of one that is not listed.
    fn info_or_blank(&self, sid: SurfaceId) -> (info: SurfaceInfo)
        ensures
            info == self@.info_or_blank(sid),
    {
        match self.sid_to_surface_info_dictionary.get(&sid.value) {
            Some(info) => *info,
            None => SurfaceInfo::new(),
        }
    }

    /// Takes the next serial of the client. Every serial that the client is sent
    /// is taken here, so that the client sees one sequence of them; after the
    /// greatest serial comes zero.
    pub fn get_next_serial(&mut self) -> (serial: u32)
        ensures
            serial == old(self)@.serial,
            final(self)@ == (ProxyView { serial: serial_after(old(self)@.serial, 1), ..old(self)@ }),
            old(self).wf() ==> final(self).wf(),
    {
        let serial = self.next_serial;
        self.next_serial = self.next_serial.wrapping_add(1);
        serial
    }
}

/// What is known of surfaces once `sid` has the surface object `oid`: a surface
/// that has an object keeps it.
pub open spec fn with_surface_oid(
    view: ProxyView,
    sid: SurfaceId,
    oid: ObjectId,
) -> Map<u64, SurfaceInfo> {
    let info = view.info_or_blank(sid);
    if info.surface_oid is None {
        view.infos.insert(sid.value, SurfaceInfo { surface_oid: Some(oid), ..info })
    } else {
        view.infos.insert(sid.value, info)
    }
}

/// What is known of surfaces once `sid` has the shell binding `oid`: a surface
/// that has a binding keeps it.
pub open spec fn with_shell_surface_oid(
    view: ProxyView,
    sid: SurfaceId,
    oid: ShellSurfaceOid,
) -> Map<u64, SurfaceInfo> {
    let info = view.info_or_blank(sid);
    if info.shell_surface_oid is None {
        view.infos.insert(sid.value, SurfaceInfo { shell_surface_oid: Some(oid), ..info })
    } else {
        view.infos.insert(sid.value, info)
    }
}

/// What is known of surfaces once `sid` has the frame callback `oid`: a surface
/// that waits for a callback keeps that one.
pub open spec fn with_frame_oid(
    view: ProxyView,
    sid: SurfaceId,
    oid: ObjectId,
) -> Map<u64, SurfaceInfo> {
    let info = view.info_or_blank(sid);
    if info.frame_oid is None {
        view.infos.insert(sid.value, SurfaceInfo { frame_oid: Some(oid), ..info })
    } else {
        view.infos.insert(sid.value, info)
    }
}

/// What is known of surfaces once the buffer `oid` is attached to `sid`.
pub open spec fn with_buffer_oid(
    view: ProxyView,
    sid: SurfaceId,
    oid: ObjectId,
) -> Map<u64, SurfaceInfo> {
    let info = view.info_or_blank(sid);
    view.infos.insert(sid.value, SurfaceInfo { buffer_oid: Some(oid), ..info })
}

/// The release of the buffer that is attached to `sid`, if one is.
pub open spec fn release_of_attached(view: ProxyView, sid: SurfaceId) -> Seq<Event> {
    match view.info_or_blank(sid).buffer_oid {
        Some(buffer) => seq![Event::BufferRelease { buffer }],
        None => Seq::empty(),
    }
}

/// The surface objects and their surfaces once `oid` stands for `sid`: an object
/// that is listed keeps its place.
pub open spec fn with_surface(
    view: ProxyView,
    oid: ObjectId,
    sid: SurfaceId,
) -> (Seq<ObjectId>, Seq<SurfaceId>) {
    if view.surface_oids.contains(oid) {
        (view.surface_oids, view.surface_sids.update(view.surface_oids.index_of(oid), sid))
    } else {
        (view.surface_oids.push(oid), view.surface_sids.push(sid))
    }
}

/// Helpers that record which objects belong to a surface.
impl Proxy {
    /// Records the surface object of a surface.
    fn relate_sid_with_surface(&mut self, sid: SurfaceId, oid: ObjectId)
        requires
            old(self).wf(),
        ensures
            final(self).wf(),
            final(self)@ == (ProxyView {
                surface_oids: with_surface(old(self)@, oid, sid).0,
                surface_sids: with_surface(old(self)@, oid, sid).1,
                infos: with_surface_oid(old(self)@, sid, oid),
                ..old(self)@
            }),
    {
        proof {
            self.lemma_dictionary(oid);
            self.surface_oid_to_sid_dictionary.lemma_lengths();
        }
        self.surface_oid_to_sid_dictionary.insert(oid.value as u64, (oid, sid));
        let mut info = self.info_or_blank(sid);
        if info.surface_oid.is_none() {
            info.surface_oid = Some(oid);
        }
        self.sid_to_surface_info_dictionary.insert(sid.value, info);
        proof {
            let before = old(self).surface_oid_to_sid_dictionary;
            let after = self.surface_oid_to_sid_dictionary;
            after.lemma_lengths();
            if before.has(oid.value as u64) {
                let p = before.position_of(oid.value as u64);
                assert forall|i: int| 0 <= i < after.keys().len() implies #[trigger] after.keys()[i]
                    == pair_key()(after.values()[i]) by {
                    assert(before.keys()[i] == pair_key()(before.values()[i]));
                }
                assert(self@.surface_oids =~= old(self)@.surface_oids);
                assert(self@.surface_sids =~= old(self)@.surface_sids.update(p, sid));
            } else {
                assert forall|i: int| 0 <= i < after.keys().len() implies #[trigger] after.keys()[i]
                    == pair_key()(after.values()[i]) by {
                    if i < before.keys().len() {
                        assert(before.keys()[i] == pair_key()(before.values()[i]));
                    }
                }
                assert(self@.surface_oids =~= old(self)@.surface_oids.push(oid));
                assert(self@.surface_sids =~= old(self)@.surface_sids.push(sid));
            }
        }
    }

    /// Records the shell binding of a surface.
    fn relate_sid_with_shell_surface(&mut self, sid: SurfaceId, oid: ShellSurfaceOid)
        requires
            old(self).wf(),
        ensures
            final(self).wf(),
            final(self)@ == (ProxyView {
                infos: with_shell_surface_oid(old(self)@, sid, oid),
                ..old(self)@
            }),
    {
        let mut info = self.info_or_blank(sid);
        if info.shell_surface_oid.is_none() {
            info.shell_surface_oid = Some(oid);
        }
        self.sid_to_surface_info_dictionary.insert(sid.value, info);
    }

    /// Records the buffer that is attached to a surface.
    fn relate_sid_with_buffer(&mut self, sid: SurfaceId, oid: ObjectId)
        requires
            old(self).wf(),
        ensures
            final(self).wf(),
            final(self)@ == (ProxyView { infos: with_buffer_oid(old(self)@, sid, oid), ..old(self)@ }),
    {
        let mut info = self.info_or_blank(sid);
        info.buffer_oid = Some(oid);
        self.sid_to_surface_info_dictionary.insert(sid.value, info);
    }

    /// Records the frame callback that a surface waits for.
    fn relate_sid_with_frame(&mut self, sid: SurfaceId, oid: ObjectId)
        requires
            old(self).wf(),
        ensures
            final(self).wf(),
            final(self)@ == (ProxyView { infos: with_frame_oid(old(self)@, sid, oid), ..old(self)@ }),
    {
        let mut info = self.info_or_blank(sid);
        if info.frame_oid.is_none() {
            info.frame_oid = Some(oid);
        }
        self.sid_to_surface_info_dictionary.insert(sid.value, info);
    }
}

/// The facade: what the handlers of a client's requests ask of the proxy. Each
/// operation returns the requests to make on the coordinator, in order.
impl Proxy {
    /// Takes note of a memory pool that the coordinator made for this client, so
    /// that the pool is destroyed when the client goes.
    pub fn create_memory_pool(&mut self, mpid: MemoryPoolId) -> (made: MemoryPoolId)
        requires
            old(self).wf(),
        ensures
            final(self).wf(),
            made == mpid,
            final(self)@ == (ProxyView { pools: with_item(old(self)@.pools, mpid), ..old(self)@ }),
    {
        set_insert(&mut self.memory_pools, mpid.value, mpid, Ghost(pool_key()));
        mpid
    }

    /// Forgets a memory pool and asks for its destruction.
    pub fn destroy_memory_pool(&mut self, mpid: MemoryPoolId) -> (requests: Vec<Request>)
        requires
            old(self).wf(),
        ensures
            final(self).wf(),
            requests@ == seq![Request::DestroyMemoryPool { mpid }],
            final(self)@ == (ProxyView { pools: without_item(old(self)@.pools, mpid), ..old(self)@ }),
    {
        set_remove(&mut self.memory_pools, mpid.value, Ghost(mpid), Ghost(pool_key()));
        let mut requests: Vec<Request> = Vec::new();
        requests.push(Request::DestroyMemoryPool { mpid });
        requests
    }

    /// Takes note of the memory view that the coordinator made for the buffer
    /// `buffer_oid`, if it made one.
    pub fn create_memory_view(&mut self, buffer_oid: ObjectId, view: Option<MemoryViewId>) -> (made:
        Option<MemoryViewId>)
        requires
            old(self).wf(),
        ensures
            final(self).wf(),
            made == view,
            final(self)@ == (match view {
                Some(mvid) => ProxyView {
                    buffers: old(self)@.buffers.insert(buffer_oid.value, BufferInfo { mvid }),
                    ..old(self)@
                },
                None => old(self)@,
            }),
    {
        if let Some(mvid) = view {
            self.buffer_oid_to_buffer_info_dictionary.insert(buffer_oid.value, BufferInfo::new(mvid));
        }
        view
    }

    /// Defines the region `region_oid`.
    pub fn define_region(&mut self, region_oid: ObjectId, region: Area)
        requires
            old(self).wf(),
        ensures
            final(self).wf(),
            final(self)@ == (ProxyView {
                regions: old(self)@.regions.insert(region_oid.value, region),
                ..old(self)@
            }),
    {
        self.regions.insert(region_oid.value, region);
    }

    /// Forgets the region `region_oid`.
    pub fn undefine_region(&mut self, region_oid: ObjectId)
        requires
            old(self).wf(),
        ensures
            final(self).wf(),
            final(self)@ == (ProxyView {
                regions: old(self)@.regions.remove(region_oid.value),
                ..old(self)@
            }),
    {
        self.regions.remove(&region_oid.value);
    }

    /// Adds a pointer object of the client.
    pub fn add_pointer_oid(&mut self, pointer_oid: ObjectId)
        requires
            old(self).wf(),
        ensures
            final(self).wf(),
            final(self)@ == (ProxyView {
                pointers: with_item(old(self)@.pointers, pointer_oid),
                ..old(self)@
            }),
    {
        set_insert(&mut self.pointer_oids, pointer_oid.value as u64, pointer_oid, Ghost(oid_key()));
    }

    /// Removes a pointer object of the client.
    pub fn remove_pointer_oid(&mut self, pointer_oid: ObjectId)
        requires
            old(self).wf(),
        ensures
            final(self).wf(),
            final(self)@ == (ProxyView {
                pointers: without_item(old(self)@.pointers, pointer_oid),
                ..old(self)@
            }),
    {
        set_remove(
            &mut self.pointer_oids,
            pointer_oid.value as u64,
            Ghost(pointer_oid),
            Ghost(oid_key()),
        );
    }

    /// Adds a keyboard object of the client.
    pub fn add_keyboard_oid(&mut self, keyboard_oid: ObjectId)
        requires
            old(self).wf(),
        ensures
            final(self).wf(),
            final(self)@ == (ProxyView {
                keyboards: with_item(old(self)@.keyboards, keyboard_oid),
                ..old(self)@
            }),
    {
        set_insert(&mut self.keyboard_oids, keyboard_oid.value as u64, keyboard_oid, Ghost(oid_key()));
    }

    /// Removes a keyboard object of the client.
    pub fn remove_keyboard_oid(&mut self, keyboard_oid: ObjectId)
        requires
            old(self).wf(),
        ensures
            final(self).wf(),
            final(self)@ == (ProxyView {
                keyboards: without_item(old(self)@.keyboards, keyboard_oid),
                ..old(self)@
            }),
    {
        set_remove(
            &mut self.keyboard_oids,
            keyboard_oid.value as u64,
            Ghost(keyboard_oid),
            Ghost(oid_key()),
        );
    }

    /// Makes a region that the client defined the input region of a surface. A
    /// region that is not defined changes nothing.
    pub fn set_input_region(&self, sid: SurfaceId, region_oid: ObjectId) -> (requests: Vec<Request>)
        ensures
            requests@ == (if self@.regions.contains_key(region_oid.value) {
                let region = self@.regions[region_oid.value];
                seq![
                    Request::SetSurfaceOffset { sid, offset: region.pos },
                    Request::SetSurfaceRequestedSize { sid, size: region.size },
                ]
            } else {
                Seq::<Request>::empty()
            }),
    {
        let mut requests: Vec<Request> = Vec::new();
        if let Some(region) = self.regions.get(&region_oid.value) {
            requests.push(Request::SetSurfaceOffset { sid, offset: region.pos });
            requests.push(Request::SetSurfaceRequestedSize { sid, size: region.size });
        }
        requests
    }

    /// Takes note of the surface `sid` that the coordinator made for the surface
    /// object `oid`, and tells the mediator that it belongs to this client.
    pub fn create_surface(
        &mut self,
        mediator: &mut Mediator,
        oid: ObjectId,
        sid: SurfaceId,
    ) -> (made:
        SurfaceId)
        requires
            old(self).wf(),
        ensures
            final(self).wf(),
            made == sid,
            final(self)@ == (ProxyView {
                surface_oids: with_surface(old(self)@, oid, sid).0,
                surface_sids: with_surface(old(self)@, oid, sid).1,
                infos: with_surface_oid(old(self)@, sid, oid),
                ..old(self)@
            }),
            final(mediator).owners() == old(mediator).owners().insert(sid.value, old(self)@.id),
            final(mediator).drm_device() == old(mediator).drm_device(),
            final(mediator).screenshooter() == old(mediator).screenshooter(),
    {
        self.relate_sid_with_surface(sid, oid);
        mediator.relate_sid_to_client(sid, self.id);
        sid
    }

    /// Asks for the destruction of a surface.
    pub fn destroy_surface(&self, sid: SurfaceId) -> (requests: Vec<Request>)
        ensures
            requests@ == seq![Request::DestroySurface { sid }],
    {
        let mut requests: Vec<Request> = Vec::new();
        requests.push(Request::DestroySurface { sid });
        requests
    }

    /// Attaches a buffer to a surface. A buffer that was attached to the surface
    /// before, and is not released yet, is released now. A buffer object that is
    /// not known changes nothing.
    pub fn attach(&mut self, buffer_oid: ObjectId, sid: SurfaceId, x: i32, y: i32) -> (out: (
        Vec<Event>,
        Vec<Request>,
    ))
        requires
            old(self).wf(),
        ensures
            final(self).wf(),
            old(self)@.buffers.contains_key(buffer_oid.value) ==> {
                &&& out.0@ == release_of_attached(old(self)@, sid)
                &&& out.1@ == seq![
                    Request::Attach { mvid: old(self)@.buffers[buffer_oid.value].mvid, sid },
                ]
                &&& final(self)@ == (ProxyView {
                    infos: with_buffer_oid(old(self)@, sid, buffer_oid),
                    ..old(self)@
                })
            },
            !old(self)@.buffers.contains_key(buffer_oid.value) ==> {
                &&& out.0@ == Seq::<Event>::empty()
                &&& out.1@ == Seq::<Request>::empty()
                &&& final(self)@ == old(self)@
            },
    {
        let mut events: Vec<Event> = Vec::new();
        let mut requests: Vec<Request> = Vec::new();
        let found = match self.buffer_oid_to_buffer_info_dictionary.get(&buffer_oid.value) {
            Some(info) => Some(*info),
            None => None,
        };
        if let Some(info) = found {
            if let Some(buffer) = self.info_or_blank(sid).buffer_oid {
                events.push(Event::BufferRelease { buffer });
            }
            self.relate_sid_with_buffer(sid, buffer_oid);
            requests.push(Request::Attach { mvid: info.mvid, sid });
        }
        (events, requests)
    }

    /// Asks for the commit of the pending state of a surface.
    pub fn commit(&self, sid: SurfaceId) -> (requests: Vec<Request>)
        ensures
            requests@ == seq![Request::CommitSurface { sid }],
    {
        let mut requests: Vec<Request> = Vec::new();
        requests.push(Request::CommitSurface { sid });
        requests
    }

    /// Registers the frame callback of a surface. A surface that waits for a
    /// callback already keeps that one.
    pub fn set_frame(&mut self, sid: SurfaceId, frame_oid: ObjectId)
        requires
            old(self).wf(),
        ensures
            final(self).wf(),
            final(self)@ == (ProxyView { infos: with_frame_oid(old(self)@, sid, frame_oid), ..old(self)@ }),
    {
        self.relate_sid_with_frame(sid, frame_oid);
    }

    /// Shows the surface behind a surface object in a shell. A surface object that
    /// is not known changes nothing.
    pub fn show(
        &mut self,
        surface_oid: ObjectId,
        shell_surface_oid: ShellSurfaceOid,
        reason: ShowReason,
    ) -> (requests: Vec<Request>)
        requires
            old(self).wf(),
        ensures
            final(self).wf(),
            match old(self)@.sid_of(surface_oid) {
                Some(sid) => {
                    &&& requests@ == seq![Request::ShowSurface { sid, reason }]
                    &&& final(self)@ == (ProxyView {
                        infos: with_shell_surface_oid(old(self)@, sid, shell_surface_oid),
                        ..old(self)@
                    })
                },
                None => requests@ == Seq::<Request>::empty() && final(self)@ == old(self)@,
            },
    {
        let mut requests: Vec<Request> = Vec::new();
        if let Some(sid) = self.find_sid(surface_oid) {
            self.relate_sid_with_shell_surface(sid, shell_surface_oid);
            requests.push(Request::ShowSurface { sid, reason });
        }
        requests
    }

    /// Asks for a new offset of a surface.
    pub fn set_offset(&self, sid: SurfaceId, offset: Position) -> (requests: Vec<Request>)
        ensures
            requests@ == seq![Request::SetSurfaceOffset { sid, offset }],
    {
        let mut requests: Vec<Request> = Vec::new();
        requests.push(Request::SetSurfaceOffset { sid, offset });
        requests
    }

    /// Asks for a new requested size of a surface.
    pub fn set_requested_size(&self, sid: SurfaceId, size: Size) -> (requests: Vec<Request>)
        ensures
            requests@ == seq![Request::SetSurfaceRequestedSize { sid, size }],
    {
        let mut requests: Vec<Request> = Vec::new();
        requests.push(Request::SetSurfaceRequestedSize { sid, size });
        requests
    }

    /// Asks for a new position of a surface relative to its parent.
    pub fn set_relative_position(
        &self,
        sid: SurfaceId,
        offset: Position,
    ) -> (requests: Vec<Request>)
        ensures
            requests@ == seq![Request::SetSurfaceRelativePosition { sid, offset }],
    {
        let mut requests: Vec<Request> = Vec::new();
        requests.push(Request::SetSurfaceRelativePosition { sid, offset });
        requests
    }

    /// Asks to make a surface the child of another.
    pub fn relate(&self, sid: SurfaceId, parent_sid: SurfaceId) -> (requests: Vec<Request>)
        ensures
            requests@ == seq![Request::RelateSurfaces { sid, parent_sid }],
    {
        let mut requests: Vec<Request> = Vec::new();
        requests.push(Request::RelateSurfaces { sid, parent_sid });
        requests
    }

    /// Asks to part a surface from its parent.
    pub fn unrelate(&self, sid: SurfaceId) -> (requests: Vec<Request>)
        ensures
            requests@ == seq![Request::UnrelateSurface { sid }],
    {
        let mut requests: Vec<Request> = Vec::new();
        requests.push(Request::UnrelateSurface { sid });
        requests
    }

    /// Makes the surface behind a surface object the cursor, with the given hot
    /// spot. A surface object that is not known asks for nothing.
    pub fn set_as_cursor(
        &self,
        surface_oid: ObjectId,
        hotspot_x: isize,
        hotspot_y: isize,
    ) -> (requests: Vec<Request>)
        requires
            self.wf(),
        ensures
            requests@ == (match self@.sid_of(surface_oid) {
                Some(sid) => seq![
                    Request::SetSurfaceOffset { sid, offset: Position { x: hotspot_x, y: hotspot_y } },
                    Request::SetSurfaceAsCursor { sid },
                ],
                None => Seq::<Request>::empty(),
            }),
    {
        let mut requests: Vec<Request> = Vec::new();
        if let Some(sid) = self.find_sid(surface_oid) {
            requests.push(
                Request::SetSurfaceOffset { sid, offset: Position { x: hotspot_x, y: hotspot_y } },
            );
            requests.push(Request::SetSurfaceAsCursor { sid });
        }
        requests
    }
}

/// Taking `a` serials and then `b` is taking `a + b`.
pub proof fn lemma_serial_after_add(serial: u32, a: int, b: int)
    requires
        0 <= a,
        0 <= b,
    ensures
        serial_after(serial_after(serial, a), b) == serial_after(serial, a + b),
{
    let m = 0x1_0000_0000int;
    let s = serial as int;
    assert(((s + a) % m + b) % m == (s + a + b) % m) by {
        vstd::arithmetic::div_mod::lemma_add_mod_noop(s + a, b, m);
        vstd::arithmetic::div_mod::lemma_mod_twice(s + a, m);
        vstd::arithmetic::div_mod::lemma_add_mod_noop((s + a) % m, b, m);
    }
}

/// `wl_pointer.leave` for each pointer object, each with a serial of its own.
pub open spec fn pointer_leave_events(
    pointers: Seq<ObjectId>,
    serial: u32,
    surface: ObjectId,
) -> Seq<Event> {
    Seq::new(
        pointers.len(),
        |i: int| Event::PointerLeave { pointer: pointers[i], serial: serial_after(serial, i), surface },
    )
}

/// `wl_pointer.enter` for each pointer object, each with a serial of its own.
pub open spec fn pointer_enter_events(
    pointers: Seq<ObjectId>,
    serial: u32,
    surface: ObjectId,
    position: Position,
) -> Seq<Event> {
    Seq::new(
        pointers.len(),
        |i: int|
            Event::PointerEnter {
                pointer: pointers[i],
                serial: serial_after(serial, i),
                surface,
                x: position.x,
                y: position.y,
            },
    )
}

/// What a client is told when the pointer focus goes from `old_sid` to `new_sid`:
/// a leave on each pointer object if the old surface is one of the client's, then
/// an enter on each if the new one is.
pub open spec fn pointer_focus_events(
    view: ProxyView,
    old_sid: SurfaceId,
    new_sid: SurfaceId,
    position: Position,
) -> Seq<Event> {
    let leaves = match view.focus_target(old_sid) {
        Some(surface) => pointer_leave_events(view.pointers, view.serial, surface),
        None => Seq::empty(),
    };
    let enters = match view.focus_target(new_sid) {
        Some(surface) => pointer_enter_events(
            view.pointers,
            serial_after(view.serial, leaves.len() as int),
            surface,
            position,
        ),
        None => Seq::empty(),
    };
    leaves + enters
}

/// `wl_pointer.motion` for each pointer object.
pub open spec fn pointer_motion_events(
    pointers: Seq<ObjectId>,
    position: Position,
    time: Milliseconds,
) -> Seq<Event> {
    Seq::new(
        pointers.len(),
        |i: int|
            Event::PointerMotion {
                pointer: pointers[i],
                time: time.value as u32,
                x: position.x,
                y: position.y,
            },
    )
}

/// A button is released when its value is zero, and pressed otherwise.
pub open spec fn button_state(button: Button) -> ButtonState {
    if button.value == 0 {
        ButtonState::Released
    } else {
        ButtonState::Pressed
    }
}

/// `wl_pointer.button` for each pointer object, all with the one serial.
pub open spec fn pointer_button_events(
    pointers: Seq<ObjectId>,
    serial: u32,
    button: Button,
) -> Seq<Event> {
    Seq::new(
        pointers.len(),
        |i: int|
            Event::PointerButton {
                pointer: pointers[i],
                serial,
                time: button.time.value as u32,
                button: button.code as u32,
                state: button_state(button),
            },
    )
}

/// What a client is told when a frame of a surface is done: that the frame
/// callback is done and its object gone, if the surface waits for one, and then
/// that the attached buffer is released, if one is attached.
pub open spec fn surface_frame_events(
    view: ProxyView,
    sid: SurfaceId,
    time: Milliseconds,
) -> Seq<Event> {
    match view.info(sid) {
        Some(info) => (match info.frame_oid {
            Some(callback) => seq![
                Event::CallbackDone { callback, data: time.value as u32 },
                Event::DisplayDeleteId { display: ObjectId { value: 1 }, id: callback.value },
            ],
            None => Seq::empty(),
        }) + (match info.buffer_oid {
            Some(buffer) => seq![Event::BufferRelease { buffer }],
            None => Seq::empty(),
        }),
        None => Seq::empty(),
    }
}

/// What is known of surfaces after a frame of `sid` is done: the surface waits
/// for no callback and has no buffer attached.
pub open spec fn after_surface_frame(view: ProxyView, sid: SurfaceId) -> Map<u64, SurfaceInfo> {
    match view.info(sid) {
        Some(info) => view.infos.insert(
            sid.value,
            SurfaceInfo { frame_oid: None, buffer_oid: None, ..info },
        ),
        None => view.infos,
    }
}

/// What a client is told when a surface is reconfigured. In the classic shell, the
/// new size. In the xdg shell, the new size with the states of the toplevel
/// (maximized if the flag is set, activated if the surface has the keyboard
/// focus), and then the configure of the xdg surface, with a serial.
pub open spec fn reconfigure_events(
    view: ProxyView,
    serial: u32,
    sid: SurfaceId,
    size: Size,
    state_flags: SurfaceState,
    focused: SurfaceId,
) -> Seq<Event> {
    match view.info_or_blank(sid).shell_surface_oid {
        Some(ShellSurfaceOid::Shell(shell_surface)) => seq![
            Event::ShellSurfaceConfigure {
                shell_surface,
                width: size.width as i32,
                height: size.height as i32,
            },
        ],
        Some(ShellSurfaceOid::ZxdgToplevelV6(surface, toplevel)) => seq![
            Event::XdgToplevelConfigure {
                toplevel,
                width: size.width as i32,
                height: size.height as i32,
                states: ToplevelStates { maximized: state_flags.maximized, activated: sid == focused },
            },
            Event::XdgSurfaceConfigure { surface, serial },
        ],
        None => Seq::empty(),
    }
}

/// How many serials a reconfiguration takes.
pub open spec fn reconfigure_serials(view: ProxyView, sid: SurfaceId) -> int {
    match view.info_or_blank(sid).shell_surface_oid {
        Some(ShellSurfaceOid::ZxdgToplevelV6(_, _)) => 1,
        _ => 0,
    }
}

/// The gateway: what happens in the server, told to the client. Each operation
/// returns the events to send to the client, in order.
impl Proxy {
    /// The `wl_surface` object of a surface that can take focus.
    fn focus_target(&self, sid: SurfaceId) -> (target: Option<ObjectId>)
        ensures
            target == self@.focus_target(sid),
    {
        if sid.is_valid() {
            match self.sid_to_surface_info_dictionary.get(&sid.value) {
                Some(info) => info.surface_oid,
                None => None,
            }
        } else {
            None
        }
    }

    /// Adds a leave for each pointer object.
    fn emit_pointer_leaves(&mut self, events: &mut Vec<Event>, surface: ObjectId)
        requires
            old(self).wf(),
        ensures
            final(self).wf(),
            final(events)@ == old(events)@ + pointer_leave_events(
                old(self)@.pointers,
                old(self)@.serial,
                surface,
            ),
            final(self)@ == (ProxyView {
                serial: serial_after(old(self)@.serial, old(self)@.pointers.len() as int),
                ..old(self)@
            }),
    {
        let ghost base = self@.serial;
        let ghost all = pointer_leave_events(self@.pointers, base, surface);
        let n = self.pointer_oids.len();
        let mut i: usize = 0;
        assert(events@ =~= old(events)@ + all.subrange(0, 0));
        while i < n
            invariant
                self.wf(),
                i <= n,
                n == old(self)@.pointers.len(),
                all == pointer_leave_events(old(self)@.pointers, base, surface),
                base == old(self)@.serial,
                self@ == (ProxyView { serial: serial_after(base, i as int), ..old(self)@ }),
                events@ == old(events)@ + all.subrange(0, i as int),
            decreases n - i,
        {
            let pointer = *self.pointer_oids.value_at(i);
            let serial = self.get_next_serial();
            events.push(Event::PointerLeave { pointer, serial, surface });
            proof {
                lemma_serial_after_add(base, i as int, 1);
                assert(events@ =~= old(events)@ + all.subrange(0, i + 1));
            }
            i += 1;
        }
        assert(all.subrange(0, n as int) =~= all);
    }

    /// Adds an enter for each pointer object.
    fn emit_pointer_enters(
        &mut self,
        events: &mut Vec<Event>,
        surface: ObjectId,
        position: Position,
    )
        requires
            old(self).wf(),
        ensures
            final(self).wf(),
            final(events)@ == old(events)@ + pointer_enter_events(
                old(self)@.pointers,
                old(self)@.serial,
                surface,
                position,
            ),
            final(self)@ == (ProxyView {
                serial: serial_after(old(self)@.serial, old(self)@.pointers.len() as int),
                ..old(self)@
            }),
    {
        let ghost base = self@.serial;
        let ghost all = pointer_enter_events(self@.pointers, base, surface, position);
        let n = self.pointer_oids.len();
        let mut i: usize = 0;
        assert(events@ =~= old(events)@ + all.subrange(0, 0));
        while i < n
            invariant
                self.wf(),
                i <= n,
                n == old(self)@.pointers.len(),
                all == pointer_enter_events(old(self)@.pointers, base, surface, position),
                base == old(self)@.serial,
                self@ == (ProxyView { serial: serial_after(base, i as int), ..old(self)@ }),
                events@ == old(events)@ + all.subrange(0, i as int),
            decreases n - i,
        {
            let pointer = *self.pointer_oids.value_at(i);
            let serial = self.get_next_serial();
            events.push(
                Event::PointerEnter { pointer, serial, surface, x: position.x, y: position.y },
            );
            proof {
                lemma_serial_after_add(base, i as int, 1);
                assert(events@ =~= old(events)@ + all.subrange(0, i + 1));
            }
            i += 1;
        }
        assert(all.subrange(0, n as int) =~= all);
    }

    /// An output was found: a client is told nothing of it.
    pub fn on_output_found(&self) -> (events: Vec<Event>)
        ensures
            events@ == Seq::<Event>::empty(),
    {
        Vec::new()
    }

    /// A frame of a surface was drawn: the frame callback is done and its object
    /// deleted, then the buffer is released, and the surface waits for neither any
    /// more.
    pub fn on_surface_frame(
        &mut self,
        sid: SurfaceId,
        milliseconds: Milliseconds,
    ) -> (events: Vec<Event>)
        requires
            old(self).wf(),
        ensures
            final(self).wf(),
            events@ == surface_frame_events(old(self)@, sid, milliseconds),
            final(self)@ == (ProxyView { infos: after_surface_frame(old(self)@, sid), ..old(self)@ }),
    {
        let mut events: Vec<Event> = Vec::new();
        if let Some(info) = self.find_info(sid) {
            let mut info = info;
            if let Some(callback) = info.frame_oid {
                events.push(Event::CallbackDone { callback, data: milliseconds.truncated() });
                events.push(Event::DisplayDeleteId { display: display_id(), id: callback.get_value() });
            }
            info.frame_oid = None;
            if let Some(buffer) = info.buffer_oid {
                events.push(Event::BufferRelease { buffer });
            }
            info.buffer_oid = None;
            self.sid_to_surface_info_dictionary.insert(sid.value, info);
        }
        assert(events@ =~= surface_frame_events(old(self)@, sid, milliseconds));
        events
    }

    /// The pointer focus went from `old_sid` to `new_sid`, with the pointer at
    /// `position` on the new surface.
    pub fn on_pointer_focus_changed(
        &mut self,
        old_sid: SurfaceId,
        new_sid: SurfaceId,
        position: Position,
    ) -> (events: Vec<Event>)
        requires
            old(self).wf(),
        ensures
            final(self).wf(),
            events@ == pointer_focus_events(old(self)@, old_sid, new_sid, position),
            final(self)@ == (ProxyView {
                serial: serial_after(old(self)@.serial, events@.len() as int),
                ..old(self)@
            }),
    {
        let mut events: Vec<Event> = Vec::new();
        if let Some(surface) = self.focus_target(old_sid) {
            self.emit_pointer_leaves(&mut events, surface);
        }
        let ghost leaves = events@;
        assert(self@ == (ProxyView { serial: serial_after(old(self)@.serial, leaves.len() as int), ..old(self)@ }));
        if let Some(surface) = self.focus_target(new_sid) {
            self.emit_pointer_enters(&mut events, surface, position);
            proof {
                lemma_serial_after_add(old(self)@.serial, leaves.len() as int, old(self)@.pointers.len() as int);
            }
        }
        assert(events@ =~= pointer_focus_events(old(self)@, old_sid, new_sid, position));
        events
    }

    /// The pointer moved to `position` on the surface that has the pointer focus.
    pub fn on_pointer_relative_motion(
        &self,
        sid: SurfaceId,
        position: Position,
        milliseconds: Milliseconds,
    ) -> (events: Vec<Event>)
        requires
            self.wf(),
        ensures
            events@ == pointer_motion_events(self@.pointers, position, milliseconds),
    {
        let ghost all = pointer_motion_events(self@.pointers, position, milliseconds);
        let mut events: Vec<Event> = Vec::new();
        let n = self.pointer_oids.len();
        let mut i: usize = 0;
        assert(events@ =~= all.subrange(0, 0));
        while i < n
            invariant
                self.wf(),
                i <= n,
                n == self@.pointers.len(),
                all == pointer_motion_events(self@.pointers, position, milliseconds),
                events@ == all.subrange(0, i as int),
            decreases n - i,
        {
            let pointer = *self.pointer_oids.value_at(i);
            events.push(
                Event::PointerMotion {
                    pointer,
                    time: milliseconds.truncated(),
                    x: position.x,
                    y: position.y,
                },
            );
            assert(events@ =~= all.subrange(0, i + 1));
            i += 1;
        }
        assert(all.subrange(0, n as int) =~= all);
        events
    }

    /// A pointer button was pressed or released. One serial is taken, whether the
    /// client has a pointer object or not.
    pub fn on_pointer_button(&mut self, btn: Button) -> (events: Vec<Event>)
        requires
            old(self).wf(),
        ensures
            final(self).wf(),
            events@ == pointer_button_events(old(self)@.pointers, old(self)@.serial, btn),
            final(self)@ == (ProxyView { serial: serial_after(old(self)@.serial, 1), ..old(self)@ }),
    {
        let ghost all = pointer_button_events(self@.pointers, self@.serial, btn);
        let serial = self.get_next_serial();
        let state = if btn.value == 0 {
            ButtonState::Released
        } else {
            ButtonState::Pressed
        };
        let mut events: Vec<Event> = Vec::new();
        let n = self.pointer_oids.len();
        let mut i: usize = 0;
        assert(events@ =~= all.subrange(0, 0));
        while i < n
            invariant
                self.wf(),
                i <= n,
                n == self@.pointers.len(),
                self@.pointers == old(self)@.pointers,
                serial == old(self)@.serial,
                state == button_state(btn),
                all == pointer_button_events(old(self)@.pointers, old(self)@.serial, btn),
                events@ == all.subrange(0, i as int),
            decreases n - i,
        {
            let pointer = *self.pointer_oids.value_at(i);
            events.push(
                Event::PointerButton {
                    pointer,
                    serial,
                    time: btn.time.truncated(),
                    button: btn.code as u32,
                    state,
                },
            );
            assert(events@ =~= all.subrange(0, i + 1));
            i += 1;
        }
        assert(all.subrange(0, n as int) =~= all);
        events
    }

    /// The pointer's wheel turned: a client is told nothing of it.
    pub fn on_pointer_axis(&self, axis: Position) -> (events: Vec<Event>)
        ensures
            events@ == Seq::<Event>::empty(),
    {
        Vec::new()
    }

    /// A surface got a new size or new state flags. `focused` is the surface that
    /// has the keyboard focus. A surface that is in no shell is told nothing.
    pub fn on_surface_reconfigured(
        &mut self,
        sid: SurfaceId,
        size: Size,
        state_flags: SurfaceState,
        focused: SurfaceId,
    ) -> (events: Vec<Event>)
        requires
            old(self).wf(),
        ensures
            final(self).wf(),
            events@ == reconfigure_events(old(self)@, old(self)@.serial, sid, size, state_flags, focused),
            final(self)@ == (ProxyView {
                serial: serial_after(old(self)@.serial, reconfigure_serials(old(self)@, sid)),
                ..old(self)@
            }),
    {
        let mut events: Vec<Event> = Vec::new();
        self.emit_reconfiguration(&mut events, sid, size, state_flags, focused);
        assert(events@ =~= reconfigure_events(old(self)@, old(self)@.serial, sid, size, state_flags, focused));
        events
    }

    /// Adds the events of a reconfiguration.
    fn emit_reconfiguration(
        &mut self,
        events: &mut Vec<Event>,
        sid: SurfaceId,
        size: Size,
        state_flags: SurfaceState,
        focused: SurfaceId,
    )
        requires
            old(self).wf(),
        ensures
            final(self).wf(),
            final(events)@ == old(events)@ + reconfigure_events(
                old(self)@,
                old(self)@.serial,
                sid,
                size,
                state_flags,
                focused,
            ),
            final(self)@ == (ProxyView {
                serial: serial_after(old(self)@.serial, reconfigure_serials(old(self)@, sid)),
                ..old(self)@
            }),
    {
        let width = #[verifier::truncate] (size.width as i32);
        let height = #[verifier::truncate] (size.height as i32);
        match self.info_or_blank(sid).shell_surface_oid {
            Some(ShellSurfaceOid::Shell(shell_surface)) => {
                events.push(Event::ShellSurfaceConfigure { shell_surface, width, height });
            },
            Some(ShellSurfaceOid::ZxdgToplevelV6(surface, toplevel)) => {
                let states = ToplevelStates {
                    maximized: state_flags.maximized,
                    activated: sid == focused,
                };
                events.push(Event::XdgToplevelConfigure { toplevel, width, height, states });
                let serial = self.get_next_serial();
                events.push(Event::XdgSurfaceConfigure { surface, serial });
            },
            None => {},
        }
        assert(events@ =~= old(events)@ + reconfigure_events(
            old(self)@,
            old(self)@.serial,
            sid,
            size,
            state_flags,
            focused,
        ));
    }
}

/// What one keyboard object is told of a key: the key, and then the modifiers if
/// they changed, each with a serial of its own.
pub open spec fn key_chunk(
    keyboard: ObjectId,
    serial: u32,
    key: Key,
    mods: Option<KeyMods>,
) -> Seq<Event> {
    seq![
        Event::KeyboardKey {
            keyboard,
            serial,
            time: key.time.value as u32,
            key: key.code as u32,
            state: key.value as u32,
        },
    ] + (match mods {
        Some(mods) => seq![
            Event::KeyboardModifiers {
                keyboard,
                serial: serial_after(serial, 1),
                depressed: mods.depressed,
                latched: mods.latched,
                locked: mods.locked,
                group: mods.effective,
            },
        ],
        None => Seq::empty(),
    })
}

/// How many serials one keyboard object takes for a key.
pub open spec fn key_serials(mods: Option<KeyMods>) -> int {
    if mods is Some {
        2
    } else {
        1
    }
}

/// What the first `count` keyboard objects are told of a key.
pub open spec fn keyboard_input_events(
    keyboards: Seq<ObjectId>,
    count: int,
    serial: u32,
    key: Key,
    mods: Option<KeyMods>,
) -> Seq<Event>
    decreases count,
{
    if count <= 0 {
        Seq::empty()
    } else {
        keyboard_input_events(keyboards, count - 1, serial, key, mods) + key_chunk(
            keyboards[count - 1],
            serial_after(serial, (count - 1) * key_serials(mods)),
            key,
            mods,
        )
    }
}

/// `wl_keyboard.leave` for each keyboard object, each with a serial of its own.
pub open spec fn keyboard_leave_events(keyboards: Seq<ObjectId>, serial: u32, surface: ObjectId) -> Seq<Event> {
    Seq::new(
        keyboards.len(),
        |i: int|
            Event::KeyboardLeave { keyboard: keyboards[i], serial: serial_after(serial, i), surface },
    )
}

/// `wl_keyboard.enter` for each keyboard object, each with a serial of its own.
pub open spec fn keyboard_enter_events(keyboards: Seq<ObjectId>, serial: u32, surface: ObjectId) -> Seq<Event> {
    Seq::new(
        keyboards.len(),
        |i: int|
            Event::KeyboardEnter { keyboard: keyboards[i], serial: serial_after(serial, i), surface },
    )
}

/// What a client is told when its surface `sid` gains or loses the keyboard
/// focus: the enter or the leave on each keyboard object, and then, once, the
/// reconfiguration of the surface, if the coordinator knows the surface. A
/// surface that the client cannot be told of is passed over.
pub open spec fn keyboard_focus_side(
    view: ProxyView,
    serial: u32,
    sid: SurfaceId,
    entering: bool,
    window: Option<WindowInfo>,
    focused: SurfaceId,
) -> Seq<Event> {
    match view.focus_target(sid) {
        Some(surface) => (if entering {
            keyboard_enter_events(view.keyboards, serial, surface)
        } else {
            keyboard_leave_events(view.keyboards, serial, surface)
        }) + (match window {
            Some(window) => reconfigure_events(
                view,
                serial_after(serial, view.keyboards.len() as int),
                sid,
                window.desired_size,
                window.state_flags,
                focused,
            ),
            None => Seq::empty(),
        }),
        None => Seq::empty(),
    }
}

/// How many serials it takes to tell a client that its surface `sid` gained or
/// lost the keyboard focus.
pub open spec fn keyboard_side_serials(view: ProxyView, sid: SurfaceId, window: Option<WindowInfo>) -> int {
    if view.focus_target(sid) is Some {
        view.keyboards.len() + (if window is Some {
            reconfigure_serials(view, sid)
        } else {
            0
        })
    } else {
        0
    }
}

/// How many serials the leaves of a change of keyboard focus take, with the
/// reconfiguration that follows them.
pub open spec fn keyboard_leave_serials(
    view: ProxyView,
    old_sid: SurfaceId,
    old_window: Option<WindowInfo>,
) -> int {
    keyboard_side_serials(view, old_sid, old_window)
}

/// How many serials the enters of a change of keyboard focus take, with the
/// reconfiguration that follows them.
pub open spec fn keyboard_enter_serials(
    view: ProxyView,
    new_sid: SurfaceId,
    new_window: Option<WindowInfo>,
) -> int {
    keyboard_side_serials(view, new_sid, new_window)
}

/// What a client is told when the keyboard focus goes from `old_sid` to
/// `new_sid`: a leave on each keyboard object and one reconfiguration of the old
/// surface, if the old surface is one of the client's; and then an enter on each
/// keyboard object and one reconfiguration of the new surface, if the new one is.
pub open spec fn keyboard_focus_events(
    view: ProxyView,
    old_sid: SurfaceId,
    new_sid: SurfaceId,
    old_window: Option<WindowInfo>,
    new_window: Option<WindowInfo>,
    focused: SurfaceId,
) -> Seq<Event> {
    keyboard_focus_side(view, view.serial, old_sid, false, old_window, focused) + keyboard_focus_side(
        view,
        serial_after(view.serial, keyboard_leave_serials(view, old_sid, old_window)),
        new_sid,
        true,
        new_window,
        focused,
    )
}

/// The events that tell of the globals, one for each global, in their order.
pub open spec fn global_events(globals: Seq<Global>, registry: ObjectId) -> Seq<Event> {
    Seq::new(
        globals.len(),
        |i: int|
            Event::RegistryGlobal { registry, name: globals[i].name, interface: globals[i].interface },
    )
}

/// The requests that end a client: the destruction of each of its memory pools,
/// and then of each of its surfaces.
pub open spec fn terminate_requests(view: ProxyView) -> Seq<Request> {
    Seq::new(view.pools.len(), |i: int| Request::DestroyMemoryPool { mpid: view.pools[i] })
        + Seq::new(
        view.surface_sids.len(),
        |i: int| Request::DestroySurface { sid: view.surface_sids[i] },
    )
}

/// The owners of surfaces once the first `count` of `sids` are forgotten.
pub open spec fn owners_without(
    owners: Map<u64, EventHandlerId>,
    sids: Seq<SurfaceId>,
    count: int,
) -> Map<u64, EventHandlerId>
    decreases count,
{
    if count <= 0 {
        owners
    } else {
        owners_without(owners, sids, count - 1).remove(sids[count - 1].value)
    }
}

impl Proxy {
    /// A key was pressed or released while a surface of this client had the
    /// keyboard focus. `mods` holds the modifiers if the key changed them.
    pub fn on_keyboard_input(&mut self, key: Key, mods: Option<KeyMods>) -> (events: Vec<Event>)
        requires
            old(self).wf(),
        ensures
            final(self).wf(),
            events@ == keyboard_input_events(
                old(self)@.keyboards,
                old(self)@.keyboards.len() as int,
                old(self)@.serial,
                key,
                mods,
            ),
            final(self)@ == (ProxyView {
                serial: serial_after(old(self)@.serial, old(self)@.keyboards.len() * key_serials(mods)),
                ..old(self)@
            }),
    {
        let ghost base = self@.serial;
        let ghost keyboards = self@.keyboards;
        let ghost per = key_serials(mods);
        let mut events: Vec<Event> = Vec::new();
        let n = self.keyboard_oids.len();
        let mut i: usize = 0;
        while i < n
            invariant
                self.wf(),
                i <= n,
                n == keyboards.len(),
                keyboards == old(self)@.keyboards,
                base == old(self)@.serial,
                per == key_serials(mods),
                self@ == (ProxyView { serial: serial_after(base, i * per), ..old(self)@ }),
                events@ == keyboard_input_events(keyboards, i as int, base, key, mods),
            decreases n - i,
        {
            let keyboard = *self.keyboard_oids.value_at(i);
            let ghost first = self@.serial;
            let serial = self.get_next_serial();
            events.push(
                Event::KeyboardKey {
                    keyboard,
                    serial,
                    time: key.time.truncated(),
                    key: key.code as u32,
                    state: #[verifier::truncate] (key.value as u32),
                },
            );
            if let Some(mods) = mods {
                let serial = self.get_next_serial();
                events.push(
                    Event::KeyboardModifiers {
                        keyboard,
                        serial,
                        depressed: mods.depressed,
                        latched: mods.latched,
                        locked: mods.locked,
                        group: mods.effective,
                    },
                );
            }
            proof {
                assert((i + 1) * per == i * per + per) by (nonlinear_arith);
                assert(0 <= i * per) by (nonlinear_arith)
                    requires
                        0 <= i,
                        0 <= per,
                ;
                lemma_serial_after_add(base, i * per, 1);
                lemma_serial_after_add(base, i * per, 2);
                lemma_serial_after_add(first, 1, 1);
                assert(events@ =~= keyboard_input_events(keyboards, i as int, base, key, mods) + key_chunk(
                    keyboard,
                    first,
                    key,
                    mods,
                ));
            }
            i += 1;
        }
        events
    }

    /// Adds an enter or a leave for each keyboard object.
    fn emit_keyboard_focus(&mut self, events: &mut Vec<Event>, surface: ObjectId, entering: bool)
        requires
            old(self).wf(),
        ensures
            final(self).wf(),
            final(events)@ == old(events)@ + (if entering {
                keyboard_enter_events(old(self)@.keyboards, old(self)@.serial, surface)
            } else {
                keyboard_leave_events(old(self)@.keyboards, old(self)@.serial, surface)
            }),
            final(self)@ == (ProxyView {
                serial: serial_after(old(self)@.serial, old(self)@.keyboards.len() as int),
                ..old(self)@
            }),
    {
        let ghost base = self@.serial;
        let ghost all = if entering {
            keyboard_enter_events(self@.keyboards, base, surface)
        } else {
            keyboard_leave_events(self@.keyboards, base, surface)
        };
        let n = self.keyboard_oids.len();
        let mut i: usize = 0;
        assert(events@ =~= old(events)@ + all.subrange(0, 0));
        while i < n
            invariant
                self.wf(),
                i <= n,
                n == old(self)@.keyboards.len(),
                all == (if entering {
                    keyboard_enter_events(old(self)@.keyboards, base, surface)
                } else {
                    keyboard_leave_events(old(self)@.keyboards, base, surface)
                }),
                base == old(self)@.serial,
                self@ == (ProxyView { serial: serial_after(base, i as int), ..old(self)@ }),
                events@ == old(events)@ + all.subrange(0, i as int),
            decreases n - i,
        {
            let keyboard = *self.keyboard_oids.value_at(i);
            let serial = self.get_next_serial();
            if entering {
                events.push(Event::KeyboardEnter { keyboard, serial, surface });
            } else {
                events.push(Event::KeyboardLeave { keyboard, serial, surface });
            }
            proof {
                lemma_serial_after_add(base, i as int, 1);
                assert(events@ =~= old(events)@ + all.subrange(0, i + 1));
            }
            i += 1;
        }
        assert(all.subrange(0, n as int) =~= all);
    }

    /// Adds what the client is told when its surface `sid` gains or loses the
    /// keyboard focus.
    fn emit_keyboard_side(
        &mut self,
        events: &mut Vec<Event>,
        sid: SurfaceId,
        entering: bool,
        window: Option<WindowInfo>,
        focused: SurfaceId,
    )
        requires
            old(self).wf(),
        ensures
            final(self).wf(),
            final(events)@ == old(events)@ + keyboard_focus_side(
                old(self)@,
                old(self)@.serial,
                sid,
                entering,
                window,
                focused,
            ),
            final(self)@ == (ProxyView {
                serial: serial_after(old(self)@.serial, keyboard_side_serials(old(self)@, sid, window)),
                ..old(self)@
            }),
    {
        let ghost view = self@;
        if let Some(surface) = self.focus_target(sid) {
            self.emit_keyboard_focus(events, surface, entering);
            let ghost told = events@;
            if let Some(window) = window {
                assert(reconfigure_events(
                    self@,
                    self@.serial,
                    sid,
                    window.desired_size,
                    window.state_flags,
                    focused,
                ) == reconfigure_events(
                    view,
                    serial_after(view.serial, view.keyboards.len() as int),
                    sid,
                    window.desired_size,
                    window.state_flags,
                    focused,
                ));
                assert(reconfigure_serials(self@, sid) == reconfigure_serials(view, sid));
                self.emit_reconfiguration(events, sid, window.desired_size, window.state_flags, focused);
                proof {
                    lemma_serial_after_add(
                        view.serial,
                        view.keyboards.len() as int,
                        reconfigure_serials(view, sid),
                    );
                }
            } else {
                proof {
                    lemma_serial_after_add(view.serial, view.keyboards.len() as int, 0);
                }
            }
            assert(events@ =~= old(events)@ + keyboard_focus_side(
                view,
                view.serial,
                sid,
                entering,
                window,
                focused,
            ));
        } else {
            assert(events@ =~= old(events)@ + keyboard_focus_side(
                view,
                view.serial,
                sid,
                entering,
                window,
                focused,
            ));
        }
    }

    /// The keyboard focus went from `old_sid` to `new_sid`. `old_window` and
    /// `new_window` are what the coordinator knows of the two surfaces, `focused`
    /// is the surface that it says has the keyboard focus. Each of the two
    /// surfaces is reconfigured once, after its leaves or enters, however many
    /// keyboard objects the client has.
    pub fn on_keyboard_focus_changed(
        &mut self,
        old_sid: SurfaceId,
        new_sid: SurfaceId,
        old_window: Option<WindowInfo>,
        new_window: Option<WindowInfo>,
        focused: SurfaceId,
    ) -> (events: Vec<Event>)
        requires
            old(self).wf(),
        ensures
            final(self).wf(),
            events@ == keyboard_focus_events(
                old(self)@,
                old_sid,
                new_sid,
                old_window,
                new_window,
                focused,
            ),
            final(self)@ == (ProxyView {
                serial: serial_after(
                    old(self)@.serial,
                    keyboard_leave_serials(old(self)@, old_sid, old_window) + keyboard_enter_serials(
                        old(self)@,
                        new_sid,
                        new_window,
                    ),
                ),
                ..old(self)@
            }),
    {
        let ghost view = self@;
        let mut events: Vec<Event> = Vec::new();
        self.emit_keyboard_side(&mut events, old_sid, false, old_window, focused);
        let ghost used = keyboard_leave_serials(view, old_sid, old_window);
        let ghost more = keyboard_enter_serials(view, new_sid, new_window);
        proof {
            lemma_serial_after_add(view.serial, used, more);
            assert(keyboard_focus_side(self@, self@.serial, new_sid, true, new_window, focused)
                == keyboard_focus_side(
                view,
                serial_after(view.serial, used),
                new_sid,
                true,
                new_window,
                focused,
            ));
            assert(keyboard_side_serials(self@, new_sid, new_window) == more);
        }
        self.emit_keyboard_side(&mut events, new_sid, true, new_window, focused);
        assert(events@ =~= keyboard_focus_events(view, old_sid, new_sid, old_window, new_window, focused));
        events
    }

    /// Tells a registry of the client of every global, in the order in which
    /// the globals were registered.
    pub fn advertise_globals(&self, registry: ObjectId) -> (events: Vec<Event>)
        requires
            self.wf(),
        ensures
            events@ == global_events(self@.globals, registry),
    {
        let ghost all = global_events(self@.globals, registry);
        let mut events: Vec<Event> = Vec::new();
        let n = self.last_global_id;
        let mut name: u32 = 0;
        assert(events@ =~= all.subrange(0, 0));
        while name < n
            invariant
                self.wf(),
                name <= n,
                n == self.last_global_id,
                all == global_events(self@.globals, registry),
                events@ == all.subrange(0, name as int),
            decreases n - name,
        {
            name += 1;
            if let Some(global) = self.globals.get(&name) {
                events.push(
                    Event::RegistryGlobal { registry, name: global.name, interface: global.interface },
                );
            }
            assert(self.globals@.contains_key(name));
            assert(events@ =~= all.subrange(0, name as int));
        }
        assert(all.subrange(0, n as int) =~= all);
        events
    }

    /// Ends the client: asks for the destruction of its memory pools and of its
    /// surfaces, and makes the mediator forget the surfaces.
    pub fn terminate(&mut self, mediator: &mut Mediator) -> (requests: Vec<Request>)
        requires
            old(self).wf(),
        ensures
            final(self).wf(),
            final(self)@ == old(self)@,
            requests@ == terminate_requests(old(self)@),
            final(mediator).owners() == owners_without(
                old(mediator).owners(),
                old(self)@.surface_sids,
                old(self)@.surface_sids.len() as int,
            ),
            final(mediator).drm_device() == old(mediator).drm_device(),
            final(mediator).screenshooter() == old(mediator).screenshooter(),
    {
        let ghost view = self@;
        let ghost pools = Seq::new(view.pools.len(), |i: int| Request::DestroyMemoryPool { mpid: view.pools[i] });
        let ghost surfaces = Seq::new(
            view.surface_sids.len(),
            |i: int| Request::DestroySurface { sid: view.surface_sids[i] },
        );
        let mut requests: Vec<Request> = Vec::new();
        let n = self.memory_pools.len();
        let mut i: usize = 0;
        assert(requests@ =~= pools.subrange(0, 0));
        while i < n
            invariant
                self.wf(),
                self@ == view,
                i <= n,
                n == view.pools.len(),
                pools == Seq::new(view.pools.len(), |i: int| Request::DestroyMemoryPool { mpid: view.pools[i] }),
                requests@ == pools.subrange(0, i as int),
            decreases n - i,
        {
            let mpid = *self.memory_pools.value_at(i);
            requests.push(Request::DestroyMemoryPool { mpid });
            assert(requests@ =~= pools.subrange(0, i + 1));
            i += 1;
        }
        assert(pools.subrange(0, n as int) =~= pools);
        let m = self.surface_oid_to_sid_dictionary.len();
        let mut j: usize = 0;
        assert(requests@ =~= pools + surfaces.subrange(0, 0));
        while j < m
            invariant
                self.wf(),
                self@ == view,
                j <= m,
                m == view.surface_sids.len(),
                m == self.surface_oid_to_sid_dictionary.values().len(),
                surfaces == Seq::new(
                    view.surface_sids.len(),
                    |i: int| Request::DestroySurface { sid: view.surface_sids[i] },
                ),
                requests@ == pools + surfaces.subrange(0, j as int),
                mediator.owners() == owners_without(old(mediator).owners(), view.surface_sids, j as int),
                mediator.drm_device() == old(mediator).drm_device(),
                mediator.screenshooter() == old(mediator).screenshooter(),
            decreases m - j,
        {
            let sid = self.surface_oid_to_sid_dictionary.value_at(j).1;
            mediator.remove(sid);
            requests.push(Request::DestroySurface { sid });
            assert(requests@ =~= pools + surfaces.subrange(0, j + 1));
            j += 1;
        }
        assert(surfaces.subrange(0, m as int) =~= surfaces);
        requests
    }
}

/// A request of a client, as its handlers put it to the proxy.
#[derive(Clone, Copy, PartialEq, Eq, Debug, Structural)]
pub enum FacadeRequest {
    CreateMemoryPool { mpid: MemoryPoolId },
    DestroyMemoryPool { mpid: MemoryPoolId },
    CreateMemoryView { buffer_oid: ObjectId, view: Option<MemoryViewId> },
    DefineRegion { region_oid: ObjectId, region: Area },
    UndefineRegion { region_oid: ObjectId },
    AddPointerOid { pointer_oid: ObjectId },
    RemovePointerOid { pointer_oid: ObjectId },
    AddKeyboardOid { keyboard_oid: ObjectId },
    RemoveKeyboardOid { keyboard_oid: ObjectId },
    SetInputRegion { sid: SurfaceId, region_oid: ObjectId },
    CreateSurface { oid: ObjectId, sid: SurfaceId },
    DestroySurface { sid: SurfaceId },
    Attach { buffer_oid: ObjectId, sid: SurfaceId, x: i32, y: i32 },
    Commit { sid: SurfaceId },
    SetFrame { sid: SurfaceId, frame_oid: ObjectId },
    Show { surface_oid: ObjectId, shell_surface_oid: ShellSurfaceOid, reason: ShowReason },
    SetOffset { sid: SurfaceId, offset: Position },
    SetRequestedSize { sid: SurfaceId, size: Size },
    SetRelativePosition { sid: SurfaceId, offset: Position },
    Relate { sid: SurfaceId, parent_sid: SurfaceId },
    Unrelate { sid: SurfaceId },
    SetAsCursor { surface_oid: ObjectId, hotspot_x: isize, hotspot_y: isize },
}

/// The state of a proxy after a request of its client.
pub open spec fn facade_view(view: ProxyView, request: FacadeRequest) -> ProxyView {
    match request {
        FacadeRequest::CreateMemoryPool { mpid } => ProxyView { pools: with_item(view.pools, mpid), ..view },
        FacadeRequest::DestroyMemoryPool { mpid } => ProxyView {
            pools: without_item(view.pools, mpid),
            ..view
        },
        FacadeRequest::CreateMemoryView { buffer_oid, view: made } => match made {
            Some(mvid) => ProxyView {
                buffers: view.buffers.insert(buffer_oid.value, BufferInfo { mvid }),
                ..view
            },
            None => view,
        },
        FacadeRequest::DefineRegion { region_oid, region } => ProxyView {
            regions: view.regions.insert(region_oid.value, region),
            ..view
        },
        FacadeRequest::UndefineRegion { region_oid } => ProxyView {
            regions: view.regions.remove(region_oid.value),
            ..view
        },
        FacadeRequest::AddPointerOid { pointer_oid } => ProxyView {
            pointers: with_item(view.pointers, pointer_oid),
            ..view
        },
        FacadeRequest::RemovePointerOid { pointer_oid } => ProxyView {
            pointers: without_item(view.pointers, pointer_oid),
            ..view
        },
        FacadeRequest::AddKeyboardOid { keyboard_oid } => ProxyView {
            keyboards: with_item(view.keyboards, keyboard_oid),
            ..view
        },
        FacadeRequest::RemoveKeyboardOid { keyboard_oid } => ProxyView {
            keyboards: without_item(view.keyboards, keyboard_oid),
            ..view
        },
        FacadeRequest::CreateSurface { oid, sid } => ProxyView {
            surface_oids: with_surface(view, oid, sid).0,
            surface_sids: with_surface(view, oid, sid).1,
            infos: with_surface_oid(view, sid, oid),
            ..view
        },
        FacadeRequest::Attach { buffer_oid, sid, x, y } => if view.buffers.contains_key(buffer_oid.value) {
            ProxyView { infos: with_buffer_oid(view, sid, buffer_oid), ..view }
        } else {
            view
        },
        FacadeRequest::SetFrame { sid, frame_oid } => ProxyView {
            infos: with_frame_oid(view, sid, frame_oid),
            ..view
        },
        FacadeRequest::Show { surface_oid, shell_surface_oid, reason } => match view.sid_of(surface_oid) {
            Some(sid) => ProxyView {
                infos: with_shell_surface_oid(view, sid, shell_surface_oid),
                ..view
            },
            None => view,
        },
        _ => view,
    }
}

/// What a client is told at once when it makes a request: the release of a
/// buffer that an attach takes the place of.
pub open spec fn facade_events(view: ProxyView, request: FacadeRequest) -> Seq<Event> {
    match request {
        FacadeRequest::Attach { buffer_oid, sid, x, y } => if view.buffers.contains_key(buffer_oid.value) {
            release_of_attached(view, sid)
        } else {
            Seq::empty()
        },
        _ => Seq::empty(),
    }
}

/// What a request of a client asks of the coordinator.
pub open spec fn facade_requests(view: ProxyView, request: FacadeRequest) -> Seq<Request> {
    match request {
        FacadeRequest::DestroyMemoryPool { mpid } => seq![Request::DestroyMemoryPool { mpid }],
        FacadeRequest::SetInputRegion { sid, region_oid } => if view.regions.contains_key(region_oid.value) {
            seq![
                Request::SetSurfaceOffset { sid, offset: view.regions[region_oid.value].pos },
                Request::SetSurfaceRequestedSize { sid, size: view.regions[region_oid.value].size },
            ]
        } else {
            Seq::empty()
        },
        FacadeRequest::DestroySurface { sid } => seq![Request::DestroySurface { sid }],
        FacadeRequest::Attach { buffer_oid, sid, x, y } => if view.buffers.contains_key(buffer_oid.value) {
            seq![Request::Attach { mvid: view.buffers[buffer_oid.value].mvid, sid }]
        } else {
            Seq::empty()
        },
        FacadeRequest::Commit { sid } => seq![Request::CommitSurface { sid }],
        FacadeRequest::Show { surface_oid, shell_surface_oid, reason } => match view.sid_of(surface_oid) {
            Some(sid) => seq![Request::ShowSurface { sid, reason }],
            None => Seq::empty(),
        },
        FacadeRequest::SetOffset { sid, offset } => seq![Request::SetSurfaceOffset { sid, offset }],
        FacadeRequest::SetRequestedSize { sid, size } => seq![
            Request::SetSurfaceRequestedSize { sid, size },
        ],
        FacadeRequest::SetRelativePosition { sid, offset } => seq![
            Request::SetSurfaceRelativePosition { sid, offset },
        ],
        FacadeRequest::Relate { sid, parent_sid } => seq![Request::RelateSurfaces { sid, parent_sid }],
        FacadeRequest::Unrelate { sid } => seq![Request::UnrelateSurface { sid }],
        FacadeRequest::SetAsCursor { surface_oid, hotspot_x, hotspot_y } => match view.sid_of(surface_oid) {
            Some(sid) => seq![
                Request::SetSurfaceOffset { sid, offset: Position { x: hotspot_x, y: hotspot_y } },
                Request::SetSurfaceAsCursor { sid },
            ],
            None => Seq::empty(),
        },
        _ => Seq::empty(),
    }
}

/// The owners of surfaces after a request of the client `id`.
pub open spec fn facade_owners(
    owners: Map<u64, EventHandlerId>,
    id: EventHandlerId,
    request: FacadeRequest,
) -> Map<u64, EventHandlerId> {
    match request {
        FacadeRequest::CreateSurface { oid, sid } => owners.insert(sid.value, id),
        _ => owners,
    }
}

impl Proxy {
    /// Deals with a request of the client: returns what the client is to be told
    /// at once, and what is to be asked of the coordinator.
    pub fn handle_request(&mut self, mediator: &mut Mediator, request: FacadeRequest) -> (out: (
        Vec<Event>,
        Vec<Request>,
    ))
        requires
            old(self).wf(),
        ensures
            final(self).wf(),
            out.0@ == facade_events(old(self)@, request),
            out.1@ == facade_requests(old(self)@, request),
            final(self)@ == facade_view(old(self)@, request),
            final(mediator).owners() == facade_owners(old(mediator).owners(), old(self)@.id, request),
            final(mediator).drm_device() == old(mediator).drm_device(),
            final(mediator).screenshooter() == old(mediator).screenshooter(),
    {
        match request {
            FacadeRequest::CreateMemoryPool { mpid } => {
                self.create_memory_pool(mpid);
                (Vec::new(), Vec::new())
            },
            FacadeRequest::DestroyMemoryPool { mpid } => (Vec::new(), self.destroy_memory_pool(mpid)),
            FacadeRequest::CreateMemoryView { buffer_oid, view } => {
                self.create_memory_view(buffer_oid, view);
                (Vec::new(), Vec::new())
            },
            FacadeRequest::DefineRegion { region_oid, region } => {
                self.define_region(region_oid, region);
                (Vec::new(), Vec::new())
            },
            FacadeRequest::UndefineRegion { region_oid } => {
                self.undefine_region(region_oid);
                (Vec::new(), Vec::new())
            },
            FacadeRequest::AddPointerOid { pointer_oid } => {
                self.add_pointer_oid(pointer_oid);
                (Vec::new(), Vec::new())
            },
            FacadeRequest::RemovePointerOid { pointer_oid } => {
                self.remove_pointer_oid(pointer_oid);
                (Vec::new(), Vec::new())
            },
            FacadeRequest::AddKeyboardOid { keyboard_oid } => {
                self.add_keyboard_oid(keyboard_oid);
                (Vec::new(), Vec::new())
            },
            FacadeRequest::RemoveKeyboardOid { keyboard_oid } => {
                self.remove_keyboard_oid(keyboard_oid);
                (Vec::new(), Vec::new())
            },
            FacadeRequest::SetInputRegion { sid, region_oid } => (
                Vec::new(),
                self.set_input_region(sid, region_oid),
            ),
            FacadeRequest::CreateSurface { oid, sid } => {
                self.create_surface(mediator, oid, sid);
                (Vec::new(), Vec::new())
            },
            FacadeRequest::DestroySurface { sid } => (Vec::new(), self.destroy_surface(sid)),
            FacadeRequest::Attach { buffer_oid, sid, x, y } => self.attach(buffer_oid, sid, x, y),
            FacadeRequest::Commit { sid } => (Vec::new(), self.commit(sid)),
            FacadeRequest::SetFrame { sid, frame_oid } => {
                self.set_frame(sid, frame_oid);
                (Vec::new(), Vec::new())
            },
            FacadeRequest::Show { surface_oid, shell_surface_oid, reason } => (
                Vec::new(),
                self.show(surface_oid, shell_surface_oid, reason),
            ),
            FacadeRequest::SetOffset { sid, offset } => (Vec::new(), self.set_offset(sid, offset)),
            FacadeRequest::SetRequestedSize { sid, size } => (
                Vec::new(),
                self.set_requested_size(sid, size),
            ),
            FacadeRequest::SetRelativePosition { sid, offset } => (
                Vec::new(),
                self.set_relative_position(sid, offset),
            ),
            FacadeRequest::Relate { sid, parent_sid } => (Vec::new(), self.relate(sid, parent_sid)),
            FacadeRequest::Unrelate { sid } => (Vec::new(), self.unrelate(sid)),
            FacadeRequest::SetAsCursor { surface_oid, hotspot_x, hotspot_y } => (
                Vec::new(),
                self.set_as_cursor(surface_oid, hotspot_x, hotspot_y),
            ),
        }
    }
}

} // verus!
