//! Which of the devices that the hot-plug bus lists are input and output devices
//! of the compositor, and of what kind.
//!
//! Listing the devices is left to the caller: it hands in what it found.

use crate::defs::{DeviceKind, Illusion};
use vstd::prelude::*;

verus! {

/// A device that the hot-plug bus lists.
pub struct DeviceNode {
    /// The device file.
    pub devnode: String,
    /// The name of the device in the system.
    pub sysname: String,
    /// Whether the device file is there.
    pub exists: bool,
    /// The names of the properties of the device, in the order in which the bus
    /// lists them.
    pub properties: Vec<String>,
}

/// What reads the events of the hot-plug bus: the file descriptor of the monitor.
#[derive(Clone, Copy, PartialEq, Eq, Debug, Structural)]
pub struct DeviceMonitor {
    pub fd: i32,
}

impl DeviceMonitor {
    pub fn new(fd: i32) -> (monitor: DeviceMonitor)
        ensures
            monitor.fd == fd,
    {
        DeviceMonitor { fd: fd }
    }
}

/// Whether `text` begins with `prefix`.
pub fn starts_with(text: &str, prefix: &str) -> (begins: bool)
    ensures
        begins == prefix@.is_prefix_of(text@),
{
    let n = prefix.unicode_len();
    if text.unicode_len() < n {
        return false;
    }
    let mut i: usize = 0;
    while i < n
        invariant
            i <= n,
            n == prefix@.len(),
            n <= text@.len(),
            forall|k: int| 0 <= k < i ==> text@[k] == prefix@[k],
        decreases n - i,
    {
        if text.get_char(i) != prefix.get_char(i) {
            assert(text@.subrange(0, n as int)[i as int] != prefix@[i as int]);
            return false;
        }
        i += 1;
    }
    assert(text@.subrange(0, n as int) =~= prefix@);
    true
}

/// Whether two texts are the same.
pub fn same_text(a: &str, b: &str) -> (same: bool)
    ensures
        same == (a@ == b@),
{
    let begins = starts_with(a, b);
    let same = begins && a.unicode_len() == b.unicode_len();
    proof {
        if same {
            assert(a@.subrange(0, b@.len() as int) =~= a@);
        }
    }
    same
}

/// Whether a device is an input event device: its file is there and its name
/// begins with `event`.
pub fn is_event_device(exists: bool, sysname: &str) -> (event: bool)
    ensures
        event == (exists && "event"@.is_prefix_of(sysname@)),
{
    exists && starts_with(sysname, "event")
}

/// Whether a device is an output device: its file is there and its name begins
/// with `card`.
pub fn is_output_device(exists: bool, sysname: &str) -> (output: bool)
    ensures
        output == (exists && "card"@.is_prefix_of(sysname@)),
{
    exists && starts_with(sysname, "card")
}

/// The kind that a property name stands for.
pub open spec fn kind_of_property(name: Seq<char>) -> DeviceKind {
    if name == "ID_INPUT_MOUSE"@ {
        DeviceKind::Mouse
    } else if name == "ID_INPUT_TOUCHPAD"@ {
        DeviceKind::Touchpad
    } else if name == "ID_INPUT_KEYBOARD"@ {
        DeviceKind::Keyboard
    } else {
        DeviceKind::Unknown
    }
}

/// The kind of a device with the first `count` of the properties `names`: that of
/// the first property that stands for a kind.
pub open spec fn kind_of_properties(names: Seq<Seq<char>>, count: int) -> DeviceKind
    decreases count,
{
    if count <= 0 {
        DeviceKind::Unknown
    } else {
        let before = kind_of_properties(names, count - 1);
        if before != DeviceKind::Unknown {
            before
        } else {
            kind_of_property(names[count - 1])
        }
    }
}

/// The kind of a device, from the names of its properties.
pub fn determine_device_kind(properties: &Vec<String>) -> (kind: DeviceKind)
    ensures
        kind == kind_of_properties(properties.deep_view(), properties@.len() as int),
{
    let ghost names = properties.deep_view();
    let mut i: usize = 0;
    while i < properties.len()
        invariant
            i <= properties@.len(),
            names == properties.deep_view(),
            names.len() == properties@.len(),
            kind_of_properties(names, i as int) == DeviceKind::Unknown,
        decreases properties@.len() - i,
    {
        let name = properties[i].as_str();
        assert(names[i as int] == name@);
        if same_text(name, "ID_INPUT_MOUSE") {
            proof {
                lemma_kind_decided(names, i as int + 1, properties@.len() as int);
            }
            return DeviceKind::Mouse;
        } else if same_text(name, "ID_INPUT_TOUCHPAD") {
            proof {
                lemma_kind_decided(names, i as int + 1, properties@.len() as int);
            }
            return DeviceKind::Touchpad;
        } else if same_text(name, "ID_INPUT_KEYBOARD") {
            proof {
                lemma_kind_decided(names, i as int + 1, properties@.len() as int);
            }
            return DeviceKind::Keyboard;
        }
        i += 1;
    }
    DeviceKind::Unknown
}

/// Once a property has decided the kind, later properties do not change it.
pub proof fn lemma_kind_decided(names: Seq<Seq<char>>, count: int, more: int)
    requires
        count <= more,
        kind_of_properties(names, count) != DeviceKind::Unknown,
    ensures
        kind_of_properties(names, more) == kind_of_properties(names, count),
    decreases more - count,
{
    if count < more {
        lemma_kind_decided(names, count, more - 1);
    }
}

/// Whether a device is an input device that the compositor reads: an event
/// device of a known kind.
pub open spec fn is_input(node: DeviceNode) -> bool {
    &&& node.exists
    &&& "event"@.is_prefix_of(node.sysname@)
    &&& kind_of_properties(node.properties.deep_view(), node.properties@.len() as int)
        != DeviceKind::Unknown
}

/// The wrapper of the hot-plug bus.
pub struct Udev {
    monitor_socket: Option<i32>,
}

impl Udev {
    /// The file descriptor of the monitor, once the monitor listens.
    pub closed spec fn monitor_socket(&self) -> Option<i32> {
        self.monitor_socket
    }

    pub fn new() -> (udev: Udev)
        ensures
            udev.monitor_socket() is None,
    {
        Udev { monitor_socket: None }
    }

    /// Goes through the devices that were found, and tells for each whether it
    /// is an input device that the compositor reads, and of what kind: the
    /// result holds, for the devices in their order, `None` for one that is not,
    /// and the kind of one that is.
    pub fn iterate_event_devices(&self, found: &Vec<DeviceNode>) -> (kinds: Vec<Option<DeviceKind>>)
        ensures
            kinds@.len() == found@.len(),
            forall|i: int|
                0 <= i < found@.len() ==> #[trigger] kinds@[i] == (if is_input(found@[i]) {
                    Some(
                        kind_of_properties(
                            found@[i].properties.deep_view(),
                            found@[i].properties@.len() as int,
                        ),
                    )
                } else {
                    None
                }),
    {
        let mut kinds: Vec<Option<DeviceKind>> = Vec::new();
        let mut i: usize = 0;
        while i < found.len()
            invariant
                i <= found@.len(),
                kinds@.len() == i,
                forall|k: int|
                    0 <= k < i ==> #[trigger] kinds@[k] == (if is_input(found@[k]) {
                        Some(
                            kind_of_properties(
                                found@[k].properties.deep_view(),
                                found@[k].properties@.len() as int,
                            ),
                        )
                    } else {
                        None
                    }),
            decreases found@.len() - i,
        {
            let node = &found[i];
            let mut kind: Option<DeviceKind> = None;
            if is_event_device(node.exists, node.sysname.as_str()) {
                let device_kind = determine_device_kind(&node.properties);
                if device_kind != DeviceKind::Unknown {
                    kind = Some(device_kind);
                }
            }
            kinds.push(kind);
            i += 1;
        }
        kinds
    }

    /// Goes through the devices that were found, and tells for each whether it
    /// is an output device.
    pub fn iterate_drm_devices(&self, found: &Vec<DeviceNode>) -> (outputs: Vec<bool>)
        ensures
            outputs@.len() == found@.len(),
            forall|i: int|
                0 <= i < found@.len() ==> #[trigger] outputs@[i] == (found@[i].exists && "card"@.is_prefix_of(
                    found@[i].sysname@,
                )),
    {
        let mut outputs: Vec<bool> = Vec::new();
        let mut i: usize = 0;
        while i < found.len()
            invariant
                i <= found@.len(),
                outputs@.len() == i,
                forall|k: int|
                    0 <= k < i ==> #[trigger] outputs@[k] == (found@[k].exists && "card"@.is_prefix_of(
                        found@[k].sysname@,
                    )),
            decreases found@.len() - i,
        {
            let node = &found[i];
            outputs.push(is_output_device(node.exists, node.sysname.as_str()));
            i += 1;
        }
        outputs
    }

    /// Starts the monitoring of devices. `socket` is the file descriptor of a
    /// monitor of the input and DRM subsystems that listens, if one could be
    /// made; it is taken if no monitor listens yet. Without a monitor there is an
    /// error.
    pub fn start_device_monitor(
        &mut self,
        socket: Option<i32>,
    ) -> (monitor: Result<DeviceMonitor, Illusion>)
        ensures
            final(self).monitor_socket() == (match old(self).monitor_socket() {
                Some(fd) => Some(fd),
                None => socket,
            }),
            match final(self).monitor_socket() {
                Some(fd) => monitor == Ok::<DeviceMonitor, Illusion>(DeviceMonitor { fd }),
                None => monitor is Err
                    && monitor->Err_0.text() == "Failed to create device monitor"@,
            },
    {
        if self.monitor_socket.is_none() {
            self.monitor_socket = socket;
        }
        match self.monitor_socket {
            Some(fd) => Ok(DeviceMonitor::new(fd)),
            None => Err(Illusion::General("Failed to create device monitor".to_owned())),
        }
    }
}

} // verus!
