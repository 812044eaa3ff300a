//! Globals: the server objects that every client is told of through its registry.

use crate::defs::OutputInfo;
use vstd::prelude::*;

verus! {

/// Which protocol interface a global offers.
#[derive(Clone, Copy, PartialEq, Eq, Debug, Structural)]
pub enum Interface {
    Shm,
    Compositor,
    Shell,
    XdgShellV6,
    DataDeviceManager,
    Seat,
    Subcompositor,
    WestonScreenshooter,
    LinuxDmabufV1,
    MesaDrm,
    /// One per output; the number is the output's identifier.
    Output(i32),
}

/// A global: its name, by which a client binds it, and its interface.
///
/// A proxy gives a global its name when the global is registered, counting from one.
#[derive(Clone, Copy, PartialEq, Eq, Debug, Structural)]
pub struct Global {
    pub name: u32,
    pub interface: Interface,
}

impl Global {
    /// A global that is not registered yet: its name is zero.
    pub fn new(interface: Interface) -> (global: Global)
        ensures
            global.name == 0,
            global.interface == interface,
    {
        Global { name: 0, interface }
    }
}

/// The global of an output.
pub fn get_output_global(info: &OutputInfo) -> (global: Global)
    ensures
        global.name == 0,
        global.interface == Interface::Output(info.id),
{
    Global::new(Interface::Output(info.id))
}

} // verus!
