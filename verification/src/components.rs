//! The topology entities a run produces: interfaces and routes.

use vstd::prelude::*;
use crate::address::Addr;

verus! {

/// A synthetic network interface: a rendered name and an allocator-issued
/// address. Created once by the interface generator and immutable
/// afterwards; the run's interface collection is its sole owner.
#[derive(Debug)]
pub struct Interface {
    pub name: String,
    pub address: Addr,
}

impl Interface {
    pub fn new(name: String, address: Addr) -> (r: Self)
        ensures
            r.name == name,
            r.address == address,
    {
        Interface { name, address }
    }
}

/// A synthetic forwarding entry: a destination address and, optionally, the
/// egress interface. The interface is a non-owning back-reference, held as
/// an index into the interface collection the route was built against and
/// resolved by lookup there.
#[derive(Debug)]
pub struct Route {
    pub destination: Addr,
    pub interface: Option<usize>,
}

impl Route {
    pub fn new(destination: Addr, interface: Option<usize>) -> (r: Self)
        ensures
            r.destination == destination,
            r.interface == interface,
    {
        Route { destination, interface }
    }
}

} // verus!
