//! The network address of a master.

use vstd::prelude::*;

verus! {

/// The mathematical value of an [`Address`].
pub struct AddressView {
    pub host: Seq<char>,
    pub port: u16,
}

/// Where a master listens: a host name or literal address, and a TCP port.
#[derive(Debug)]
pub struct Address {
    pub host: String,
    pub port: u16,
}

impl View for Address {
    type V = AddressView;

    open spec fn view(&self) -> AddressView {
        AddressView { host: self.host@, port: self.port }
    }
}

impl Address {
    /// Builds the address `host:port`.
    pub fn new(host: String, port: u16) -> (address: Address)
        ensures
            address.host == host,
            address.port == port,
            address@ == (AddressView { host: host@, port }),
    {
        Address { host, port }
    }

    /// The host part.
    pub fn host(&self) -> (host: &str)
        ensures
            host@ == self@.host,
    {
        self.host.as_str()
    }

    /// The port part.
    pub fn port(&self) -> (port: u16)
        ensures
            port == self@.port,
    {
        self.port
    }
}

impl Clone for Address {
    fn clone(&self) -> (copy: Address)
        ensures
            copy@ == self@,
    {
        Address { host: self.host.clone(), port: self.port }
    }
}

impl PartialEq for Address {
    fn eq(&self, other: &Address) -> (equal: bool) {
        self.host == other.host && self.port == other.port
    }
}

impl Eq for Address {}

impl vstd::std_specs::cmp::PartialEqSpecImpl for Address {
    open spec fn obeys_eq_spec() -> bool {
        true
    }

    open spec fn eq_spec(&self, other: &Address) -> bool {
        self@ == other@
    }
}

} // verus!
