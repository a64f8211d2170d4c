//! The stream of address updates that runs from the two detection paths to
//! the reconciler.

use crate::address::{Address, AddressView};
use std::collections::VecDeque;
use vstd::prelude::*;

verus! {

/// The views of the addresses of `addresses`, in order.
pub open spec fn address_views(addresses: Seq<Address>) -> Seq<AddressView> {
    addresses.map_values(|address: Address| address@)
}

/// The addresses that were published and not yet delivered, oldest first.
///
/// The stream is unbounded and keeps every update: an address that equals an
/// earlier one is one more entry.
pub struct UpdateStream {
    waiting: VecDeque<Address>,
}

impl View for UpdateStream {
    type V = Seq<AddressView>;

    closed spec fn view(&self) -> Seq<AddressView> {
        address_views(self.waiting@)
    }
}

impl UpdateStream {
    /// A stream in which nothing waits.
    pub fn new() -> (stream: UpdateStream)
        ensures
            stream@ == Seq::<AddressView>::empty(),
    {
        UpdateStream { waiting: VecDeque::new() }
    }

    /// The number of addresses that wait.
    pub fn len(&self) -> (count: usize)
        ensures
            count == self@.len(),
    {
        self.waiting.len()
    }

    /// Tells whether nothing waits.
    pub fn is_empty(&self) -> (empty: bool)
        ensures
            empty == (self@.len() == 0),
    {
        self.waiting.len() == 0
    }

    /// Appends `address` behind everything that waits.
    pub fn publish(&mut self, address: Address)
        ensures
            final(self)@ == old(self)@.push(address@),
    {
        self.waiting.push_back(address);
        assert(address_views(self.waiting@) == address_views(old(self).waiting@).push(address@));
    }

    /// Takes the oldest address out of the stream, if one waits.
    pub fn deliver(&mut self) -> (delivered: Option<Address>)
        ensures
            match delivered {
                Some(address) => {
                    &&& old(self)@.len() > 0
                    &&& address@ == old(self)@.first()
                    &&& final(self)@ == old(self)@.drop_first()
                },
                None => {
                    &&& old(self)@.len() == 0
                    &&& final(self)@ == old(self)@
                },
            },
    {
        let delivered = self.waiting.pop_front();
        assert(delivered is Some ==> address_views(self.waiting@) == address_views(
            old(self).waiting@,
        ).drop_first());
        delivered
    }
}

} // verus!
