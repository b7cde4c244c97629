use vstd::prelude::*;

verus! {

/// Why a transfer descriptor could not be formed.
#[derive(Debug, Clone, Copy, PartialEq, Eq, Structural)]
pub enum DescriptorError {
    /// The asserted count differs from the number of items handed over.
    CountMismatch,
    /// The asserted capacity differs from the count.
    CapacityMismatch,
}

/// A one-time handle on a collection whose ownership moves from the side that
/// built it to the side that reconstructs it.
///
/// The items travel by value, so reconstructing consumes the descriptor and no
/// buffer can be taken over twice.
pub struct TransferDescriptor<T> {
    items: Vec<T>,
    count: usize,
    capacity: usize,
}

impl<T> TransferDescriptor<T> {
    /// The items carried, in order.
    pub closed spec fn view(&self) -> Seq<T> {
        self.items@
    }

    /// The count asserted by the side that built the collection.
    pub closed spec fn spec_count(&self) -> nat {
        self.count as nat
    }

    /// The capacity asserted by the side that built the collection.
    pub closed spec fn spec_capacity(&self) -> nat {
        self.capacity as nat
    }

    /// Every descriptor carries exactly `count` items and asserts a capacity
    /// equal to that count.
    #[verifier::type_invariant]
    spec fn counts_agree(self) -> bool {
        &&& self.count as nat == self.items@.len()
        &&& self.capacity == self.count
    }

    /// Forms a descriptor over `items`, asserted to hold `count` items in a
    /// buffer of `capacity` slots; rejects any mismatch.
    pub fn new(items: Vec<T>, count: usize, capacity: usize) -> (r: Result<Self, DescriptorError>)
        ensures
            count != items@.len() ==> r == Err::<Self, DescriptorError>(DescriptorError::CountMismatch),
            count == items@.len() && capacity != count ==> r == Err::<Self, DescriptorError>(
                DescriptorError::CapacityMismatch,
            ),
            count == items@.len() && capacity == count ==> r is Ok,
            r matches Ok(d) ==> d@ == items@ && d.spec_count() == count && d.spec_capacity()
                == capacity,
    {
        if count != items.len() {
            Err(DescriptorError::CountMismatch)
        } else if capacity != count {
            Err(DescriptorError::CapacityMismatch)
        } else {
            Ok(TransferDescriptor { items, count, capacity })
        }
    }

    /// The number of items carried.
    pub fn count(&self) -> (r: usize)
        ensures
            r == self.spec_count(),
            r == self@.len(),
    {
        proof {
            use_type_invariant(self);
        }
        self.count
    }

    /// The capacity asserted by the side that built the collection: always
    /// the count.
    pub fn capacity(&self) -> (r: usize)
        ensures
            r == self.spec_capacity(),
            r == self.spec_count(),
    {
        proof {
            use_type_invariant(self);
        }
        self.capacity
    }

    /// Takes ownership of the carried items; the descriptor is used up.
    pub fn reconstruct(self) -> (r: Vec<T>)
        ensures
            r@ == self@,
    {
        self.items
    }
}

/// Relies on `Vec::shrink_to_fit`: it releases spare capacity and leaves the
/// items as they were.
#[verifier::external_body]
fn shrink_storage<T>(v: &mut Vec<T>)
    ensures
        final(v)@ == old(v)@,
{
    v.shrink_to_fit()
}

/// Relies on `Vec::capacity`: the number of slots the allocator gave, which no
/// contract can predict.
#[verifier::external_body]
fn storage_capacity<T>(v: &Vec<T>) -> (r: usize) {
    v.capacity()
}

/// Turns a finished collection into a transfer descriptor.
///
/// The storage is first shrunk to its length; the descriptor is formed only if
/// the allocator then reports a capacity equal to the length, so the side that
/// reconstructs never needs a capacity of its own. An allocator that keeps
/// spare slots yields `CapacityMismatch` instead.
pub fn export_items<T>(items: Vec<T>) -> (r: Result<TransferDescriptor<T>, DescriptorError>)
    ensures
        r matches Ok(d) ==> d@ == items@ && d.spec_count() == items@.len(),
        r matches Err(e) ==> e == DescriptorError::CapacityMismatch,
{
    let mut items = items;
    shrink_storage(&mut items);
    let capacity = storage_capacity(&items);
    let count = items.len();
    TransferDescriptor::new(items, count, capacity)
}

} // verus!
