//! Data initializers: the bytes that instantiation copies into a linear memory.

use vstd::prelude::*;
use vstd::slice::slice_to_vec;

verus! {

/// A memory index and offset within that memory where a data initialization is to be performed.
#[derive(Clone, Copy, Debug, PartialEq, Eq, Structural)]
pub struct DataInitializerLocation {
    /// The index of the memory to initialize.
    pub memory_index: u32,
    /// Optionally the index of a global variable that gives the base to initialize at.
    pub base: Option<u32>,
    /// A constant offset to initialize at.
    pub offset: usize,
}

/// A data initializer for linear memory.
#[derive(Clone, Copy, Debug)]
pub struct DataInitializer<'data> {
    /// The location where the initialization is to be performed.
    pub location: DataInitializerLocation,
    /// The initialization data.
    pub data: &'data [u8],
}

/// Similar to `DataInitializer`, but owns its own copy of the data rather than holding a slice of
/// the original module.
#[derive(Debug)]
pub struct OwnedDataInitializer {
    location: DataInitializerLocation,
    data: Vec<u8>,
}

/// Where an initializer writes, and what.
pub struct InitializerView {
    pub location: DataInitializerLocation,
    pub data: Seq<u8>,
}

impl<'data> View for DataInitializer<'data> {
    type V = InitializerView;

    open spec fn view(&self) -> InitializerView {
        InitializerView { location: self.location, data: self.data@ }
    }
}

impl View for OwnedDataInitializer {
    type V = InitializerView;

    closed spec fn view(&self) -> InitializerView {
        InitializerView { location: self.location, data: self.data@ }
    }
}

/// The contents of a list of initializers.
pub open spec fn borrowed_views(initializers: Seq<DataInitializer<'_>>) -> Seq<InitializerView> {
    Seq::new(initializers.len(), |i: int| initializers[i]@)
}

/// The contents of a list of initializers that own their data.
pub open spec fn owned_views(initializers: Seq<OwnedDataInitializer>) -> Seq<InitializerView> {
    Seq::new(initializers.len(), |i: int| initializers[i]@)
}

impl OwnedDataInitializer {
    /// Copies an initializer out of the buffer that it refers to.
    pub fn new(borrowed: &DataInitializer<'_>) -> (r: Self)
        ensures
            r@ == borrowed@,
    {
        OwnedDataInitializer {
            location: borrowed.location.clone(),
            data: slice_to_vec(borrowed.data),
        }
    }

    /// An initializer that refers to the data that `self` owns.
    pub fn as_initializer(&self) -> (r: DataInitializer<'_>)
        ensures
            r@ == self@,
    {
        DataInitializer { location: self.location.clone(), data: self.data.as_slice() }
    }
}

/// Copies a list of initializers, in order.
pub fn own_initializers(borrowed: &Vec<DataInitializer<'_>>) -> (r: Vec<OwnedDataInitializer>)
    ensures
        owned_views(r@) == borrowed_views(borrowed@),
{
    let mut owned: Vec<OwnedDataInitializer> = Vec::new();
    for i in 0..borrowed.len()
        invariant
            owned.len() == i,
            forall|j: int| 0 <= j < i ==> (#[trigger] owned@[j])@ == borrowed@[j]@,
    {
        owned.push(OwnedDataInitializer::new(&borrowed[i]));
    }
    assert(owned_views(owned@) =~= borrowed_views(borrowed@));
    owned
}

/// Lends a list of initializers, in order.
pub fn lend_initializers<'a>(owned: &'a Vec<OwnedDataInitializer>) -> (r: Vec<DataInitializer<'a>>)
    ensures
        borrowed_views(r@) == owned_views(owned@),
{
    let mut borrowed: Vec<DataInitializer<'a>> = Vec::new();
    for i in 0..owned.len()
        invariant
            borrowed.len() == i,
            forall|j: int| 0 <= j < i ==> (#[trigger] borrowed@[j])@ == owned@[j]@,
    {
        borrowed.push(owned[i].as_initializer());
    }
    assert(borrowed_views(borrowed@) =~= owned_views(owned@));
    borrowed
}

/// An initializer that was copied and lent again writes the same bytes to the same place.
pub proof fn law_copied_initializer_writes_the_same(
    borrowed: DataInitializer<'_>,
    owned: OwnedDataInitializer,
    lent: DataInitializer<'_>,
)
    requires
        call_ensures(OwnedDataInitializer::new, (&borrowed,), owned),
        call_ensures(OwnedDataInitializer::as_initializer, (&owned,), lent),
    ensures
        lent.location.memory_index == borrowed.location.memory_index,
        lent.location.base == borrowed.location.base,
        lent.location.offset == borrowed.location.offset,
        lent.data@ == borrowed.data@,
{
}

/// A list of initializers that was copied and lent again holds as many initializers, and each
/// writes the same bytes to the same place as the one that stood there.
pub proof fn law_copied_initializers_write_the_same(
    borrowed: Vec<DataInitializer<'_>>,
    owned: Vec<OwnedDataInitializer>,
    lent: Vec<DataInitializer<'_>>,
)
    requires
        call_ensures(own_initializers, (&borrowed,), owned),
        call_ensures(lend_initializers, (&owned,), lent),
    ensures
        owned.len() == borrowed.len(),
        lent.len() == borrowed.len(),
        forall|i: int|
            0 <= i < borrowed.len() ==> {
                &&& (#[trigger] lent[i]).location.memory_index == borrowed[i].location.memory_index
                &&& lent[i].location.base == borrowed[i].location.base
                &&& lent[i].location.offset == borrowed[i].location.offset
                &&& lent[i].data@ == borrowed[i].data@
            },
{
    assert(owned_views(owned@).len() == borrowed_views(borrowed@).len());
    assert(borrowed_views(lent@).len() == owned_views(owned@).len());
    assert forall|i: int| 0 <= i < borrowed.len() implies {
        &&& (#[trigger] lent[i]).location.memory_index == borrowed[i].location.memory_index
        &&& lent[i].location.base == borrowed[i].location.base
        &&& lent[i].location.offset == borrowed[i].location.offset
        &&& lent[i].data@ == borrowed[i].data@
    } by {
        assert(borrowed_views(lent@)[i] == borrowed_views(borrowed@)[i]);
        assert(borrowed_views(lent@)[i] == lent[i]@);
        assert(borrowed_views(borrowed@)[i] == borrowed[i]@);
    }
}

} // verus!
