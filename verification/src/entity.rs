//! Dense maps keyed by the entity indices of a module: signatures and defined functions.
//!
//! The maps are `cranelift_entity`'s. Entry `i` of a map belongs to the entity with index `i`, so
//! each is viewed as the sequence of its values.

use cranelift_entity::{BoxedSlice, PrimaryMap};
use cranelift_wasm::{DefinedFuncIndex, SignatureIndex};
use vstd::prelude::*;
use wasmtime_environ::{FunctionAddressMap, TrapInformation};
use wasmtime_runtime::VMSharedSignatureIndex;

verus! {

/// `wasmtime_runtime::VMSharedSignatureIndex`, the number of a signature in a signature registry.
#[verifier::external_type_specification]
#[verifier::external_body]
pub struct ExVMSharedSignatureIndex(VMSharedSignatureIndex);

/// `wasmtime_environ::TrapInformation`, a place where native code may trap.
#[verifier::external_type_specification]
#[verifier::external_body]
pub struct ExTrapInformation(TrapInformation);

/// `wasmtime_environ::FunctionAddressMap`, the source locations of a function's native code.
#[verifier::external_type_specification]
#[verifier::external_body]
pub struct ExFunctionAddressMap(FunctionAddressMap);

/// The shared signature index of each signature of a module.
#[verifier::external_body]
pub struct SharedSignatures {
    map: BoxedSlice<SignatureIndex, VMSharedSignatureIndex>,
}

/// The address of the trampoline of each signature of a module.
#[verifier::external_body]
pub struct Trampolines {
    map: PrimaryMap<SignatureIndex, usize>,
}

/// The address and length of the compiled body of each function that a module defines.
#[verifier::external_body]
pub struct FinishedFunctions {
    map: BoxedSlice<DefinedFuncIndex, (usize, usize)>,
}

/// The address of the compiled body of each function that a module defines.
#[verifier::external_body]
pub struct FunctionEntries {
    map: BoxedSlice<DefinedFuncIndex, usize>,
}

/// The traps of each function that a module defines.
#[verifier::external_body]
pub struct Traps {
    map: PrimaryMap<DefinedFuncIndex, Vec<TrapInformation>>,
}

/// The address map of each function that a module defines.
#[verifier::external_body]
pub struct ModuleAddressMap {
    map: PrimaryMap<DefinedFuncIndex, FunctionAddressMap>,
}

/// What a `SharedSignatures` holds, by signature index.
pub uninterp spec fn shared_signature_values(map: SharedSignatures) -> Seq<VMSharedSignatureIndex>;

/// What a `Trampolines` holds, by signature index.
pub uninterp spec fn trampoline_values(map: Trampolines) -> Seq<usize>;

/// What a `FinishedFunctions` holds, by defined function index.
pub uninterp spec fn finished_function_values(map: FinishedFunctions) -> Seq<(usize, usize)>;

/// What a `FunctionEntries` holds, by defined function index.
pub uninterp spec fn function_entry_values(map: FunctionEntries) -> Seq<usize>;

/// What a `Traps` holds, by defined function index.
pub uninterp spec fn trap_values(map: Traps) -> Seq<Vec<TrapInformation>>;

/// What a `ModuleAddressMap` holds, by defined function index.
pub uninterp spec fn address_map_values(map: ModuleAddressMap) -> Seq<FunctionAddressMap>;

impl View for SharedSignatures {
    type V = Seq<VMSharedSignatureIndex>;

    open spec fn view(&self) -> Seq<VMSharedSignatureIndex> {
        shared_signature_values(*self)
    }
}

impl View for Trampolines {
    type V = Seq<usize>;

    open spec fn view(&self) -> Seq<usize> {
        trampoline_values(*self)
    }
}

impl View for FinishedFunctions {
    type V = Seq<(usize, usize)>;

    open spec fn view(&self) -> Seq<(usize, usize)> {
        finished_function_values(*self)
    }
}

impl View for FunctionEntries {
    type V = Seq<usize>;

    open spec fn view(&self) -> Seq<usize> {
        function_entry_values(*self)
    }
}

impl View for Traps {
    type V = Seq<Vec<TrapInformation>>;

    open spec fn view(&self) -> Seq<Vec<TrapInformation>> {
        trap_values(*self)
    }
}

impl View for ModuleAddressMap {
    type V = Seq<FunctionAddressMap>;

    open spec fn view(&self) -> Seq<FunctionAddressMap> {
        address_map_values(*self)
    }
}

/// Calls the `FromIterator` of `cranelift_entity::PrimaryMap` and `into_boxed_slice`: the values
/// are stored in order, the first one under index zero.
#[verifier::external_body]
fn collect_shared_signatures(values: Vec<VMSharedSignatureIndex>) -> (r: SharedSignatures)
    ensures
        shared_signature_values(r) == values@,
{
    let map: PrimaryMap<SignatureIndex, VMSharedSignatureIndex> = values.into_iter().collect();
    SharedSignatures { map: map.into_boxed_slice() }
}

/// Calls `cranelift_entity::BoxedSlice::values`: the values in index order.
#[verifier::external_body]
fn list_shared_signatures(map: &SharedSignatures) -> (r: Vec<VMSharedSignatureIndex>)
    ensures
        r@ == shared_signature_values(*map),
{
    map.map.values().cloned().collect()
}

/// Calls `cranelift_entity::BoxedSlice::clone`: the copy holds the same values.
#[verifier::external_body]
fn copy_shared_signatures(map: &SharedSignatures) -> (r: SharedSignatures)
    ensures
        shared_signature_values(r) == shared_signature_values(*map),
{
    SharedSignatures { map: map.map.clone() }
}

/// Calls the `FromIterator` of `cranelift_entity::PrimaryMap`: the values are stored in order, the
/// first one under index zero.
#[verifier::external_body]
fn collect_trampolines(values: Vec<usize>) -> (r: Trampolines)
    ensures
        trampoline_values(r) == values@,
{
    Trampolines { map: values.into_iter().collect() }
}

/// Calls `cranelift_entity::PrimaryMap::values`: the values in index order.
#[verifier::external_body]
fn list_trampolines(map: &Trampolines) -> (r: Vec<usize>)
    ensures
        r@ == trampoline_values(*map),
{
    map.map.values().cloned().collect()
}

/// Calls the `FromIterator` of `cranelift_entity::PrimaryMap` and `into_boxed_slice`: the values
/// are stored in order, the first one under index zero.
#[verifier::external_body]
fn collect_finished_functions(values: Vec<(usize, usize)>) -> (r: FinishedFunctions)
    ensures
        finished_function_values(r) == values@,
{
    let map: PrimaryMap<DefinedFuncIndex, (usize, usize)> = values.into_iter().collect();
    FinishedFunctions { map: map.into_boxed_slice() }
}

/// Calls `cranelift_entity::BoxedSlice::values`: the values in index order.
#[verifier::external_body]
fn list_finished_functions(map: &FinishedFunctions) -> (r: Vec<(usize, usize)>)
    ensures
        r@ == finished_function_values(*map),
{
    map.map.values().cloned().collect()
}

/// Calls `cranelift_entity::BoxedSlice::clone`: the copy holds the same values.
#[verifier::external_body]
fn copy_finished_functions(map: &FinishedFunctions) -> (r: FinishedFunctions)
    ensures
        finished_function_values(r) == finished_function_values(*map),
{
    FinishedFunctions { map: map.map.clone() }
}

/// Calls the `FromIterator` of `cranelift_entity::PrimaryMap` and `into_boxed_slice`: the values
/// are stored in order, the first one under index zero.
#[verifier::external_body]
fn collect_function_entries(values: Vec<usize>) -> (r: FunctionEntries)
    ensures
        function_entry_values(r) == values@,
{
    let map: PrimaryMap<DefinedFuncIndex, usize> = values.into_iter().collect();
    FunctionEntries { map: map.into_boxed_slice() }
}

/// Calls `cranelift_entity::BoxedSlice::values`: the values in index order.
#[verifier::external_body]
fn list_function_entries(map: &FunctionEntries) -> (r: Vec<usize>)
    ensures
        r@ == function_entry_values(*map),
{
    map.map.values().cloned().collect()
}

/// Calls `cranelift_entity::BoxedSlice::clone`: the copy holds the same values.
#[verifier::external_body]
fn copy_function_entries(map: &FunctionEntries) -> (r: FunctionEntries)
    ensures
        function_entry_values(r) == function_entry_values(*map),
{
    FunctionEntries { map: map.map.clone() }
}

/// Calls the `FromIterator` of `cranelift_entity::PrimaryMap`: the values are stored in order, the
/// first one under index zero.
#[verifier::external_body]
fn collect_traps(values: Vec<Vec<TrapInformation>>) -> (r: Traps)
    ensures
        trap_values(r) == values@,
{
    Traps { map: values.into_iter().collect() }
}

/// Calls `cranelift_entity::PrimaryMap::values`: the values in index order.
#[verifier::external_body]
fn list_traps(map: &Traps) -> (r: Vec<&Vec<TrapInformation>>)
    ensures
        r.len() == trap_values(*map).len(),
        forall|i: int| 0 <= i < r.len() ==> *(#[trigger] r[i]) == trap_values(*map)[i],
{
    map.map.values().collect()
}

/// Calls the `FromIterator` of `cranelift_entity::PrimaryMap`: the values are stored in order, the
/// first one under index zero.
#[verifier::external_body]
fn collect_address_maps(values: Vec<FunctionAddressMap>) -> (r: ModuleAddressMap)
    ensures
        address_map_values(r) == values@,
{
    ModuleAddressMap { map: values.into_iter().collect() }
}

/// Calls `cranelift_entity::PrimaryMap::values`: the values in index order.
#[verifier::external_body]
fn list_address_maps(map: &ModuleAddressMap) -> (r: Vec<&FunctionAddressMap>)
    ensures
        r.len() == address_map_values(*map).len(),
        forall|i: int| 0 <= i < r.len() ==> *(#[trigger] r[i]) == address_map_values(*map)[i],
{
    map.map.values().collect()
}

impl SharedSignatures {
    /// Gives signature `i` the shared index `values[i]`.
    pub fn from_values(values: Vec<VMSharedSignatureIndex>) -> (r: Self)
        ensures
            r@ == values@,
    {
        collect_shared_signatures(values)
    }

    /// The shared indices, in the order of the signatures.
    pub fn values(&self) -> (r: Vec<VMSharedSignatureIndex>)
        ensures
            r@ == self@,
    {
        list_shared_signatures(self)
    }

    /// A map with the same entries.
    pub fn copy(&self) -> (r: Self)
        ensures
            r@ == self@,
    {
        copy_shared_signatures(self)
    }
}

impl Trampolines {
    /// Gives signature `i` the trampoline at `values[i]`.
    pub fn from_values(values: Vec<usize>) -> (r: Self)
        ensures
            r@ == values@,
    {
        collect_trampolines(values)
    }

    /// The trampoline addresses, in the order of the signatures.
    pub fn values(&self) -> (r: Vec<usize>)
        ensures
            r@ == self@,
    {
        list_trampolines(self)
    }
}

impl FinishedFunctions {
    /// Gives defined function `i` the body `values[i]`.
    pub fn from_values(values: Vec<(usize, usize)>) -> (r: Self)
        ensures
            r@ == values@,
    {
        collect_finished_functions(values)
    }

    /// The bodies, in the order of the defined functions.
    pub fn values(&self) -> (r: Vec<(usize, usize)>)
        ensures
            r@ == self@,
    {
        list_finished_functions(self)
    }

    /// A map with the same entries.
    pub fn copy(&self) -> (r: Self)
        ensures
            r@ == self@,
    {
        copy_finished_functions(self)
    }
}

impl FunctionEntries {
    /// Gives defined function `i` the entry address `values[i]`.
    pub fn from_values(values: Vec<usize>) -> (r: Self)
        ensures
            r@ == values@,
    {
        collect_function_entries(values)
    }

    /// The entry addresses, in the order of the defined functions.
    pub fn values(&self) -> (r: Vec<usize>)
        ensures
            r@ == self@,
    {
        list_function_entries(self)
    }

    /// A map with the same entries.
    pub fn copy(&self) -> (r: Self)
        ensures
            r@ == self@,
    {
        copy_function_entries(self)
    }
}

impl Traps {
    /// Gives defined function `i` the traps `values[i]`.
    pub fn from_values(values: Vec<Vec<TrapInformation>>) -> (r: Self)
        ensures
            r@ == values@,
    {
        collect_traps(values)
    }

    /// The traps, in the order of the defined functions.
    pub fn values(&self) -> (r: Vec<&Vec<TrapInformation>>)
        ensures
            r.len() == self@.len(),
            forall|i: int| 0 <= i < r.len() ==> *(#[trigger] r[i]) == self@[i],
    {
        list_traps(self)
    }
}

impl ModuleAddressMap {
    /// Gives defined function `i` the address map `values[i]`.
    pub fn from_values(values: Vec<FunctionAddressMap>) -> (r: Self)
        ensures
            r@ == values@,
    {
        collect_address_maps(values)
    }

    /// The address maps, in the order of the defined functions.
    pub fn values(&self) -> (r: Vec<&FunctionAddressMap>)
        ensures
            r.len() == self@.len(),
            forall|i: int| 0 <= i < r.len() ==> *(#[trigger] r[i]) == self@[i],
    {
        list_address_maps(self)
    }
}

/// The shared index of signature `i` is the `i`th value that the map was made of, also in a copy of
/// the map.
pub proof fn law_shared_signatures_keep_their_order(
    values: Vec<VMSharedSignatureIndex>,
    map: SharedSignatures,
    copied: SharedSignatures,
    listed: Vec<VMSharedSignatureIndex>,
)
    requires
        call_ensures(SharedSignatures::from_values, (values,), map),
        call_ensures(SharedSignatures::copy, (&map,), copied),
        call_ensures(SharedSignatures::values, (&copied,), listed),
    ensures
        shared_signature_values(map).len() == values.len(),
        forall|i: int|
            0 <= i < values.len() ==> #[trigger] shared_signature_values(map)[i] == values[i],
        listed.len() == values.len(),
        forall|i: int| 0 <= i < values.len() ==> (#[trigger] listed[i]) == values[i],
        map@ == shared_signature_values(map),
{
}

/// The trampoline of signature `i` is the `i`th value that the map was made of.
pub proof fn law_trampolines_keep_their_order(
    values: Vec<usize>,
    map: Trampolines,
    listed: Vec<usize>,
)
    requires
        call_ensures(Trampolines::from_values, (values,), map),
        call_ensures(Trampolines::values, (&map,), listed),
    ensures
        trampoline_values(map).len() == values.len(),
        forall|i: int|
            0 <= i < values.len() ==> #[trigger] trampoline_values(map)[i] == values[i],
        listed.len() == values.len(),
        forall|i: int| 0 <= i < values.len() ==> (#[trigger] listed[i]) == values[i],
        map@ == trampoline_values(map),
{
}

/// The body of defined function `i` is the `i`th value that the map was made of, also in a copy of
/// the map.
pub proof fn law_finished_functions_keep_their_order(
    values: Vec<(usize, usize)>,
    map: FinishedFunctions,
    copied: FinishedFunctions,
    listed: Vec<(usize, usize)>,
)
    requires
        call_ensures(FinishedFunctions::from_values, (values,), map),
        call_ensures(FinishedFunctions::copy, (&map,), copied),
        call_ensures(FinishedFunctions::values, (&copied,), listed),
    ensures
        finished_function_values(map).len() == values.len(),
        forall|i: int|
            0 <= i < values.len() ==> #[trigger] finished_function_values(map)[i] == values[i],
        listed.len() == values.len(),
        forall|i: int| 0 <= i < values.len() ==> (#[trigger] listed[i]) == values[i],
        map@ == finished_function_values(map),
{
}

/// The entry address of defined function `i` is the `i`th value that the map was made of, also in a
/// copy of the map.
pub proof fn law_function_entries_keep_their_order(
    values: Vec<usize>,
    map: FunctionEntries,
    copied: FunctionEntries,
    listed: Vec<usize>,
)
    requires
        call_ensures(FunctionEntries::from_values, (values,), map),
        call_ensures(FunctionEntries::copy, (&map,), copied),
        call_ensures(FunctionEntries::values, (&copied,), listed),
    ensures
        function_entry_values(map).len() == values.len(),
        forall|i: int|
            0 <= i < values.len() ==> #[trigger] function_entry_values(map)[i] == values[i],
        listed.len() == values.len(),
        forall|i: int| 0 <= i < values.len() ==> (#[trigger] listed[i]) == values[i],
        map@ == function_entry_values(map),
{
}

/// The traps of defined function `i` is the `i`th value that the map was made of.
pub proof fn law_traps_keep_their_order(
    values: Vec<Vec<TrapInformation>>,
    map: Traps,
    listed: Vec<&Vec<TrapInformation>>,
)
    requires
        call_ensures(Traps::from_values, (values,), map),
        call_ensures(Traps::values, (&map,), listed),
    ensures
        trap_values(map).len() == values.len(),
        forall|i: int|
            0 <= i < values.len() ==> #[trigger] trap_values(map)[i] == values[i],
        listed.len() == values.len(),
        forall|i: int| 0 <= i < values.len() ==> *(#[trigger] listed[i]) == values[i],
        map@ == trap_values(map),
{
}

/// The address map of defined function `i` is the `i`th value that the map was made of.
pub proof fn law_address_maps_keep_their_order(
    values: Vec<FunctionAddressMap>,
    map: ModuleAddressMap,
    listed: Vec<&FunctionAddressMap>,
)
    requires
        call_ensures(ModuleAddressMap::from_values, (values,), map),
        call_ensures(ModuleAddressMap::values, (&map,), listed),
    ensures
        address_map_values(map).len() == values.len(),
        forall|i: int|
            0 <= i < values.len() ==> #[trigger] address_map_values(map)[i] == values[i],
        listed.len() == values.len(),
        forall|i: int| 0 <= i < values.len() ==> *(#[trigger] listed[i]) == values[i],
        map@ == address_map_values(map),
{
}

} // verus!
