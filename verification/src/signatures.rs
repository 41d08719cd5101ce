//! Registration of a module's signatures in the registry that all modules share.

use cranelift_wasm::WasmFuncType;
use std::collections::HashMap;
use vstd::prelude::*;
use wasmtime_environ::ir::Signature;
use wasmtime_environ::Module;
use wasmtime_runtime::{SignatureRegistry, VMSharedSignatureIndex};

verus! {

/// `cranelift_wasm::WasmFuncType`, the parameter and result types of a function.
#[verifier::external_type_specification]
#[verifier::external_body]
pub struct ExWasmFuncType(WasmFuncType);

/// `wasmtime_environ::ir::Signature`, the native signature of a function.
#[verifier::external_type_specification]
#[verifier::external_body]
pub struct ExSignature(Signature);

/// `wasmtime_environ::Module`, the description of a translated module.
#[verifier::external_type_specification]
#[verifier::external_body]
pub struct ExModule(Module);

/// `wasmtime_runtime::SignatureRegistry`.
#[verifier::external_type_specification]
#[verifier::external_body]
pub struct ExSignatureRegistry(SignatureRegistry);

/// The signatures that a module declares, in order: `local.signatures`.
pub uninterp spec fn module_signatures(module: Module) -> Seq<(WasmFuncType, Signature)>;

/// The entries of a registry: the one at position `i` has shared index `i`.
pub uninterp spec fn registry_entries(registry: SignatureRegistry) -> Seq<
    (WasmFuncType, Signature),
>;

/// The number that a shared signature index wraps.
pub uninterp spec fn index_number(index: VMSharedSignatureIndex) -> u32;

/// Whether a function type has an entry.
pub open spec fn is_registered(
    entries: Seq<(WasmFuncType, Signature)>,
    wasm: WasmFuncType,
) -> bool {
    exists|k: int| 0 <= k < entries.len() && (#[trigger] entries[k]).0 == wasm
}

/// The entries after one signature was registered.
pub open spec fn register_one(
    entries: Seq<(WasmFuncType, Signature)>,
    signature: (WasmFuncType, Signature),
) -> Seq<(WasmFuncType, Signature)> {
    if is_registered(entries, signature.0) {
        entries
    } else {
        entries.push(signature)
    }
}

/// The entries after a list of signatures was registered, first to last.
pub open spec fn register_all(
    entries: Seq<(WasmFuncType, Signature)>,
    signatures: Seq<(WasmFuncType, Signature)>,
) -> Seq<(WasmFuncType, Signature)>
    decreases signatures.len(),
{
    if signatures.len() == 0 {
        entries
    } else {
        register_one(register_all(entries, signatures.drop_last()), signatures.last())
    }
}

/// Whether `index` is the shared index of `wasm` in a registry with these entries: its number is
/// the only position at which `wasm` stands.
pub open spec fn is_index_of(
    entries: Seq<(WasmFuncType, Signature)>,
    index: VMSharedSignatureIndex,
    wasm: WasmFuncType,
) -> bool {
    &&& index_number(index) < entries.len()
    &&& entries[index_number(index) as int].0 == wasm
    &&& forall|k: int|
        0 <= k < entries.len() && (#[trigger] entries[k]).0 == wasm ==> k == index_number(index)
    &&& forall|other: VMSharedSignatureIndex| #[trigger]
        index_number(other) == index_number(index) ==> other == index
}

/// Whether there are enough indices to register a list of signatures.
pub open spec fn fits(
    entries: Seq<(WasmFuncType, Signature)>,
    signatures: Seq<(WasmFuncType, Signature)>,
) -> bool {
    signatures.len() == 0 || register_all(entries, signatures).len() <= u32::MAX
}

/// Whether a registry went from some entries to others when it ran out of indices in the middle of
/// a list of signatures.
pub open spec fn is_partly_registered(
    before: Seq<(WasmFuncType, Signature)>,
    after: Seq<(WasmFuncType, Signature)>,
    signatures: Seq<(WasmFuncType, Signature)>,
) -> bool {
    exists|n: int|
        0 <= n < signatures.len() && after == #[trigger] register_all(before, signatures.take(n))
            && register_all(before, signatures.take(n + 1)).len() > u32::MAX
}

/// Whether `indices` are the shared indices of a list of signatures, in order.
pub open spec fn are_indices_of(
    entries: Seq<(WasmFuncType, Signature)>,
    indices: Seq<VMSharedSignatureIndex>,
    signatures: Seq<(WasmFuncType, Signature)>,
) -> bool {
    &&& indices.len() == signatures.len()
    &&& forall|i: int|
        0 <= i < indices.len() ==> is_index_of(entries, #[trigger] indices[i], signatures[i].0)
}

/// The trampolines by shared index. Where two signatures share an index, the trampoline of the
/// later one is kept.
pub open spec fn trampoline_map(
    indices: Seq<VMSharedSignatureIndex>,
    trampolines: Seq<usize>,
) -> Map<VMSharedSignatureIndex, usize>
    decreases trampolines.len(),
{
    if trampolines.len() == 0 {
        Map::empty()
    } else {
        trampoline_map(indices, trampolines.drop_last()).insert(
            indices[trampolines.len() - 1],
            trampolines.last(),
        )
    }
}

/// Reads `local.signatures` of a `wasmtime_environ::Module`: the signatures in index order.
#[verifier::external_body]
fn list_signatures(module: &Module) -> (r: Vec<(WasmFuncType, Signature)>)
    ensures
        r@ == module_signatures(*module),
{
    module.local.signatures.values().cloned().collect()
}

/// Calls `wasmtime_runtime::SignatureRegistry::register`, which panics where a new type would need
/// the index `u32::MAX`. A type that has an entry keeps its index, and the registry its entries; a
/// new one is appended. Function types have one entry each, and an index is its number.
#[verifier::external_body]
fn register(
    registry: &mut SignatureRegistry,
    wasm: WasmFuncType,
    native: Signature,
) -> (r: VMSharedSignatureIndex)
    requires
        register_one(registry_entries(*old(registry)), (wasm, native)).len() <= u32::MAX,
    ensures
        registry_entries(*final(registry)) == register_one(
            registry_entries(*old(registry)),
            (wasm, native),
        ),
        index_number(r) < registry_entries(*final(registry)).len(),
        is_index_of(registry_entries(*final(registry)), r, wasm),
{
    registry.register(wasm, native)
}

/// Calls `wasmtime_runtime::SignatureRegistry::lookup_wasm`, which knows the indices below the
/// number of entries.
#[verifier::external_body]
fn entry_type(registry: &SignatureRegistry, number: u32) -> (r: Option<WasmFuncType>)
    ensures
        match r {
            Some(wasm) => {
                &&& number < registry_entries(*registry).len()
                &&& wasm == registry_entries(*registry)[number as int].0
            },
            None => number >= registry_entries(*registry).len(),
        },
{
    registry.lookup_wasm(VMSharedSignatureIndex::new(number))
}

/// Calls the `PartialEq` of `cranelift_wasm::WasmFuncType`, which compares parameters and results.
#[verifier::external_body]
fn is_same_type(wasm: &WasmFuncType, other: &WasmFuncType) -> (r: bool)
    ensures
        r == (*wasm == *other),
{
    wasm == other
}

/// Calls `std::collections::HashMap::insert`. The key's `Eq` and `Hash` are those of its number.
#[verifier::external_body]
fn insert_trampoline(
    map: &mut HashMap<VMSharedSignatureIndex, usize>,
    key: VMSharedSignatureIndex,
    value: usize,
)
    ensures
        final(map)@ == old(map)@.insert(key, value),
{
    map.insert(key, value);
}

/// Whether a function type has an entry. A registry that gives out the last index is not searched.
fn find_type(registry: &SignatureRegistry, wasm: &WasmFuncType) -> (r: bool)
    ensures
        r == (registry_entries(*registry).len() <= u32::MAX && is_registered(
            registry_entries(*registry),
            *wasm,
        )),
{
    if entry_type(registry, u32::MAX).is_some() {
        return false;
    }
    let ghost entries = registry_entries(*registry);
    for number in 0..u32::MAX
        invariant
            entries == registry_entries(*registry),
            entries.len() <= u32::MAX,
            forall|k: int|
                0 <= k < number && k < entries.len() ==> (#[trigger] entries[k]).0 != *wasm,
    {
        match entry_type(registry, number) {
            Some(found) => {
                if is_same_type(&found, wasm) {
                    assert(entries[number as int].0 == *wasm);
                    return true;
                }
            },
            None => {
                return false;
            },
        }
    }
    false
}

/// Registers a signature, unless it would need an index that there is none of.
fn try_register(registry: &mut SignatureRegistry, wasm: WasmFuncType, native: Signature) -> (r:
    Option<VMSharedSignatureIndex>)
    ensures
        r is Some <==> register_one(registry_entries(*old(registry)), (wasm, native)).len()
            <= u32::MAX,
        match r {
            Some(index) => {
                &&& registry_entries(*final(registry)) == register_one(
                    registry_entries(*old(registry)),
                    (wasm, native),
                )
                &&& is_index_of(registry_entries(*final(registry)), index, wasm)
            },
            None => *final(registry) == *old(registry),
        },
{
    if entry_type(registry, u32::MAX - 1).is_none() || find_type(registry, &wasm) {
        Some(register(registry, wasm, native))
    } else {
        None
    }
}

/// The number of signatures that a module declares.
pub fn signature_count(module: &Module) -> (r: usize)
    ensures
        r == module_signatures(*module).len(),
{
    list_signatures(module).len()
}

/// Registering more signatures never removes an entry, nor moves one.
proof fn lemma_register_all_grows(
    entries: Seq<(WasmFuncType, Signature)>,
    signatures: Seq<(WasmFuncType, Signature)>,
    n: int,
)
    requires
        0 <= n <= signatures.len(),
    ensures
        register_all(entries, signatures.take(n)).is_prefix_of(register_all(entries, signatures)),
    decreases signatures.len() - n,
{
    if n == signatures.len() {
        assert(signatures.take(n) =~= signatures);
    } else {
        lemma_register_all_grows(entries, signatures, n + 1);
        assert(signatures.take(n + 1).drop_last() =~= signatures.take(n));
    }
}

/// Registers the signatures of a module, in order, and returns their shared indices.
pub fn register_signatures(module: &Module, registry: &mut SignatureRegistry) -> (r: Vec<
    VMSharedSignatureIndex,
>)
    requires
        fits(registry_entries(*old(registry)), module_signatures(*module)),
    ensures
        registry_entries(*final(registry)) == register_all(
            registry_entries(*old(registry)),
            module_signatures(*module),
        ),
        are_indices_of(registry_entries(*final(registry)), r@, module_signatures(*module)),
{
    let mut indices: Vec<VMSharedSignatureIndex> = Vec::new();
    let signatures = list_signatures(module);
    let ghost all = signatures@;
    let ghost before = registry_entries(*registry);
    for signature in iter: signatures
        invariant
            all == module_signatures(*module),
            iter.seq() == all,
            indices.len() == iter.index(),
            fits(before, all),
            registry_entries(*registry) == register_all(before, all.take(iter.index())),
            are_indices_of(registry_entries(*registry), indices@, all.take(iter.index())),
    {
        let ghost n = iter.index();
        proof {
            lemma_register_all_grows(before, all, n + 1);
            assert(all.take(n + 1).drop_last() =~= all.take(n));
        }
        let (wasm, native) = signature;
        let index = register(registry, wasm, native);
        indices.push(index);
    }
    proof {
        assert(all.take(all.len() as int) =~= all);
    }
    indices
}

/// Does what `register_signatures` does, unless the registry runs out of indices: the signatures
/// before the one for which there is none are then registered.
pub fn try_register_signatures(module: &Module, registry: &mut SignatureRegistry) -> (r: Option<
    Vec<VMSharedSignatureIndex>,
>)
    ensures
        r is Some <==> fits(registry_entries(*old(registry)), module_signatures(*module)),
        match r {
            Some(indices) => {
                &&& registry_entries(*final(registry)) == register_all(
                    registry_entries(*old(registry)),
                    module_signatures(*module),
                )
                &&& are_indices_of(
                    registry_entries(*final(registry)),
                    indices@,
                    module_signatures(*module),
                )
            },
            None => is_partly_registered(
                registry_entries(*old(registry)),
                registry_entries(*final(registry)),
                module_signatures(*module),
            ),
        },
{
    let mut indices: Vec<VMSharedSignatureIndex> = Vec::new();
    let signatures = list_signatures(module);
    let ghost all = signatures@;
    let ghost before = registry_entries(*registry);
    for signature in iter: signatures
        invariant
            all == module_signatures(*module),
            before == registry_entries(*old(registry)),
            iter.seq() == all,
            indices.len() == iter.index(),
            iter.index() > 0 ==> register_all(before, all.take(iter.index())).len() <= u32::MAX,
            registry_entries(*registry) == register_all(before, all.take(iter.index())),
            are_indices_of(registry_entries(*registry), indices@, all.take(iter.index())),
    {
        let ghost n = iter.index();
        proof {
            lemma_register_all_grows(before, all, n + 1);
            assert(all.take(n + 1).drop_last() =~= all.take(n));
        }
        let (wasm, native) = signature;
        match try_register(registry, wasm, native) {
            Some(index) => {
                indices.push(index);
            },
            None => {
                return None;
            },
        }
    }
    proof {
        assert(all.take(all.len() as int) =~= all);
    }
    Some(indices)
}

/// The trampolines of a module by shared index, from the index and the trampoline of each
/// signature. There may be fewer trampolines than signatures: the last signatures have none then.
pub fn index_trampolines(
    indices: &Vec<VMSharedSignatureIndex>,
    trampolines: &Vec<usize>,
) -> (r: HashMap<VMSharedSignatureIndex, usize>)
    requires
        trampolines.len() <= indices.len(),
    ensures
        r@ == trampoline_map(indices@, trampolines@),
{
    let mut map: HashMap<VMSharedSignatureIndex, usize> = HashMap::new();
    for i in 0..trampolines.len()
        invariant
            trampolines.len() <= indices.len(),
            map@ == trampoline_map(indices@, trampolines@.take(i as int)),
    {
        proof {
            assert(trampolines@.take(i + 1).drop_last() =~= trampolines@.take(i as int));
        }
        insert_trampoline(&mut map, indices[i], trampolines[i]);
    }
    proof {
        assert(trampolines@.take(trampolines.len() as int) =~= trampolines@);
    }
    map
}

/// Two signatures have the same shared index exactly if their function types are the same.
pub proof fn law_same_index_iff_same_type(
    entries: Seq<(WasmFuncType, Signature)>,
    indices: Seq<VMSharedSignatureIndex>,
    signatures: Seq<(WasmFuncType, Signature)>,
    i: int,
    j: int,
)
    requires
        are_indices_of(entries, indices, signatures),
        0 <= i < signatures.len(),
        0 <= j < signatures.len(),
    ensures
        indices[i] == indices[j] <==> signatures[i].0 == signatures[j].0,
{
    assert(is_index_of(entries, indices[i], signatures[i].0));
    assert(is_index_of(entries, indices[j], signatures[j].0));
}

/// Registered signatures have entries, whatever was registered before them.
proof fn lemma_register_all_registers(
    entries: Seq<(WasmFuncType, Signature)>,
    signatures: Seq<(WasmFuncType, Signature)>,
    i: int,
)
    requires
        0 <= i < signatures.len(),
    ensures
        is_registered(register_all(entries, signatures), signatures[i].0),
{
    let shorter = signatures.take(i + 1);
    let before = register_all(entries, shorter.drop_last());
    let after = register_all(entries, shorter);
    assert(shorter.last() == signatures[i]);
    if !is_registered(before, signatures[i].0) {
        assert(after[before.len() as int].0 == signatures[i].0);
    }
    let k = choose|k: int| 0 <= k < after.len() && (#[trigger] after[k]).0 == signatures[i].0;
    lemma_register_all_grows(entries, signatures, i + 1);
    assert(register_all(entries, signatures)[k].0 == signatures[i].0);
}

/// Registering signatures that all have entries changes nothing.
proof fn lemma_register_all_registered(
    entries: Seq<(WasmFuncType, Signature)>,
    signatures: Seq<(WasmFuncType, Signature)>,
)
    requires
        forall|i: int|
            0 <= i < signatures.len() ==> is_registered(entries, (#[trigger] signatures[i]).0),
    ensures
        register_all(entries, signatures) == entries,
    decreases signatures.len(),
{
    if signatures.len() > 0 {
        let shorter = signatures.drop_last();
        assert forall|i: int| 0 <= i < shorter.len() implies is_registered(
            entries,
            (#[trigger] shorter[i]).0,
        ) by {
            assert(shorter[i] == signatures[i]);
        }
        lemma_register_all_registered(entries, shorter);
        assert(is_registered(entries, signatures[signatures.len() - 1].0));
    }
}

/// Registering the signatures of a module once more leaves the registry as it is, also where other
/// modules were registered in between.
pub proof fn law_registering_again_changes_nothing(
    entries: Seq<(WasmFuncType, Signature)>,
    signatures: Seq<(WasmFuncType, Signature)>,
    others: Seq<(WasmFuncType, Signature)>,
)
    ensures
        register_all(register_all(register_all(entries, signatures), others), signatures)
            == register_all(register_all(entries, signatures), others),
{
    let first = register_all(entries, signatures);
    let between = register_all(first, others);
    assert forall|i: int| 0 <= i < signatures.len() implies is_registered(
        between,
        (#[trigger] signatures[i]).0,
    ) by {
        lemma_register_all_registers(entries, signatures, i);
        lemma_register_all_grows(first, others, 0);
        assert(others.take(0) =~= Seq::empty());
        let k = choose|k: int| 0 <= k < first.len() && (#[trigger] first[k]).0 == signatures[i].0;
        assert(between[k].0 == signatures[i].0);
    }
    lemma_register_all_registered(between, signatures);
}

/// Signatures have one list of shared indices: two registrations that end with the same entries
/// return the same indices.
pub proof fn law_indices_are_unique(
    entries: Seq<(WasmFuncType, Signature)>,
    first: Seq<VMSharedSignatureIndex>,
    second: Seq<VMSharedSignatureIndex>,
    signatures: Seq<(WasmFuncType, Signature)>,
)
    requires
        are_indices_of(entries, first, signatures),
        are_indices_of(entries, second, signatures),
    ensures
        first == second,
{
    assert forall|i: int| 0 <= i < first.len() implies first[i] == second[i] by {
        assert(is_index_of(entries, first[i], signatures[i].0));
        assert(is_index_of(entries, second[i], signatures[i].0));
    }
    assert(first =~= second);
}

/// The shared indices of a module stay what they are while other modules are registered.
pub proof fn law_indices_outlast_other_modules(
    entries: Seq<(WasmFuncType, Signature)>,
    indices: Seq<VMSharedSignatureIndex>,
    signatures: Seq<(WasmFuncType, Signature)>,
    others: Seq<(WasmFuncType, Signature)>,
)
    requires
        are_indices_of(entries, indices, signatures),
    ensures
        are_indices_of(register_all(entries, others), indices, signatures),
    decreases others.len(),
{
    if others.len() > 0 {
        law_indices_outlast_other_modules(entries, indices, signatures, others.drop_last());
        let before = register_all(entries, others.drop_last());
        let after = register_all(entries, others);
        assert forall|i: int| 0 <= i < indices.len() implies is_index_of(
            after,
            #[trigger] indices[i],
            signatures[i].0,
        ) by {
            assert(is_index_of(before, indices[i], signatures[i].0));
            assert(before[index_number(indices[i]) as int].0 == signatures[i].0);
            assert(after[index_number(indices[i]) as int].0 == signatures[i].0);
        }
    }
}

/// Each signature that has a trampoline is found by its shared index, and the trampoline found is
/// that of the last signature with this index.
pub proof fn law_trampoline_of_last_signature(
    indices: Seq<VMSharedSignatureIndex>,
    trampolines: Seq<usize>,
    i: int,
)
    requires
        trampolines.len() <= indices.len(),
        0 <= i < trampolines.len(),
    ensures
        trampoline_map(indices, trampolines).dom().contains(indices[i]),
        (forall|j: int| i < j < trampolines.len() ==> #[trigger] indices[j] != indices[i])
            ==> trampoline_map(indices, trampolines)[indices[i]] == trampolines[i],
    decreases trampolines.len(),
{
    if i < trampolines.len() - 1 {
        law_trampoline_of_last_signature(indices, trampolines.drop_last(), i);
    }
}

/// A shared index has a trampoline only if a signature with a trampoline has this index.
pub proof fn law_trampolines_only_of_signatures(
    indices: Seq<VMSharedSignatureIndex>,
    trampolines: Seq<usize>,
    key: VMSharedSignatureIndex,
)
    requires
        trampolines.len() <= indices.len(),
        trampoline_map(indices, trampolines).dom().contains(key),
    ensures
        exists|i: int| 0 <= i < trampolines.len() && #[trigger] indices[i] == key,
    decreases trampolines.len(),
{
    if trampolines.len() > 0 {
        let n = trampolines.len() - 1;
        if indices[n] != key {
            law_trampolines_only_of_signatures(indices, trampolines.drop_last(), key);
        }
    }
}

/// What a registry holds after a list of signatures was registered: what it held before, and then
/// signatures of the list, each of a type that no earlier entry has, in the order of the list.
pub(crate) proof fn lemma_register_all_appends(
    entries: Seq<(WasmFuncType, Signature)>,
    signatures: Seq<(WasmFuncType, Signature)>,
)
    ensures
        entries.is_prefix_of(register_all(entries, signatures)),
        register_all(entries, signatures).len() <= entries.len() + signatures.len(),
        forall|i: int|
            0 <= i < signatures.len() ==> is_registered(
                register_all(entries, signatures),
                (#[trigger] signatures[i]).0,
            ),
        forall|k: int|
            entries.len() <= k < register_all(entries, signatures).len() ==> exists|i: int| {
                &&& 0 <= i < signatures.len()
                &&& #[trigger] signatures[i] == #[trigger] register_all(entries, signatures)[k]
                &&& forall|j: int|
                    0 <= j < i ==> is_registered(
                        register_all(entries, signatures).take(k),
                        (#[trigger] signatures[j]).0,
                    )
            },
        forall|j: int, k: int|
            0 <= j < k < register_all(entries, signatures).len() && entries.len() <= k ==> (
            #[trigger] register_all(entries, signatures)[j]).0 != (#[trigger] register_all(
                entries,
                signatures,
            )[k]).0,
    decreases signatures.len(),
{
    let after = register_all(entries, signatures);
    if signatures.len() > 0 {
        let shorter = signatures.drop_last();
        let n = signatures.len() - 1;
        let before = register_all(entries, shorter);
        lemma_register_all_appends(entries, shorter);
        assert forall|i: int| 0 <= i < signatures.len() implies is_registered(
            after,
            (#[trigger] signatures[i]).0,
        ) by {
            lemma_register_all_registers(entries, signatures, i);
        }
        assert forall|k: int| entries.len() <= k < after.len() implies exists|i: int| {
            &&& 0 <= i < signatures.len()
            &&& #[trigger] signatures[i] == #[trigger] after[k]
            &&& forall|j: int|
                0 <= j < i ==> is_registered(after.take(k), (#[trigger] signatures[j]).0)
        } by {
            if k < before.len() {
                assert(before[k] == after[k]);
                let i = choose|i: int| {
                    &&& 0 <= i < shorter.len()
                    &&& #[trigger] shorter[i] == before[k]
                    &&& forall|j: int|
                        0 <= j < i ==> is_registered(before.take(k), (#[trigger] shorter[j]).0)
                };
                assert(signatures[i] == after[k]);
                assert(before.take(k) =~= after.take(k));
                assert forall|j: int| 0 <= j < i implies is_registered(
                    after.take(k),
                    (#[trigger] signatures[j]).0,
                ) by {
                    assert(shorter[j] == signatures[j]);
                }
            } else {
                assert(after.take(k) =~= before);
                assert(signatures[n] == after[k]);
                assert forall|j: int| 0 <= j < n implies is_registered(
                    after.take(k),
                    (#[trigger] signatures[j]).0,
                ) by {
                    assert(shorter[j] == signatures[j]);
                }
            }
        }
        assert forall|j: int, k: int|
            0 <= j < k < after.len() && entries.len() <= k implies (#[trigger] after[j]).0 != (
        #[trigger] after[k]).0 by {
            if k < before.len() {
                assert(before[j] == after[j]);
                assert(before[k] == after[k]);
            } else {
                assert(before[j] == after[j]);
                assert(after[k] == signatures[n]);
            }
        }
    }
}

/// Each signature of a module gets the index at which its type stands in the registry, so that
/// signatures share an index exactly if they have the same type. Nothing that stood there before is
/// removed or moved, and a type that stood there before is not entered again.
pub proof fn law_signatures_are_registered(
    module: &Module,
    registry: &mut SignatureRegistry,
    r: Vec<VMSharedSignatureIndex>,
)
    requires
        call_ensures(register_signatures, (module, registry), r),
    ensures
        ({
            let signatures = module_signatures(*module);
            let before = registry_entries(*old(registry));
            let after = registry_entries(*final(registry));
            &&& r.len() == signatures.len()
            &&& before.len() <= after.len() <= before.len() + signatures.len()
            &&& forall|k: int| 0 <= k < before.len() ==> #[trigger] after[k] == before[k]
            &&& forall|i: int|
                0 <= i < signatures.len() ==> {
                    &&& index_number(#[trigger] r@[i]) < after.len()
                    &&& after[index_number(r@[i]) as int].0 == signatures[i].0
                }
            &&& forall|i: int, j: int|
                0 <= i < signatures.len() && 0 <= j < signatures.len() ==> (#[trigger] r@[i]
                    == #[trigger] r@[j] <==> signatures[i].0 == signatures[j].0)
            &&& forall|j: int, k: int|
                0 <= j < k < after.len() && before.len() <= k ==> (#[trigger] after[j]).0 != (
                #[trigger] after[k]).0
        }),
{
    lemma_indices_in_order(registry_entries(*old(registry)), module_signatures(*module), r@);
}

/// What registering the signatures of a module enters anew is a signature of the module, with its
/// native signature, and comes after the entries of all signatures before it.
pub proof fn law_new_entries_stand_in_order(
    module: &Module,
    registry: &mut SignatureRegistry,
    r: Vec<VMSharedSignatureIndex>,
    k: int,
) -> (i: int)
    requires
        call_ensures(register_signatures, (module, registry), r),
        registry_entries(*old(registry)).len() <= k < registry_entries(*final(registry)).len(),
    ensures
        0 <= i < module_signatures(*module).len(),
        registry_entries(*final(registry))[k] == module_signatures(*module)[i],
        index_number(r@[i]) == k,
        forall|j: int| 0 <= j < i ==> index_number(#[trigger] r@[j]) < k,
{
    lemma_indices_in_order(registry_entries(*old(registry)), module_signatures(*module), r@);
    lemma_new_entry(registry_entries(*old(registry)), module_signatures(*module), r@, k)
}

pub(crate) proof fn lemma_indices_in_order(
    before: Seq<(WasmFuncType, Signature)>,
    signatures: Seq<(WasmFuncType, Signature)>,
    indices: Seq<VMSharedSignatureIndex>,
)
    requires
        are_indices_of(register_all(before, signatures), indices, signatures),
    ensures
        ({
            let after = register_all(before, signatures);
            &&& indices.len() == signatures.len()
            &&& before.len() <= after.len() <= before.len() + signatures.len()
            &&& forall|k: int| 0 <= k < before.len() ==> #[trigger] after[k] == before[k]
            &&& forall|i: int|
                0 <= i < signatures.len() ==> {
                    &&& index_number(#[trigger] indices[i]) < after.len()
                    &&& after[index_number(indices[i]) as int].0 == signatures[i].0
                }
            &&& forall|i: int, j: int|
                0 <= i < signatures.len() && 0 <= j < signatures.len() ==> (#[trigger] indices[i]
                    == #[trigger] indices[j] <==> signatures[i].0 == signatures[j].0)
            &&& forall|j: int, k: int|
                0 <= j < k < after.len() && before.len() <= k ==> (#[trigger] after[j]).0 != (
                #[trigger] after[k]).0
        }),
{
    lemma_register_all_appends(before, signatures);
    assert forall|i: int, j: int|
        0 <= i < signatures.len() && 0 <= j < signatures.len() implies (#[trigger] indices[i]
        == #[trigger] indices[j] <==> signatures[i].0 == signatures[j].0) by {
        law_same_index_iff_same_type(
            register_all(before, signatures),
            indices,
            signatures,
            i,
            j,
        );
    }
}

pub(crate) proof fn lemma_new_entry(
    before: Seq<(WasmFuncType, Signature)>,
    signatures: Seq<(WasmFuncType, Signature)>,
    indices: Seq<VMSharedSignatureIndex>,
    k: int,
) -> (i: int)
    requires
        are_indices_of(register_all(before, signatures), indices, signatures),
        before.len() <= k < register_all(before, signatures).len(),
    ensures
        0 <= i < signatures.len(),
        register_all(before, signatures)[k] == signatures[i],
        index_number(indices[i]) == k,
        forall|j: int| 0 <= j < i ==> index_number(#[trigger] indices[j]) < k,
{
    let after = register_all(before, signatures);
    lemma_register_all_appends(before, signatures);
    let i = choose|i: int| {
        &&& 0 <= i < signatures.len()
        &&& #[trigger] signatures[i] == after[k]
        &&& forall|j: int| 0 <= j < i ==> is_registered(after.take(k), (#[trigger] signatures[j]).0)
    };
    assert(is_index_of(after, indices[i], signatures[i].0));
    assert(after[k].0 == signatures[i].0);
    assert forall|j: int| 0 <= j < i implies index_number(#[trigger] indices[j]) < k by {
        assert(is_index_of(after, indices[j], signatures[j].0));
        assert(is_registered(after.take(k), signatures[j].0));
        let m = choose|m: int|
            0 <= m < after.take(k).len() && (#[trigger] after.take(k)[m]).0 == signatures[j].0;
        assert(after[m].0 == signatures[j].0);
    }
    i
}

/// A registry that ran out of indices has all of them in use, keeps what it held, and holds nothing
/// new but signatures of the list.
pub(crate) proof fn lemma_partly_registered(
    before: Seq<(WasmFuncType, Signature)>,
    after: Seq<(WasmFuncType, Signature)>,
    signatures: Seq<(WasmFuncType, Signature)>,
)
    requires
        is_partly_registered(before, after, signatures),
    ensures
        after.len() >= u32::MAX,
        before.is_prefix_of(after),
        forall|k: int|
            before.len() <= k < after.len() ==> signatures.contains(#[trigger] after[k]),
{
    let n = choose|n: int|
        0 <= n < signatures.len() && after == #[trigger] register_all(before, signatures.take(n))
            && register_all(before, signatures.take(n + 1)).len() > u32::MAX;
    let part = signatures.take(n);
    lemma_register_all_appends(before, part);
    assert(signatures.take(n + 1).drop_last() =~= part);
    assert forall|k: int| before.len() <= k < after.len() implies signatures.contains(
        #[trigger] after[k],
    ) by {
        let i = choose|i: int| {
            &&& 0 <= i < part.len()
            &&& #[trigger] part[i] == after[k]
            &&& forall|j: int| 0 <= j < i ==> is_registered(after.take(k), (#[trigger] part[j]).0)
        };
        assert(signatures[i] == after[k]);
    }
}

/// Trying to register does what registering does where there are enough indices, which is so at
/// least where each signature can have one of its own, or where all types are registered already.
/// Otherwise it stops at a signature for which there is no index, with those before it registered.
pub proof fn law_trying_stops_only_without_indices(
    module: &Module,
    registry: &mut SignatureRegistry,
    r: Option<Vec<VMSharedSignatureIndex>>,
)
    requires
        call_ensures(try_register_signatures, (module, registry), r),
    ensures
        ({
            let signatures = module_signatures(*module);
            let before = registry_entries(*old(registry));
            let after = registry_entries(*final(registry));
            &&& before.len() + signatures.len() <= u32::MAX ==> r is Some
            &&& signatures.len() == 0 ==> r is Some && after == before
            &&& before.len() <= u32::MAX && (forall|i: int|
                0 <= i < signatures.len() ==> exists|k: int|
                    0 <= k < before.len() && (#[trigger] before[k]).0 == (
                    #[trigger] signatures[i]).0) ==> r is Some && after == before
            &&& forall|k: int| 0 <= k < before.len() ==> #[trigger] after[k] == before[k]
            &&& before.len() <= after.len()
            &&& r matches Some(indices) ==> {
                &&& indices.len() == signatures.len()
                &&& signatures.len() > 0 ==> after.len() <= u32::MAX
                &&& forall|i: int|
                    0 <= i < signatures.len() ==> {
                        &&& index_number(#[trigger] indices[i]) < after.len()
                        &&& after[index_number(indices[i]) as int].0 == signatures[i].0
                    }
                &&& forall|i: int, j: int|
                    0 <= i < signatures.len() && 0 <= j < signatures.len() ==> (
                    #[trigger] indices[i] == #[trigger] indices[j] <==> signatures[i].0
                        == signatures[j].0)
            }
            &&& r is None ==> exists|n: int| {
                &&& 0 <= n < signatures.len()
                &&& after.len() >= u32::MAX
                &&& (forall|k: int|
                    0 <= k < after.len() ==> (#[trigger] after[k]).0 != (
                    #[trigger] signatures[n]).0) || after.len() > u32::MAX
                &&& forall|i: int|
                    0 <= i < n ==> exists|k: int|
                        0 <= k < after.len() && (#[trigger] after[k]).0 == (
                        #[trigger] signatures[i]).0
                &&& forall|k: int|
                    before.len() <= k < after.len() ==> exists|i: int|
                        0 <= i < n && #[trigger] signatures[i] == #[trigger] after[k]
            }
        }),
{
    let signatures = module_signatures(*module);
    let before = registry_entries(*old(registry));
    let after = registry_entries(*final(registry));
    let all = register_all(before, signatures);
    lemma_register_all_appends(before, signatures);
    if forall|i: int|
        0 <= i < signatures.len() ==> exists|k: int|
            0 <= k < before.len() && (#[trigger] before[k]).0 == (#[trigger] signatures[i]).0 {
        assert forall|i: int| 0 <= i < signatures.len() implies is_registered(
            before,
            (#[trigger] signatures[i]).0,
        ) by {}
        lemma_register_all_registered(before, signatures);
    }
    match r {
        Some(indices) => {
            lemma_indices_in_order(before, signatures, indices@);
        },
        None => {
            let n = choose|n: int|
                0 <= n < signatures.len() && after == #[trigger] register_all(
                    before,
                    signatures.take(n),
                ) && register_all(before, signatures.take(n + 1)).len() > u32::MAX;
            let part = signatures.take(n);
            lemma_register_all_appends(before, part);
            assert(signatures.take(n + 1).drop_last() =~= part);
            assert(signatures.take(n + 1).last() == signatures[n]);
            if after.len() <= u32::MAX {
                assert(!is_registered(after, signatures[n].0));
            }
            assert forall|i: int| 0 <= i < n implies exists|k: int|
                0 <= k < after.len() && (#[trigger] after[k]).0 == (#[trigger] signatures[i]).0 by {
                assert(part[i] == signatures[i]);
                assert(is_registered(after, part[i].0));
            }
            assert forall|k: int| before.len() <= k < after.len() implies exists|i: int|
                0 <= i < n && #[trigger] signatures[i] == #[trigger] after[k] by {
                let i = choose|i: int| {
                    &&& 0 <= i < part.len()
                    &&& #[trigger] part[i] == after[k]
                    &&& forall|j: int|
                        0 <= j < i ==> is_registered(after.take(k), (#[trigger] part[j]).0)
                };
                assert(signatures[i] == after[k]);
            }
            assert(signatures[n] == signatures[n]);
        },
    }
}

/// Where trying to register succeeds, what is entered anew is as with `register_signatures`.
pub proof fn law_tried_entries_stand_in_order(
    module: &Module,
    registry: &mut SignatureRegistry,
    r: Vec<VMSharedSignatureIndex>,
    k: int,
) -> (i: int)
    requires
        call_ensures(try_register_signatures, (module, registry), Some(r)),
        registry_entries(*old(registry)).len() <= k < registry_entries(*final(registry)).len(),
    ensures
        0 <= i < module_signatures(*module).len(),
        registry_entries(*final(registry))[k] == module_signatures(*module)[i],
        index_number(r@[i]) == k,
        forall|j: int| 0 <= j < i ==> index_number(#[trigger] r@[j]) < k,
        forall|j: int|
            0 <= j < k ==> (#[trigger] registry_entries(*final(registry))[j]).0
                != module_signatures(*module)[i].0,
{
    lemma_indices_in_order(registry_entries(*old(registry)), module_signatures(*module), r@);
    lemma_new_entry(registry_entries(*old(registry)), module_signatures(*module), r@, k)
}

/// A module has as many signatures as it declares.
pub proof fn law_signatures_are_all_counted(module: &Module, r: usize)
    requires
        call_ensures(signature_count, (module,), r),
    ensures
        r == module_signatures(*module).len(),
{
}

/// The trampolines that were indexed are found: under each index that a signature with a trampoline
/// has, that of the last such signature, and nothing under any other index.
pub proof fn law_trampolines_are_found_by_index(
    indices: Vec<VMSharedSignatureIndex>,
    trampolines: Vec<usize>,
    r: HashMap<VMSharedSignatureIndex, usize>,
)
    requires
        trampolines.len() <= indices.len(),
        call_ensures(index_trampolines, (&indices, &trampolines), r),
    ensures
        forall|i: int|
            0 <= i < trampolines.len() ==> r@.dom().contains(#[trigger] indices[i]),
        forall|i: int|
            0 <= i < trampolines.len() && (forall|j: int|
                i < j < trampolines.len() ==> #[trigger] indices[j] != indices[i])
                ==> r@[#[trigger] indices[i]] == trampolines[i],
        forall|key: VMSharedSignatureIndex| #[trigger]
            r@.dom().contains(key) ==> exists|i: int|
                0 <= i < trampolines.len() && #[trigger] indices[i] == key,
{
    lemma_trampolines_by_index(indices@, trampolines@);
}

/// What `trampoline_map` holds, for all indices at once.
pub(crate) proof fn lemma_trampolines_by_index(
    indices: Seq<VMSharedSignatureIndex>,
    trampolines: Seq<usize>,
)
    requires
        trampolines.len() <= indices.len(),
    ensures
        forall|i: int|
            0 <= i < trampolines.len() ==> trampoline_map(indices, trampolines).dom().contains(
                #[trigger] indices[i],
            ),
        forall|i: int|
            0 <= i < trampolines.len() && (forall|j: int|
                i < j < trampolines.len() ==> #[trigger] indices[j] != indices[i])
                ==> trampoline_map(indices, trampolines)[#[trigger] indices[i]] == trampolines[i],
        forall|key: VMSharedSignatureIndex| #[trigger]
            trampoline_map(indices, trampolines).dom().contains(key) ==> exists|i: int|
                0 <= i < trampolines.len() && #[trigger] indices[i] == key,
{
    assert forall|i: int| 0 <= i < trampolines.len() implies trampoline_map(
        indices,
        trampolines,
    ).dom().contains(#[trigger] indices[i]) by {
        law_trampoline_of_last_signature(indices, trampolines, i);
    }
    assert forall|i: int|
        0 <= i < trampolines.len() && (forall|j: int|
            i < j < trampolines.len() ==> #[trigger] indices[j] != indices[i]) implies trampoline_map(
        indices,
        trampolines,
    )[#[trigger] indices[i]] == trampolines[i] by {
        law_trampoline_of_last_signature(indices, trampolines, i);
    }
    assert forall|key: VMSharedSignatureIndex| #[trigger]
        trampoline_map(indices, trampolines).dom().contains(key) implies exists|i: int|
        0 <= i < trampolines.len() && #[trigger] indices[i] == key by {
        law_trampolines_only_of_signatures(indices, trampolines, key);
    }
}

/// Signatures can be registered where each can have an index of its own, or where all types are
/// registered already; whether they can is not asked when trying. Trampolines can be indexed where
/// there are no more of them than indices.
pub proof fn law_registering_is_possible_where_there_is_room(
    module: &Module,
    registry: &mut SignatureRegistry,
    indices: Vec<VMSharedSignatureIndex>,
    trampolines: Vec<usize>,
)
    ensures
        registry_entries(*old(registry)).len() + module_signatures(*module).len() <= u32::MAX
            ==> call_requires(register_signatures, (module, registry)),
        registry_entries(*old(registry)).len() <= u32::MAX && (forall|i: int|
            0 <= i < module_signatures(*module).len() ==> exists|k: int|
                0 <= k < registry_entries(*old(registry)).len() && (
                #[trigger] registry_entries(*old(registry))[k]).0 == (
                #[trigger] module_signatures(*module)[i]).0) ==> call_requires(
            register_signatures,
            (module, registry),
        ),
        call_requires(try_register_signatures, (module, registry)),
        trampolines.len() <= indices.len() ==> call_requires(
            index_trampolines,
            (&indices, &trampolines),
        ),
{
    let signatures = module_signatures(*module);
    let before = registry_entries(*old(registry));
    lemma_register_all_appends(before, signatures);
    if forall|i: int|
        0 <= i < signatures.len() ==> exists|k: int|
            0 <= k < before.len() && (#[trigger] before[k]).0 == (#[trigger] signatures[i]).0 {
        assert forall|i: int| 0 <= i < signatures.len() implies is_registered(
            before,
            (#[trigger] signatures[i]).0,
        ) by {}
        lemma_register_all_registered(before, signatures);
    }
}

} // verus!
