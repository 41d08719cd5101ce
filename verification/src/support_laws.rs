//! Which binaries are refused, and for what: laws of `support`, over what their payloads hold.

use crate::error::WasmError;
use crate::payload;
use crate::payload::{
    Contents, DataPlace, DataSegment, ElementPlace, ElementSegment, ExportEntry, ExportKind,
    FunctionEntry, GlobalEntry, ImportDesc, ImportEntry, Item, Leading, Mark, MemoryLimits,
    TableEntry, TypeEntry, ValueType,
};
use crate::support;
use crate::support::{
    check_binary, check_function_types, Context, ContextView, Entry, Verdict, VerdictView,
};
use vstd::prelude::*;
use wasmparser::Payload;

verus! {

/// A type is refused exactly if it is not a function type, or if one of its parameters or results
/// is of a type that no value has.
pub proof fn law_function_types_over_values_are_translated(
    entry: TypeEntry,
    number: usize,
    context: Context,
    r: Verdict,
)
    requires
        call_ensures(<TypeEntry as Entry>::judge, (&entry, number, &context), r),
    ensures
        r@ == entry.verdict(number, context@),
        r is Continue || (r matches Verdict::Refuse(reason) && reason@ == "unsupported type"@),
        match entry {
            TypeEntry::Function(function) => {
                let (params, results) = payload::function_types(function);
                r is Continue <==> {
                    &&& forall|i: int|
                        0 <= i < params.len() ==> match #[trigger] payload::value_type(params[i]) {
                            ValueType::I32
                            | ValueType::I64
                            | ValueType::F32
                            | ValueType::F64
                            | ValueType::V128
                            | ValueType::FuncRef
                            | ValueType::ExternRef => true,
                            ValueType::Func | ValueType::EmptyBlockType => false,
                        }
                    &&& forall|i: int|
                        0 <= i < results.len() ==> match #[trigger] payload::value_type(results[i]) {
                            ValueType::I32
                            | ValueType::I64
                            | ValueType::F32
                            | ValueType::F64
                            | ValueType::V128
                            | ValueType::FuncRef
                            | ValueType::ExternRef => true,
                            ValueType::Func | ValueType::EmptyBlockType => false,
                        }
                }
            },
            TypeEntry::Module | TypeEntry::Instance => !(r is Continue),
        },
{
}

/// Translation stops at a shared memory, and is refused a memory exactly if the memory is larger
/// than the bound of static memories and cannot grow beyond it.
pub proof fn law_memories_within_the_bound_are_translated(
    limits: MemoryLimits,
    number: usize,
    context: Context,
    r: Verdict,
)
    requires
        call_ensures(<MemoryLimits as Entry>::judge, (&limits, number, &context), r),
    ensures
        r@ == limits.verdict(number, context@),
        r is Stop <==> limits.shared,
        r is Refuse <==> {
            &&& !limits.shared
            &&& limits.initial > context.static_memory_bound
            &&& match limits.maximum {
                Some(maximum) => maximum <= context.static_memory_bound,
                None => context.static_memory_bound >= 0x10000,
            }
        },
        r matches Verdict::Refuse(reason) ==> reason@ == "unsupported memory"@,
{
}

/// An import is refused exactly if it has no field name, imports a module or an instance, comes
/// after definitions of its kind, is a function whose type has the reserved index, or a memory that
/// is refused. Translation stops at tables and globals of a type that no value has.
pub proof fn law_named_imports_before_definitions_are_translated(
    entry: ImportEntry,
    number: usize,
    context: Context,
    r: Verdict,
)
    requires
        call_ensures(<ImportEntry as Entry>::judge, (&entry, number, &context), r),
    ensures
        r@ == entry.verdict(number, context@),
        !entry.named ==> (r matches Verdict::Refuse(reason) && reason@
            == "import without a field name"@),
        entry.named ==> match payload::import_desc(entry.ty) {
            ImportDesc::Function(index) => if context.functions || index == u32::MAX {
                r matches Verdict::Refuse(reason) && reason@ == "unsupported import"@
            } else {
                r is Continue
            },
            ImportDesc::Table(ty) => match payload::value_type(ty) {
                ValueType::Func | ValueType::EmptyBlockType => r is Stop,
                _ => if context.tables {
                    r matches Verdict::Refuse(reason) && reason@ == "unsupported import"@
                } else {
                    r is Continue
                },
            },
            ImportDesc::Global(ty) => match payload::value_type(ty) {
                ValueType::Func | ValueType::EmptyBlockType => r is Stop,
                _ => if context.globals {
                    r matches Verdict::Refuse(reason) && reason@ == "unsupported import"@
                } else {
                    r is Continue
                },
            },
            ImportDesc::Memory(limits) => if context.memories {
                r matches Verdict::Refuse(reason) && reason@ == "unsupported import"@
            } else {
                forall|other: Verdict| #[trigger]
                    call_ensures(<MemoryLimits as Entry>::judge, (&limits, number, &context), other)
                        ==> other@ == r@
            },
            ImportDesc::Module | ImportDesc::Instance => {
                r matches Verdict::Refuse(reason) && reason@ == "unsupported import"@
            },
        },
{
}

/// A function is refused exactly if its type has the reserved index; translation stops at a table
/// exactly if its elements are of a type that no value has.
pub proof fn law_functions_and_tables_are_translated(
    function: FunctionEntry,
    table: TableEntry,
    number: usize,
    context: Context,
    results: (Verdict, Verdict),
)
    requires
        call_ensures(<FunctionEntry as Entry>::judge, (&function, number, &context), results.0),
        call_ensures(<TableEntry as Entry>::judge, (&table, number, &context), results.1),
    ensures
        results.0@ == function.verdict(number, context@),
        results.1@ == table.verdict(number, context@),
        results.0 is Continue <==> function.type_index != u32::MAX,
        results.0 is Stop ==> false,
        results.0 matches Verdict::Refuse(reason) ==> reason@ == "unsupported function"@,
        results.1 is Stop <==> match payload::value_type(table.element) {
            ValueType::Func | ValueType::EmptyBlockType => true,
            _ => false,
        },
        results.1 is Refuse ==> false,
{
}

/// A global is refused exactly if its initial value refers to the reserved index. Translation stops
/// where the initial value is no constant, function or global, or the type is one that no value
/// has.
pub proof fn law_globals_with_initial_values_are_translated(
    entry: GlobalEntry<'_>,
    number: usize,
    context: Context,
    r: Verdict,
)
    requires
        call_ensures(<GlobalEntry<'_> as Entry>::judge, (&entry, number, &context), r),
    ensures
        r@ == entry.verdict(number, context@),
        match payload::leading_operator(entry.value) {
            None | Some(Leading::Other) => r is Stop,
            Some(Leading::RefFunc(index)) | Some(Leading::GlobalGet(index)) => (r is Refuse
                <==> index == u32::MAX),
            Some(Leading::I32Const)
            | Some(Leading::I64Const)
            | Some(Leading::F32Const)
            | Some(Leading::F64Const)
            | Some(Leading::V128Const)
            | Some(Leading::RefNull) => !(r is Refuse),
        },
        r is Continue ==> match payload::value_type(entry.ty) {
            ValueType::Func | ValueType::EmptyBlockType => false,
            _ => true,
        },
        r is Stop ==> {
            ||| payload::leading_operator(entry.value) is None
            ||| payload::leading_operator(entry.value) == Some(Leading::Other)
            ||| payload::value_type(entry.ty) == ValueType::Func
            ||| payload::value_type(entry.ty) == ValueType::EmptyBlockType
        },
        r matches Verdict::Refuse(reason) ==> reason@ == "unsupported global"@,
{
}

/// An export is refused exactly if it is of module linking, or has the reserved index.
pub proof fn law_exports_are_translated(
    entry: ExportEntry,
    number: usize,
    context: Context,
    r: Verdict,
)
    requires
        call_ensures(<ExportEntry as Entry>::judge, (&entry, number, &context), r),
    ensures
        r@ == entry.verdict(number, context@),
        r is Continue <==> entry.index != u32::MAX && match entry.kind {
            ExportKind::Function | ExportKind::Table | ExportKind::Memory | ExportKind::Global =>
                true,
            ExportKind::Type | ExportKind::Module | ExportKind::Instance => false,
        },
        r is Stop ==> false,
        r matches Verdict::Refuse(reason) ==> reason@ == "unsupported export"@,
{
}

/// What translation does with the items of an element segment: the first that cannot be read, or
/// that is the reserved index, decides.
proof fn lemma_first_item_decides(items: Seq<Option<Item>>, n: int)
    requires
        0 <= n <= items.len(),
        forall|j: int|
            0 <= j < n ==> #[trigger] items[j] is Some && items[j] != Some(
                Item::Function(u32::MAX),
            ),
        n < items.len() ==> items[n] is None || items[n] == Some(Item::Function(u32::MAX)),
    ensures
        n == items.len() ==> support::items_verdict(items, 0) is Continue,
        n < items.len() && items[n] is None ==> support::items_verdict(items, 0) is Stop,
        n < items.len() && items[n] is Some ==> support::items_verdict(items, 0)
            == VerdictView::Refuse("unsupported element segment"@),
{
    lemma_items_from(items, n, n);
}

proof fn lemma_items_from(items: Seq<Option<Item>>, n: int, k: int)
    requires
        0 <= k <= n <= items.len(),
        forall|j: int|
            0 <= j < n ==> #[trigger] items[j] is Some && items[j] != Some(
                Item::Function(u32::MAX),
            ),
    ensures
        support::items_verdict(items, n - k) == support::items_verdict(items, n),
    decreases k,
{
    if k > 0 {
        lemma_items_from(items, n, k - 1);
        assert(items[n - k] is Some);
    }
}

/// Items are refused for one reason only.
proof fn lemma_items_reason(items: Seq<Option<Item>>, i: int)
    ensures
        support::items_verdict(items, i) matches VerdictView::Refuse(reason) ==> reason
            == "unsupported element segment"@,
    decreases items.len() - i,
{
    if 0 <= i < items.len() {
        lemma_items_reason(items, i + 1);
    }
}

/// An element segment of function references, in which `n` items that can be read and are not the
/// reserved index come first: translation stops if the next cannot be read, it is refused if the
/// next is the reserved index, and if there is none its place decides. Of passive segments it is
/// refused exactly one with the number of a passive segment of an earlier section.
pub proof fn law_element_segments_are_translated(
    segment: ElementSegment<'_>,
    number: usize,
    context: Context,
    r: Verdict,
    n: int,
)
    requires
        call_ensures(<ElementSegment<'_> as Entry>::judge, (&segment, number, &context), r),
    ensures
        r@ == segment.verdict(number, context@),
        r matches Verdict::Refuse(reason) ==> reason@ == "unsupported element segment"@,
        payload::value_type(segment.ty) != ValueType::FuncRef ==> r is Stop,
        payload::segment_items(segment.items) is None ==> r is Stop,
        payload::value_type(segment.ty) == ValueType::FuncRef ==> (payload::segment_items(
            segment.items,
        ) matches Some(items) ==> 0 <= n <= items.len() ==> (forall|j: int|
            0 <= j < n ==> #[trigger] items[j] is Some && items[j] != Some(
                Item::Function(u32::MAX),
            )) ==> {
            &&& n < items.len() && items[n] is None ==> r is Stop
            &&& n < items.len() && items[n] == Some(Item::Function(u32::MAX)) ==> r is Refuse
            &&& n == items.len() ==> match segment.place {
                ElementPlace::Active(table, offset) => match payload::leading_operator(offset) {
                    Some(Leading::I32Const) => if table == u32::MAX {
                        r is Refuse
                    } else {
                        r is Continue
                    },
                    Some(Leading::GlobalGet(global)) => if table == u32::MAX || global
                        == u32::MAX {
                        r is Refuse
                    } else {
                        r is Continue
                    },
                    _ => r is Stop,
                },
                ElementPlace::Passive => if exists|s: int|
                    0 <= s < context.segments.len() && number < (
                    #[trigger] context.segments[s]).len() && context.segments[s][number as int] {
                    r is Refuse
                } else {
                    r is Continue
                },
                ElementPlace::Declared => r is Continue,
            }
        }),
{
    if let Some(items) = payload::segment_items(segment.items) {
        lemma_items_reason(items, 0);
        if 0 <= n <= items.len() && (forall|j: int|
            0 <= j < n ==> #[trigger] items[j] is Some && items[j] != Some(
                Item::Function(u32::MAX),
            )) && (n < items.len() ==> items[n] is None || items[n] == Some(
            Item::Function(u32::MAX),
        )) {
            lemma_first_item_decides(items, n);
        }
    }
    lemma_was_passive(context.segments, number);
}

/// Whether a segment was passive, in terms of the flags themselves.
proof fn lemma_was_passive(sections: Vec<Vec<bool>>, number: usize)
    ensures
        support::was_passive(sections.deep_view(), number) <==> exists|s: int|
            0 <= s < sections.len() && number < (#[trigger] sections[s]).len()
                && sections[s][number as int],
{
    let flags = sections.deep_view();
    if support::was_passive(flags, number) {
        let s = choose|s: int|
            0 <= s < flags.len() && number < (#[trigger] flags[s]).len()
                && flags[s][number as int];
        assert(flags[s] == sections[s].deep_view());
        assert(number < sections[s].len() && sections[s][number as int]);
    }
    if exists|s: int|
        0 <= s < sections.len() && number < (#[trigger] sections[s]).len()
            && sections[s][number as int] {
        let s = choose|s: int|
            0 <= s < sections.len() && number < (#[trigger] sections[s]).len()
                && sections[s][number as int];
        assert(flags[s] == sections[s].deep_view());
        assert(number < flags[s].len() && flags[s][number as int]);
    }
}

/// A data segment is refused exactly if its memory or the global of its offset has the reserved
/// index, or if it is passive and has the number of a passive segment of an earlier section.
/// Translation stops at an offset that is neither a constant nor a global.
pub proof fn law_data_segments_are_translated(
    segment: DataSegment<'_>,
    number: usize,
    context: Context,
    r: Verdict,
)
    requires
        call_ensures(<DataSegment<'_> as Entry>::judge, (&segment, number, &context), r),
    ensures
        r@ == segment.verdict(number, context@),
        r matches Verdict::Refuse(reason) ==> reason@ == "unsupported data segment"@,
        match segment.place {
            DataPlace::Active(memory, offset) => match payload::leading_operator(offset) {
                Some(Leading::I32Const) => if memory == u32::MAX {
                    r is Refuse
                } else {
                    r is Continue
                },
                Some(Leading::GlobalGet(global)) => if memory == u32::MAX || global == u32::MAX {
                    r is Refuse
                } else {
                    r is Continue
                },
                _ => r is Stop,
            },
            DataPlace::Passive => if exists|s: int|
                0 <= s < context.data.len() && number < (#[trigger] context.data[s]).len()
                    && context.data[s][number as int] {
                r is Refuse
            } else {
                r is Continue
            },
        },
{
    lemma_was_passive(context.data, number);
}

/// Translation stops at an entry that cannot be read, and is refused a type that cannot be read.
pub proof fn law_unreadable_entries(
    ty: Verdict,
    others: (Verdict, Verdict, Verdict, Verdict, Verdict, Verdict, Verdict, Verdict),
)
    requires
        call_ensures(<TypeEntry as Entry>::judge_unreadable, (), ty),
        call_ensures(<ImportEntry as Entry>::judge_unreadable, (), others.0),
        call_ensures(<FunctionEntry as Entry>::judge_unreadable, (), others.1),
        call_ensures(<TableEntry as Entry>::judge_unreadable, (), others.2),
        call_ensures(<MemoryLimits as Entry>::judge_unreadable, (), others.3),
        call_ensures(<GlobalEntry<'_> as Entry>::judge_unreadable, (), others.4),
        call_ensures(<ExportEntry as Entry>::judge_unreadable, (), others.5),
        call_ensures(<ElementSegment<'_> as Entry>::judge_unreadable, (), others.6),
        call_ensures(<DataSegment<'_> as Entry>::judge_unreadable, (), others.7),
    ensures
        ty@ == TypeEntry::unreadable(),
        others.0@ == ImportEntry::unreadable(),
        others.1@ == FunctionEntry::unreadable(),
        others.2@ == TableEntry::unreadable(),
        others.3@ == MemoryLimits::unreadable(),
        others.4@ == GlobalEntry::unreadable(),
        others.5@ == ExportEntry::unreadable(),
        others.6@ == ElementSegment::unreadable(),
        others.7@ == DataSegment::unreadable(),
        ty matches Verdict::Refuse(reason) && reason@ == "unsupported type"@,
        others.0 is Stop,
        others.1 is Stop,
        others.2 is Stop,
        others.3 is Stop,
        others.4 is Stop,
        others.5 is Stop,
        others.6 is Stop,
        others.7 is Stop,
{
}

/// Of the entries of a section the first at which translation does not go on decides: where `n`
/// entries at which it goes on come first, what it does at the next one, or with it going on where
/// there is none.
pub proof fn law_first_entry_decides<T: Entry>(
    entries: Seq<Option<T>>,
    context: ContextView,
    n: int,
)
    requires
        0 <= n <= entries.len(),
        forall|j: int|
            0 <= j < n ==> #[trigger] entries[j] is Some && entries[j]->0.verdict(
                j as usize,
                context,
            ) is Continue,
    ensures
        n == entries.len() ==> support::listing_verdict(Some(entries), context) is Continue,
        n < entries.len() && entries[n] is None ==> support::listing_verdict(Some(entries), context)
            == T::unreadable(),
        n < entries.len() ==> (entries[n] matches Some(entry) ==> !(entry.verdict(
            n as usize,
            context,
        ) is Continue) ==> support::listing_verdict(Some(entries), context) == entry.verdict(
            n as usize,
            context,
        )),
        support::listing_verdict(None::<Seq<Option<T>>>, context) is Continue,
{
    lemma_entries_from(entries, context, n, n);
}

proof fn lemma_entries_from<T: Entry>(
    entries: Seq<Option<T>>,
    context: ContextView,
    n: int,
    k: int,
)
    requires
        0 <= k <= n <= entries.len(),
        forall|j: int|
            0 <= j < n ==> #[trigger] entries[j] is Some && entries[j]->0.verdict(
                j as usize,
                context,
            ) is Continue,
    ensures
        support::entries_verdict(entries, n - k, context) == support::entries_verdict(
            entries,
            n,
            context,
        ),
    decreases k,
{
    if k > 0 {
        lemma_entries_from(entries, context, n, k - 1);
        assert(entries[n - k] is Some);
    }
}

/// A payload that lists nothing is refused exactly if it is of module linking, has an unknown code,
/// or starts a second function or one with the reserved index. Translation stops exactly at custom
/// sections of interface types.
pub proof fn law_payloads_that_list_nothing(contents: Contents<'_>, context: Context, r: Verdict)
    requires
        call_ensures(Contents::judge, (&contents, &context), r),
        contents.types is None,
        contents.imports is None,
        contents.functions is None,
        contents.tables is None,
        contents.memories is None,
        contents.globals is None,
        contents.exports is None,
        contents.segments is None,
        contents.data is None,
    ensures
        r@ == contents@.verdict(context@),
        match contents.mark {
            Mark::Start(function) => if context.start || function == u32::MAX {
                r matches Verdict::Refuse(reason) && reason@ == "unsupported start section"@
            } else {
                !(r is Refuse)
            },
            Mark::ModuleSection
            | Mark::InstanceSection
            | Mark::AliasSection
            | Mark::ModuleCodeStart
            | Mark::ModuleCode => {
                r matches Verdict::Refuse(reason) && reason@ == "module linking not implemented yet"@
            },
            Mark::Unknown => r matches Verdict::Refuse(reason) && reason@ == "unknown section"@,
            Mark::DataCount(_) | Mark::FunctionBody | Mark::Plain => !(r is Refuse),
        },
        !(r is Refuse) ==> (r is Stop <==> (contents.name matches Some(name) && (name@
            == "webidl-bindings"@ || name@ == "wasm-interface-types"@))),
{
}

/// What translation does with a section is what it does with the entries that the section lists.
pub proof fn law_sections_are_judged_by_their_entries(
    contents: Contents<'_>,
    context: Context,
    r: Verdict,
)
    requires
        call_ensures(Contents::judge, (&contents, &context), r),
        contents.mark is Plain,
        contents.name is None,
    ensures
        r@ == contents@.verdict(context@),
        contents.imports is None && contents.functions is None && contents.tables is None
            && contents.memories is None && contents.globals is None && contents.exports is None
            && contents.segments is None && contents.data is None ==> (
        contents.types matches Some(entries) ==> r@ == support::listing_verdict(
            Some(entries@),
            context@,
        )),
        contents.types is None && contents.functions is None && contents.tables is None
            && contents.memories is None && contents.globals is None && contents.exports is None
            && contents.segments is None && contents.data is None ==> (
        contents.imports matches Some(entries) ==> r@ == support::listing_verdict(
            Some(entries@),
            context@,
        )),
        contents.types is None && contents.imports is None && contents.tables is None
            && contents.memories is None && contents.globals is None && contents.exports is None
            && contents.segments is None && contents.data is None ==> (
        contents.functions matches Some(entries) ==> r@ == support::listing_verdict(
            Some(entries@),
            context@,
        )),
        contents.types is None && contents.imports is None && contents.functions is None
            && contents.memories is None && contents.globals is None && contents.exports is None
            && contents.segments is None && contents.data is None ==> (
        contents.tables matches Some(entries) ==> r@ == support::listing_verdict(
            Some(entries@),
            context@,
        )),
        contents.types is None && contents.imports is None && contents.functions is None
            && contents.tables is None && contents.globals is None && contents.exports is None
            && contents.segments is None && contents.data is None ==> (
        contents.memories matches Some(entries) ==> r@ == support::listing_verdict(
            Some(entries@),
            context@,
        )),
        contents.types is None && contents.imports is None && contents.functions is None
            && contents.tables is None && contents.memories is None && contents.exports is None
            && contents.segments is None && contents.data is None ==> (
        contents.globals matches Some(entries) ==> r@ == support::listing_verdict(
            Some(entries@),
            context@,
        )),
        contents.types is None && contents.imports is None && contents.functions is None
            && contents.tables is None && contents.memories is None && contents.globals is None
            && contents.segments is None && contents.data is None ==> (
        contents.exports matches Some(entries) ==> r@ == support::listing_verdict(
            Some(entries@),
            context@,
        )),
        contents.types is None && contents.imports is None && contents.functions is None
            && contents.tables is None && contents.memories is None && contents.globals is None
            && contents.exports is None && contents.data is None ==> (
        contents.segments matches Some(entries) ==> r@ == support::listing_verdict(
            Some(entries@),
            context@,
        )),
        contents.types is None && contents.imports is None && contents.functions is None
            && contents.tables is None && contents.memories is None && contents.globals is None
            && contents.exports is None && contents.segments is None ==> (
        contents.data matches Some(entries) ==> r@ == support::listing_verdict(
            Some(entries@),
            context@,
        )),
{
}

/// Before the first payload nothing has been defined.
pub proof fn law_nothing_comes_before_the_first_payload(static_memory_bound: u32, r: Context)
    requires
        call_ensures(Context::new, (static_memory_bound,), r),
    ensures
        r.static_memory_bound == static_memory_bound,
        !r.functions,
        !r.tables,
        !r.memories,
        !r.globals,
        !r.start,
        r.segments.len() == 0,
        r.data.len() == 0,
{
    assert(r@.segments.len() == 0);
    assert(r@.data.len() == 0);
}

/// What came before a payload is what came before the last one, and what that one defines: its
/// kinds of entries where it has any, a start section, and which of its segments are passive.
pub proof fn law_definitions_are_remembered(contents: Contents<'_>, context: Context, r: Context)
    requires
        call_ensures(Contents::next, (&contents, context), r),
    ensures
        r@ == contents@.next(context@),
        r.static_memory_bound == context.static_memory_bound,
        r.functions <==> context.functions || (contents.functions matches Some(entries)
            && entries.len() > 0),
        r.tables <==> context.tables || (contents.tables matches Some(entries) && entries.len()
            > 0),
        r.memories <==> context.memories || (contents.memories matches Some(entries)
            && entries.len() > 0),
        r.globals <==> context.globals || (contents.globals matches Some(entries) && entries.len()
            > 0),
        r.start <==> context.start || contents.mark is Start,
        r.segments.len() == context.segments.len() + (if contents.segments is Some {
            1int
        } else {
            0
        }),
        forall|s: int|
            0 <= s < context.segments.len() ==> (#[trigger] r.segments[s])@ == context.segments[s]@,
        contents.segments matches Some(entries) ==> {
            let flags = r.segments[context.segments.len() as int]@;
            &&& flags.len() == entries.len()
            &&& forall|i: int|
                0 <= i < entries.len() ==> (#[trigger] flags[i] <==> (entries[i] matches Some(segment)
                    && segment.place is Passive))
        },
        r.data.len() == context.data.len() + (if contents.data is Some {
            1int
        } else {
            0
        }),
        forall|s: int|
            0 <= s < context.data.len() ==> (#[trigger] r.data[s])@ == context.data[s]@,
        contents.data matches Some(entries) ==> {
            let flags = r.data[context.data.len() as int]@;
            &&& flags.len() == entries.len()
            &&& forall|i: int|
                0 <= i < entries.len() ==> (#[trigger] flags[i] <==> (entries[i] matches Some(segment)
                    && segment.place is Passive))
        },
{
    lemma_flags(r.segments);
    lemma_flags(context.segments);
    lemma_flags(r.data);
    lemma_flags(context.data);
    assert forall|s: int| 0 <= s < context.segments.len() implies (#[trigger] r.segments[s])@
        == context.segments[s]@ by {
        assert(r@.segments[s] == context@.segments[s]);
    }
    assert forall|s: int| 0 <= s < context.data.len() implies (#[trigger] r.data[s])@
        == context.data[s]@ by {
        assert(r@.data[s] == context@.data[s]);
    }
    if let Some(entries) = contents.segments {
        assert(r@.segments.last() == support::passive_segments(entries@));
    }
    if let Some(entries) = contents.data {
        assert(r@.data.last() == support::passive_data(entries@));
    }
}

/// The view of flags is the flags.
proof fn lemma_flags(sections: Vec<Vec<bool>>)
    ensures
        sections.deep_view().len() == sections.len(),
        forall|s: int|
            0 <= s < sections.len() ==> sections.deep_view()[s] == (#[trigger] sections[s])@,
{
    assert forall|s: int| 0 <= s < sections.len() implies sections.deep_view()[s] == (
    #[trigger] sections[s])@ by {
        assert(sections[s].deep_view() =~= sections[s]@);
    }
}

/// The first payload at which translation does not go on decides over a binary: where `n` payloads
/// at which it goes on come first, the binary is refused exactly if it is refused the next one, and
/// for the same reason. `contexts` are what came before each payload.
pub proof fn law_first_payload_decides(
    static_memory_bound: u32,
    data: &[u8],
    r: Result<(), WasmError>,
    contexts: Seq<ContextView>,
    n: int,
)
    requires
        usize::BITS == 64,
        call_ensures(check_binary, (static_memory_bound, data), r),
        ({
            let payloads = payload::binary_payloads(data@);
            &&& 0 <= n <= payloads.len()
            &&& contexts.len() == n + 1
            &&& contexts[0].static_memory_bound == static_memory_bound
            &&& !contexts[0].functions
            &&& !contexts[0].tables
            &&& !contexts[0].memories
            &&& !contexts[0].globals
            &&& !contexts[0].start
            &&& contexts[0].segments.len() == 0
            &&& contexts[0].data.len() == 0
            &&& forall|i: int|
                0 <= i < n ==> {
                    let contents = payload::payload_contents(#[trigger] payloads[i]);
                    &&& contents.verdict(contexts[i]) is Continue
                    &&& contexts[i + 1] == contents.next(contexts[i])
                }
        }),
    ensures
        ({
            let payloads = payload::binary_payloads(data@);
            if n == payloads.len() {
                r is Ok
            } else {
                match payload::payload_contents(payloads[n]).verdict(contexts[n]) {
                    VerdictView::Refuse(reason) => {
                        &&& r matches Err(WasmError::Unsupported(message))
                        &&& message@ == reason
                    },
                    VerdictView::Stop => r is Ok,
                    VerdictView::Continue => true,
                }
            }
        }),
{
    let payloads = payload::binary_payloads(data@);
    assert(contexts[0].segments =~= Seq::empty());
    assert(contexts[0].data =~= Seq::empty());
    assert(contexts[0] == ContextView::initial(static_memory_bound));
    lemma_payloads_from(payloads, contexts, n, n);
    assert(payloads.skip(0) =~= payloads);
    if n < payloads.len() {
        assert(payloads.skip(n)[0] == payloads[n]);
    }
}

proof fn lemma_payloads_from(
    payloads: Seq<Payload<'_>>,
    contexts: Seq<ContextView>,
    n: int,
    k: int,
)
    requires
        0 <= k <= n <= payloads.len(),
        contexts.len() == n + 1,
        forall|i: int|
            0 <= i < n ==> {
                let contents = payload::payload_contents(#[trigger] payloads[i]);
                &&& contents.verdict(contexts[i]) is Continue
                &&& contexts[i + 1] == contents.next(contexts[i])
            },
    ensures
        support::payloads_verdict(contexts[n - k], payloads.skip(n - k)) == support::payloads_verdict(
            contexts[n],
            payloads.skip(n),
        ),
    decreases k,
{
    if k > 0 {
        lemma_payloads_from(payloads, contexts, n, k - 1);
        assert(payloads.skip(n - k)[0] == payloads[n - k]);
        assert(payloads.skip(n - k).drop_first() =~= payloads.skip(n - k + 1));
    }
}

/// Where addresses have fewer than 64 bits, every binary is refused.
pub proof fn law_narrow_hosts_refuse(
    static_memory_bound: u32,
    data: &[u8],
    r: Result<(), WasmError>,
)
    requires
        usize::BITS != 64,
        call_ensures(check_binary, (static_memory_bound, data), r),
    ensures
        r matches Err(WasmError::Unsupported(message)) && message@
            == "host without 64-bit addresses"@,
{
}

/// What came before payload `i`.
spec fn context_at(static_memory_bound: u32, payloads: Seq<Payload<'_>>, i: int) -> ContextView
    decreases i,
{
    if i <= 0 {
        ContextView::initial(static_memory_bound)
    } else {
        payload::payload_contents(payloads[i - 1]).next(
            context_at(static_memory_bound, payloads, i - 1),
        )
    }
}

/// Whether a payload lists element segments of which these are passive.
spec fn has_segments(payload: Payload<'_>, flags: Seq<bool>) -> bool {
    payload::payload_segments(payload) matches Some(entries) && support::passive_segments(entries)
        == flags
}

/// Whether a payload lists data segments of which these are passive.
spec fn has_data(payload: Payload<'_>, flags: Seq<bool>) -> bool {
    payload::payload_data(payload) matches Some(entries) && support::passive_data(entries) == flags
}

/// What is known to have come before a payload did come before it.
proof fn lemma_context_at(static_memory_bound: u32, payloads: Seq<Payload<'_>>, i: int)
    requires
        0 <= i <= payloads.len(),
    ensures
        ({
            let context = context_at(static_memory_bound, payloads, i);
            &&& context.static_memory_bound == static_memory_bound
            &&& context.functions ==> exists|j: int|
                0 <= j < i && support::has_entries(payload::payload_functions(#[trigger] payloads[j]))
            &&& context.tables ==> exists|j: int|
                0 <= j < i && support::has_entries(payload::payload_tables(#[trigger] payloads[j]))
            &&& context.memories ==> exists|j: int|
                0 <= j < i && support::has_entries(payload::payload_memories(#[trigger] payloads[j]))
            &&& context.globals ==> exists|j: int|
                0 <= j < i && support::has_entries(payload::payload_globals(#[trigger] payloads[j]))
            &&& context.start ==> exists|j: int|
                0 <= j < i && payload::payload_mark(#[trigger] payloads[j]) is Start
            &&& forall|s: int|
                0 <= s < context.segments.len() ==> exists|j: int|
                    0 <= j < i && has_segments(
                        #[trigger] payloads[j],
                        #[trigger] context.segments[s],
                    )
            &&& forall|s: int|
                0 <= s < context.data.len() ==> exists|j: int|
                    0 <= j < i && has_data(#[trigger] payloads[j], #[trigger] context.data[s])
        }),
    decreases i,
{
    if i > 0 {
        lemma_context_at(static_memory_bound, payloads, i - 1);
        let before = context_at(static_memory_bound, payloads, i - 1);
        let context = context_at(static_memory_bound, payloads, i);
        let last = payloads[i - 1];
        assert(context == payload::payload_contents(last).next(before));
        assert forall|s: int| 0 <= s < context.segments.len() implies exists|j: int|
            0 <= j < i && has_segments(#[trigger] payloads[j], #[trigger] context.segments[s]) by {
            if s < before.segments.len() {
                assert(context.segments[s] == before.segments[s]);
                let j = choose|j: int|
                    0 <= j < i - 1 && has_segments(#[trigger] payloads[j], before.segments[s]);
                assert(has_segments(payloads[j], context.segments[s]));
            } else {
                assert(has_segments(payloads[i - 1], context.segments[s]));
            }
        }
        assert forall|s: int| 0 <= s < context.data.len() implies exists|j: int|
            0 <= j < i && has_data(#[trigger] payloads[j], #[trigger] context.data[s]) by {
            if s < before.data.len() {
                assert(context.data[s] == before.data[s]);
                let j = choose|j: int|
                    0 <= j < i - 1 && has_data(#[trigger] payloads[j], before.data[s]);
                assert(has_data(payloads[j], context.data[s]));
            } else {
                assert(has_data(payloads[i - 1], context.data[s]));
            }
        }
    }
}

/// Entries of which none is refused are not refused.
proof fn lemma_entries_not_refused<T: Entry>(
    entries: Seq<Option<T>>,
    i: int,
    context: ContextView,
)
    requires
        forall|k: int|
            0 <= k < entries.len() ==> match #[trigger] entries[k] {
                Some(entry) => !(entry.verdict(k as usize, context) is Refuse),
                None => !(T::unreadable() is Refuse),
            },
    ensures
        !(support::entries_verdict(entries, i, context) is Refuse),
    decreases entries.len() - i,
{
    if 0 <= i < entries.len() {
        lemma_entries_not_refused(entries, i + 1, context);
    }
}

proof fn lemma_items_not_refused(items: Seq<Option<Item>>, i: int)
    requires
        forall|k: int|
            0 <= k < items.len() ==> #[trigger] items[k] != Some(Item::Function(u32::MAX)),
    ensures
        !(support::items_verdict(items, i) is Refuse),
    decreases items.len() - i,
{
    if 0 <= i < items.len() {
        lemma_items_not_refused(items, i + 1);
    }
}

proof fn lemma_payloads_not_refused(
    static_memory_bound: u32,
    payloads: Seq<Payload<'_>>,
    i: int,
)
    requires
        0 <= i <= payloads.len(),
        forall|k: int|
            0 <= k < payloads.len() ==> !(payload::payload_contents(#[trigger] payloads[k]).verdict(
                context_at(static_memory_bound, payloads, k),
            ) is Refuse),
    ensures
        !(support::payloads_verdict(
            context_at(static_memory_bound, payloads, i),
            payloads.skip(i),
        ) is Refuse),
    decreases payloads.len() - i,
{
    if i < payloads.len() {
        assert(payloads.skip(i)[0] == payloads[i]);
        assert(payloads.skip(i).drop_first() =~= payloads.skip(i + 1));
        lemma_payloads_not_refused(static_memory_bound, payloads, i + 1);
    }
}

/// A binary is refused for a cause only. It is not refused where types are function types over
/// values; imports have field names, are of functions, tables, memories or globals, and come before
/// definitions of their kind; memories are within the bound of static memories or can grow beyond
/// it; exports are of functions, tables, memories or globals; at most one section is a start
/// section; no two passive segments of different sections have the same number; no index is the
/// reserved one; and no section is unknown or of module linking. The segments of a section have
/// numbers that fit in `usize`.
pub proof fn law_binaries_are_refused_for_a_cause(
    static_memory_bound: u32,
    data: &[u8],
    payloads: Seq<Payload<'_>>,
    r: Result<(), WasmError>,
)
    requires
        payloads == payload::binary_payloads(data@),
        usize::BITS == 64,
        call_ensures(check_binary, (static_memory_bound, data), r),
        forall|i: int|
            0 <= i < payloads.len() ==> {
                let payload = #[trigger] payloads[i];
                &&& payload::payload_segments(payload) matches Some(entries) ==> entries.len()
                    <= usize::MAX
                &&& payload::payload_data(payload) matches Some(entries) ==> entries.len()
                    <= usize::MAX
            },
        forall|i: int|
            0 <= i < payloads.len() ==> match payload::payload_mark(
                #[trigger] payloads[i],
            ) {
                Mark::Start(function) => function != u32::MAX && forall|j: int|
                    0 <= j < i ==> !(payload::payload_mark(#[trigger] payloads[j]) is Start),
                Mark::DataCount(_) | Mark::FunctionBody | Mark::Plain => true,
                Mark::ModuleSection
                | Mark::InstanceSection
                | Mark::AliasSection
                | Mark::ModuleCodeStart
                | Mark::ModuleCode
                | Mark::Unknown => false,
            },
        forall|i: int, k: int|
            0 <= i < payloads.len() && payload::payload_types(
                payloads[i],
            ) is Some && 0 <= k < payload::payload_types(payloads[i])->0.len()
                ==> match #[trigger] payload::payload_types(payloads[i])->0[k] {
                Some(TypeEntry::Function(function)) => {
                    let (params, results) = payload::function_types(function);
                    &&& forall|t: int|
                        0 <= t < params.len() ==> (#[trigger] payload::value_type(params[t])
                            != ValueType::Func && payload::value_type(params[t])
                            != ValueType::EmptyBlockType)
                    &&& forall|t: int|
                        0 <= t < results.len() ==> (#[trigger] payload::value_type(results[t])
                            != ValueType::Func && payload::value_type(results[t])
                            != ValueType::EmptyBlockType)
                },
                _ => false,
            },
        forall|i: int, k: int|
            0 <= i < payloads.len() && payload::payload_imports(
                payloads[i],
            ) is Some && 0 <= k < payload::payload_imports(payloads[i])->0.len()
                ==> match #[trigger] payload::payload_imports(payloads[i])->0[k] {
                Some(entry) => entry.named && match payload::import_desc(entry.ty) {
                    ImportDesc::Function(index) => index != u32::MAX && forall|j: int|
                        0 <= j < i ==> match payload::payload_functions(
                            #[trigger] payloads[j],
                        ) {
                            Some(entries) => entries.len() == 0,
                            None => true,
                        },
                    ImportDesc::Table(_) => forall|j: int|
                        0 <= j < i ==> match payload::payload_tables(
                            #[trigger] payloads[j],
                        ) {
                            Some(entries) => entries.len() == 0,
                            None => true,
                        },
                    ImportDesc::Memory(limits) => {
                        &&& limits.initial <= static_memory_bound || (match limits.maximum {
                            Some(maximum) => maximum > static_memory_bound,
                            None => static_memory_bound < 0x10000,
                        })
                        &&& forall|j: int|
                            0 <= j < i ==> match payload::payload_memories(
                                #[trigger] payloads[j],
                            ) {
                                Some(entries) => entries.len() == 0,
                                None => true,
                            }
                    },
                    ImportDesc::Global(_) => forall|j: int|
                        0 <= j < i ==> match payload::payload_globals(
                            #[trigger] payloads[j],
                        ) {
                            Some(entries) => entries.len() == 0,
                            None => true,
                        },
                    ImportDesc::Module | ImportDesc::Instance => false,
                },
                None => true,
            },
        forall|i: int, k: int|
            0 <= i < payloads.len() && payload::payload_functions(
                payloads[i],
            ) is Some && 0 <= k < payload::payload_functions(payloads[i])->0.len()
                ==> match #[trigger] payload::payload_functions(payloads[i])->0[k] {
                Some(entry) => entry.type_index != u32::MAX,
                None => true,
            },
        forall|i: int, k: int|
            0 <= i < payloads.len() && payload::payload_memories(
                payloads[i],
            ) is Some && 0 <= k < payload::payload_memories(payloads[i])->0.len()
                ==> match #[trigger] payload::payload_memories(payloads[i])->0[k] {
                Some(limits) => limits.shared || limits.initial <= static_memory_bound || (
                match limits.maximum {
                    Some(maximum) => maximum > static_memory_bound,
                    None => static_memory_bound < 0x10000,
                }),
                None => true,
            },
        forall|i: int, k: int|
            0 <= i < payloads.len() && payload::payload_globals(
                payloads[i],
            ) is Some && 0 <= k < payload::payload_globals(payloads[i])->0.len()
                ==> match #[trigger] payload::payload_globals(payloads[i])->0[k] {
                Some(entry) => payload::leading_operator(entry.value) != Some(Leading::RefFunc(u32::MAX))
                    && payload::leading_operator(entry.value) != Some(Leading::GlobalGet(u32::MAX)),
                None => true,
            },
        forall|i: int, k: int|
            0 <= i < payloads.len() && payload::payload_exports(
                payloads[i],
            ) is Some && 0 <= k < payload::payload_exports(payloads[i])->0.len()
                ==> match #[trigger] payload::payload_exports(payloads[i])->0[k] {
                Some(entry) => entry.index != u32::MAX && match entry.kind {
                    ExportKind::Function
                    | ExportKind::Table
                    | ExportKind::Memory
                    | ExportKind::Global => true,
                    ExportKind::Type | ExportKind::Module | ExportKind::Instance => false,
                },
                None => true,
            },
        forall|i: int, k: int|
            0 <= i < payloads.len() && payload::payload_segments(
                payloads[i],
            ) is Some && 0 <= k < payload::payload_segments(payloads[i])->0.len()
                ==> match #[trigger] payload::payload_segments(payloads[i])->0[k] {
                Some(segment) => {
                    &&& payload::segment_items(segment.items) matches Some(items) ==> forall|t: int|
                        0 <= t < items.len() ==> #[trigger] items[t] != Some(
                            Item::Function(u32::MAX),
                        )
                    &&& match segment.place {
                        ElementPlace::Active(table, offset) => table != u32::MAX
                            && payload::leading_operator(offset) != Some(Leading::GlobalGet(u32::MAX)),
                        ElementPlace::Passive => forall|j: int|
                            0 <= j < i ==> match payload::payload_segments(
                                #[trigger] payloads[j],
                            ) {
                                Some(earlier) => k < earlier.len() ==> (earlier[k] matches Some(
                                    other,
                                ) ==> !(other.place is Passive)),
                                None => true,
                            },
                        ElementPlace::Declared => true,
                    }
                },
                None => true,
            },
        forall|i: int, k: int|
            0 <= i < payloads.len() && payload::payload_data(
                payloads[i],
            ) is Some && 0 <= k < payload::payload_data(payloads[i])->0.len()
                ==> match #[trigger] payload::payload_data(payloads[i])->0[k] {
                Some(segment) => match segment.place {
                    DataPlace::Active(memory, offset) => memory != u32::MAX && payload::leading_operator(
                        offset,
                    ) != Some(Leading::GlobalGet(u32::MAX)),
                    DataPlace::Passive => forall|j: int|
                        0 <= j < i ==> match payload::payload_data(
                            #[trigger] payloads[j],
                        ) {
                            Some(earlier) => k < earlier.len() ==> (earlier[k] matches Some(other)
                                ==> !(other.place is Passive)),
                            None => true,
                        },
                },
                None => true,
            },
    ensures
        r is Ok,
{
    assert forall|i: int| 0 <= i < payloads.len() implies !(payload::payload_contents(
        #[trigger] payloads[i],
    ).verdict(context_at(static_memory_bound, payloads, i)) is Refuse) by {
        let context = context_at(static_memory_bound, payloads, i);
        let payload = payloads[i];
        lemma_context_at(static_memory_bound, payloads, i);
        if let Some(entries) = payload::payload_types(payload) {
            assert forall|k: int| 0 <= k < entries.len() implies match #[trigger] entries[k] {
                Some(entry) => !(entry.verdict(k as usize, context) is Refuse),
                None => !(TypeEntry::unreadable() is Refuse),
            } by {
                assert(payload::payload_types(payloads[i])->0[k] == entries[k]);
            }
            lemma_entries_not_refused(entries, 0, context);
        }
        if let Some(entries) = payload::payload_imports(payload) {
            assert forall|k: int| 0 <= k < entries.len() implies match #[trigger] entries[k] {
                Some(entry) => !(entry.verdict(k as usize, context) is Refuse),
                None => !(ImportEntry::unreadable() is Refuse),
            } by {
                assert(payload::payload_imports(payloads[i])->0[k] == entries[k]);
            }
            lemma_entries_not_refused(entries, 0, context);
        }
        if let Some(entries) = payload::payload_functions(payload) {
            assert forall|k: int| 0 <= k < entries.len() implies match #[trigger] entries[k] {
                Some(entry) => !(entry.verdict(k as usize, context) is Refuse),
                None => !(FunctionEntry::unreadable() is Refuse),
            } by {
                assert(payload::payload_functions(payloads[i])->0[k] == entries[k]);
            }
            lemma_entries_not_refused(entries, 0, context);
        }
        if let Some(entries) = payload::payload_tables(payload) {
            lemma_entries_not_refused(entries, 0, context);
        }
        if let Some(entries) = payload::payload_memories(payload) {
            assert forall|k: int| 0 <= k < entries.len() implies match #[trigger] entries[k] {
                Some(entry) => !(entry.verdict(k as usize, context) is Refuse),
                None => !(MemoryLimits::unreadable() is Refuse),
            } by {
                assert(payload::payload_memories(payloads[i])->0[k] == entries[k]);
            }
            lemma_entries_not_refused(entries, 0, context);
        }
        if let Some(entries) = payload::payload_globals(payload) {
            assert forall|k: int| 0 <= k < entries.len() implies match #[trigger] entries[k] {
                Some(entry) => !(entry.verdict(k as usize, context) is Refuse),
                None => !(GlobalEntry::unreadable() is Refuse),
            } by {
                assert(payload::payload_globals(payloads[i])->0[k] == entries[k]);
            }
            lemma_entries_not_refused(entries, 0, context);
        }
        if let Some(entries) = payload::payload_exports(payload) {
            assert forall|k: int| 0 <= k < entries.len() implies match #[trigger] entries[k] {
                Some(entry) => !(entry.verdict(k as usize, context) is Refuse),
                None => !(ExportEntry::unreadable() is Refuse),
            } by {
                assert(payload::payload_exports(payloads[i])->0[k] == entries[k]);
            }
            lemma_entries_not_refused(entries, 0, context);
        }
        if let Some(entries) = payload::payload_segments(payload) {
            assert forall|k: int| 0 <= k < entries.len() implies match #[trigger] entries[k] {
                Some(entry) => !(entry.verdict(k as usize, context) is Refuse),
                None => !(ElementSegment::unreadable() is Refuse),
            } by {
                assert(payload::payload_segments(payloads[i])->0[k] == entries[k]);
                if let Some(segment) = entries[k] {
                    if let Some(items) = payload::segment_items(segment.items) {
                        lemma_items_not_refused(items, 0);
                    }
                    if segment.place is Passive && support::was_passive(context.segments, k as usize) {
                        let s = choose|s: int|
                            0 <= s < context.segments.len() && k < (
                            #[trigger] context.segments[s]).len() && context.segments[s][k];
                        let j = choose|j: int|
                            0 <= j < i && has_segments(
                                #[trigger] payloads[j],
                                context.segments[s],
                            );
                        let earlier = payload::payload_segments(payloads[j])->0;
                        assert(support::passive_segments(earlier)[k]);
                    }
                }
            }
            lemma_entries_not_refused(entries, 0, context);
        }
        if let Some(entries) = payload::payload_data(payload) {
            assert forall|k: int| 0 <= k < entries.len() implies match #[trigger] entries[k] {
                Some(entry) => !(entry.verdict(k as usize, context) is Refuse),
                None => !(DataSegment::unreadable() is Refuse),
            } by {
                assert(payload::payload_data(payloads[i])->0[k] == entries[k]);
                if let Some(segment) = entries[k] {
                    if segment.place is Passive && support::was_passive(context.data, k as usize) {
                        let s = choose|s: int|
                            0 <= s < context.data.len() && k < (#[trigger] context.data[s]).len()
                                && context.data[s][k];
                        let j = choose|j: int|
                            0 <= j < i && has_data(#[trigger] payloads[j], context.data[s]);
                        let earlier = payload::payload_data(payloads[j])->0;
                        assert(support::passive_data(earlier)[k]);
                    }
                }
            }
            lemma_entries_not_refused(entries, 0, context);
        }
    }
    lemma_payloads_not_refused(static_memory_bound, payloads, 0);
    assert(payloads.skip(0) =~= payloads);
}

/// What the layout of a list of payloads says, where `t` and `f` are the last payloads that list
/// types and functions, or -1 where there is none.
proof fn lemma_function_layout(payloads: Seq<Payload<'_>>, t: int, f: int)
    requires
        -1 <= t < payloads.len(),
        -1 <= f < payloads.len(),
        t >= 0 ==> payload::payload_types(payloads[t]) is Some,
        f >= 0 ==> payload::payload_functions(payloads[f]) is Some,
        forall|i: int|
            t < i < payloads.len() ==> payload::payload_types(#[trigger] payloads[i]) is None,
        forall|i: int|
            f < i < payloads.len() ==> payload::payload_functions(#[trigger] payloads[i]) is None,
    ensures
        ({
            let layout = support::function_layout(payloads);
            &&& layout.types == (if t >= 0 {
                payload::payload_types(payloads[t])->0.len()
            } else {
                0
            })
            &&& layout.functions == (if f >= 0 {
                payload::payload_functions(payloads[f])->0
            } else {
                Seq::empty()
            })
        }),
    decreases payloads.len(),
{
    if payloads.len() > 0 {
        let shorter = payloads.drop_last();
        let n = payloads.len() - 1;
        if t < n && f < n {
            lemma_function_layout(shorter, t, f);
        } else if t < n {
            let condition = |payload: Payload<'_>| payload::payload_functions(payload) is Some;
            let before = last_listing(shorter, condition);
            lemma_last_listing(shorter, condition);
            lemma_function_layout(shorter, t, before);
        } else if f < n {
            let condition = |payload: Payload<'_>| payload::payload_types(payload) is Some;
            let before = last_listing(shorter, condition);
            lemma_last_listing(shorter, condition);
            lemma_function_layout(shorter, before, f);
        }
    }
}

/// The last payload that satisfies a condition, or -1 where there is none.
spec fn last_listing(
    payloads: Seq<Payload<'_>>,
    condition: spec_fn(Payload<'_>) -> bool,
) -> int
    decreases payloads.len(),
{
    if payloads.len() == 0 {
        -1
    } else if condition(payloads.last()) {
        payloads.len() - 1
    } else {
        last_listing(payloads.drop_last(), condition)
    }
}

proof fn lemma_last_listing(
    payloads: Seq<Payload<'_>>,
    condition: spec_fn(Payload<'_>) -> bool,
)
    ensures
        ({
            let last = last_listing(payloads, condition);
            &&& -1 <= last < payloads.len()
            &&& last >= 0 ==> condition(payloads[last])
            &&& forall|i: int| last < i < payloads.len() ==> !condition(#[trigger] payloads[i])
        }),
    decreases payloads.len(),
{
    if payloads.len() > 0 && !condition(payloads.last()) {
        lemma_last_listing(payloads.drop_last(), condition);
        assert forall|i: int|
            last_listing(payloads, condition) < i < payloads.len() implies !condition(
            #[trigger] payloads[i],
        ) by {
            if i < payloads.len() - 1 {
                assert(payloads.drop_last()[i] == payloads[i]);
            }
        }
    }
}

/// The layout of a list of payloads is sound exactly if all types are functions, and has a body for
/// each payload that is one.
proof fn lemma_layout_counts(payloads: Seq<Payload<'_>>)
    ensures
        support::function_layout(payloads).bodies == payloads.filter(
            |payload: Payload<'_>| payload::payload_mark(payload) is FunctionBody,
        ).len(),
        support::function_layout(payloads).sound <==> forall|i: int|
            0 <= i < payloads.len() ==> (payload::payload_types(
                #[trigger] payloads[i],
            ) matches Some(entries) ==> support::are_functions(entries)),
    decreases payloads.len(),
{
    reveal(Seq::filter);
    if payloads.len() > 0 {
        let shorter = payloads.drop_last();
        lemma_layout_counts(shorter);
        if support::function_layout(payloads).sound {
            assert forall|i: int| 0 <= i < payloads.len() implies (payload::payload_types(
                #[trigger] payloads[i],
            ) matches Some(entries) ==> support::are_functions(entries)) by {
                if i < payloads.len() - 1 {
                    assert(shorter[i] == payloads[i]);
                }
            }
        } else if forall|i: int|
            0 <= i < payloads.len() ==> (payload::payload_types(
                #[trigger] payloads[i],
            ) matches Some(entries) ==> support::are_functions(entries)) {
            assert forall|i: int| 0 <= i < shorter.len() implies (payload::payload_types(
                #[trigger] shorter[i],
            ) matches Some(entries) ==> support::are_functions(entries)) by {
                assert(shorter[i] == payloads[i]);
            }
            assert(payloads[payloads.len() - 1] == payloads.last());
        }
    }
}

/// Functions have types exactly if every type of the binary is a function type that can be read,
/// and each function that has a body and can be read names a type of the last type section.
/// Functions are those of the last function section, and as many of them have bodies as there are
/// bodies. `t` and `f` are these sections, or -1 where there is none.
pub proof fn law_functions_with_bodies_have_types(
    data: &[u8],
    payloads: Seq<Payload<'_>>,
    r: bool,
    t: int,
    f: int,
)
    requires
        payloads == payload::binary_payloads(data@),
        call_ensures(check_function_types, (data,), r),
        -1 <= t < payloads.len(),
        -1 <= f < payloads.len(),
        t >= 0 ==> payload::payload_types(payloads[t]) is Some,
        f >= 0 ==> payload::payload_functions(payloads[f]) is Some,
        forall|i: int|
            t < i < payloads.len() ==> payload::payload_types(
                #[trigger] payloads[i],
            ) is None,
        forall|i: int|
            f < i < payloads.len() ==> payload::payload_functions(
                #[trigger] payloads[i],
            ) is None,
    ensures
        r <==> {
                    &&& forall|i: int, k: int|
                0 <= i < payloads.len() && payload::payload_types(payloads[i]) is Some && 0 <= k
                    < payload::payload_types(payloads[i])->0.len() ==> match
                #[trigger] payload::payload_types(
                    payloads[i],
                )->0[k] {
                    Some(TypeEntry::Function(_)) => true,
                    _ => false,
                }
            &&& f >= 0 ==> forall|k: int|
                0 <= k < payload::payload_functions(payloads[f])->0.len() && k < payloads.filter(
                    |payload: Payload<'_>| payload::payload_mark(payload) is FunctionBody,
                ).len() ==> match #[trigger] payload::payload_functions(payloads[f])->0[k] {
                    Some(function) => t >= 0 && function.type_index < payload::payload_types(
                        payloads[t],
                    )->0.len(),
                    None => true,
                }
        },
{
    let layout = support::function_layout(payloads);
    lemma_function_layout(payloads, t, f);
    lemma_layout_counts(payloads);
    assert(layout.sound <==> forall|i: int, k: int|
        0 <= i < payloads.len() && payload::payload_types(payloads[i]) is Some && 0 <= k
            < payload::payload_types(payloads[i])->0.len() ==> match
                #[trigger] payload::payload_types(
            payloads[i],
        )->0[k] {
            Some(TypeEntry::Function(_)) => true,
            _ => false,
        }) by {
        if forall|i: int, k: int|
            0 <= i < payloads.len() && payload::payload_types(payloads[i]) is Some && 0 <= k
                < payload::payload_types(payloads[i])->0.len() ==> match
                #[trigger] payload::payload_types(
                payloads[i],
            )->0[k] {
                Some(TypeEntry::Function(_)) => true,
                _ => false,
            } {
            assert forall|i: int| 0 <= i < payloads.len() implies (payload::payload_types(
                #[trigger] payloads[i],
            ) matches Some(entries) ==> support::are_functions(entries)) by {
                if let Some(entries) = payload::payload_types(payloads[i]) {
                    assert forall|k: int| 0 <= k < entries.len() implies (
                    #[trigger] entries[k] matches Some(entry) && entry is Function) by {
                        assert(payload::payload_types(payloads[i])->0[k] == entries[k]);
                    }
                }
            }
        }
        if layout.sound {
            assert forall|i: int, k: int|
                0 <= i < payloads.len() && payload::payload_types(payloads[i]) is Some && 0 <= k
                    < payload::payload_types(payloads[i])->0.len() implies match
                #[trigger] payload::payload_types(
                payloads[i],
            )->0[k] {
                Some(TypeEntry::Function(_)) => true,
                _ => false,
            } by {
                assert(support::are_functions(payload::payload_types(payloads[i])->0));
            }
        }
    }
}

} // verus!
