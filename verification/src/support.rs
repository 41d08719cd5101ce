//! Which binaries translation supports.
//!
//! Translation is made for valid binaries. On others it reports most faults and panics on some. The
//! binaries on which it would panic are told from the rest here: they are gone through as
//! translation does, up to the place where it stops with an error of its own.

use crate::error::{WasmError, WasmErrorView};
use crate::payload::{
    contents_of, desc_of, list_items, parse, read_leading, type_of, types_of, Contents,
    ContentsView, DataPlace, DataSegment, ElementPlace, ElementSegment, ExportEntry, ExportKind,
    FunctionEntry, GlobalEntry, ImportDesc, ImportEntry, Item, Leading, Listing, ListingView, Mark,
    MemoryLimits, TableEntry, TypeEntry, ValueType,
};
use vstd::prelude::*;
use wasmparser::{InitExpr, Payload, Type};

verus! {

/// What translation does with a part of a binary.
#[derive(Debug)]
pub enum Verdict {
    /// It goes on.
    Continue,
    /// It stops with an error.
    Stop,
    /// It would panic, for the given reason.
    Refuse(String),
}

/// The contents of a `Verdict`.
pub enum VerdictView {
    Continue,
    Stop,
    Refuse(Seq<char>),
}

impl View for Verdict {
    type V = VerdictView;

    open spec fn view(&self) -> VerdictView {
        match *self {
            Verdict::Continue => VerdictView::Continue,
            Verdict::Stop => VerdictView::Stop,
            Verdict::Refuse(reason) => VerdictView::Refuse(reason@),
        }
    }
}

impl VerdictView {
    /// What translation does with a part and the one after it.
    pub open spec fn followed_by(self, next: VerdictView) -> VerdictView {
        if self is Continue {
            next
        } else {
            self
        }
    }
}

/// Refused unless a condition holds.
pub open spec fn needs(condition: bool, reason: Seq<char>) -> VerdictView {
    if condition {
        VerdictView::Continue
    } else {
        VerdictView::Refuse(reason)
    }
}

/// An error of translation unless a condition holds.
pub open spec fn stops_unless(condition: bool) -> VerdictView {
    if condition {
        VerdictView::Continue
    } else {
        VerdictView::Stop
    }
}

fn need(condition: bool, reason: &str) -> (r: Verdict)
    ensures
        r@ == needs(condition, reason@),
{
    if condition {
        Verdict::Continue
    } else {
        Verdict::Refuse(reason.to_owned())
    }
}

fn stop_unless(condition: bool) -> (r: Verdict)
    ensures
        r@ == stops_unless(condition),
{
    if condition {
        Verdict::Continue
    } else {
        Verdict::Stop
    }
}

/// What translation of a part depends on: settings, and what came before.
#[derive(Debug)]
pub struct Context {
    /// For static heaps, the size in wasm pages of the heap protected by bounds checking.
    pub static_memory_bound: u32,
    /// Whether functions were defined before.
    pub functions: bool,
    /// Whether tables were defined before.
    pub tables: bool,
    /// Whether memories were defined before.
    pub memories: bool,
    /// Whether globals were defined before.
    pub globals: bool,
    /// Whether a start section came before.
    pub start: bool,
    /// For each element section that came before, which of its segments were passive.
    pub segments: Vec<Vec<bool>>,
    /// For each data section that came before, which of its segments were passive.
    pub data: Vec<Vec<bool>>,
}

/// The contents of a `Context`.
pub struct ContextView {
    pub static_memory_bound: u32,
    pub functions: bool,
    pub tables: bool,
    pub memories: bool,
    pub globals: bool,
    pub start: bool,
    pub segments: Seq<Seq<bool>>,
    pub data: Seq<Seq<bool>>,
}

impl View for Context {
    type V = ContextView;

    open spec fn view(&self) -> ContextView {
        ContextView {
            static_memory_bound: self.static_memory_bound,
            functions: self.functions,
            tables: self.tables,
            memories: self.memories,
            globals: self.globals,
            start: self.start,
            segments: self.segments.deep_view(),
            data: self.data.deep_view(),
        }
    }
}

impl ContextView {
    /// The context of the first payload.
    pub open spec fn initial(static_memory_bound: u32) -> Self {
        ContextView {
            static_memory_bound,
            functions: false,
            tables: false,
            memories: false,
            globals: false,
            start: false,
            segments: Seq::empty(),
            data: Seq::empty(),
        }
    }
}

impl Context {
    /// The context of the first payload.
    pub fn new(static_memory_bound: u32) -> (r: Self)
        ensures
            r@ == ContextView::initial(static_memory_bound),
    {
        let r = Context {
            static_memory_bound,
            functions: false,
            tables: false,
            memories: false,
            globals: false,
            start: false,
            segments: Vec::new(),
            data: Vec::new(),
        };
        assert(r.segments.deep_view() =~= Seq::empty());
        assert(r.data.deep_view() =~= Seq::empty());
        r
    }
}

/// Whether the segment with this number was passive in one of these sections.
pub open spec fn was_passive(sections: Seq<Seq<bool>>, number: usize) -> bool {
    exists|i: int|
        0 <= i < sections.len() && number < (#[trigger] sections[i]).len()
            && sections[i][number as int]
}

fn check_was_passive(sections: &Vec<Vec<bool>>, number: usize) -> (r: bool)
    ensures
        r == was_passive(sections.deep_view(), number),
{
    for i in 0..sections.len()
        invariant
            forall|j: int|
                0 <= j < i ==> !(number < (#[trigger] sections.deep_view()[j]).len()
                    && sections.deep_view()[j][number as int]),
    {
        let section = &sections[i];
        assert(sections.deep_view()[i as int] == section.deep_view());
        if number < section.len() && section[number] {
            assert(sections.deep_view()[i as int][number as int]);
            return true;
        }
    }
    false
}

/// An entry of a section.
pub trait Entry: Sized {
    /// What translation does with the entry, which has this number in its section.
    spec fn verdict(self, number: usize, context: ContextView) -> VerdictView;

    /// What translation does where such an entry cannot be read.
    spec fn unreadable() -> VerdictView;

    /// Whether two entries are the same but for the place in the binary where they stand.
    spec fn is_alike(self, other: Self) -> bool;

    /// Translation does the same with entries that are alike.
    proof fn lemma_alike(self, other: Self, number: usize, context: ContextView)
        requires
            self.is_alike(other),
        ensures
            self.verdict(number, context) == other.verdict(number, context),
    ;

    /// Says what translation does with the entry.
    fn judge(&self, number: usize, context: &Context) -> (r: Verdict)
        requires
            usize::BITS == 64,
        ensures
            r@ == self.verdict(number, context@),
    ;

    /// Says what translation does where such an entry cannot be read.
    fn judge_unreadable() -> (r: Verdict)
        ensures
            r@ == Self::unreadable(),
    ;
}

/// Whether values have this type.
pub open spec fn is_value(ty: ValueType) -> bool {
    ty != ValueType::Func && ty != ValueType::EmptyBlockType
}

fn check_value(ty: &Type) -> (r: bool)
    ensures
        r == is_value(crate::payload::value_type(*ty)),
{
    match type_of(ty) {
        ValueType::Func | ValueType::EmptyBlockType => false,
        _ => true,
    }
}

/// Whether values have all of these types.
pub open spec fn are_values(types: Seq<Type>) -> bool {
    forall|i: int|
        0 <= i < types.len() ==> is_value(#[trigger] crate::payload::value_type(types[i]))
}

fn check_values(types: &Vec<Type>) -> (r: bool)
    ensures
        r == are_values(types@),
{
    for i in 0..types.len()
        invariant
            forall|j: int|
                0 <= j < i ==> is_value(#[trigger] crate::payload::value_type(types@[j])),
    {
        if !check_value(&types[i]) {
            assert(!is_value(crate::payload::value_type(types@[i as int])));
            return false;
        }
    }
    true
}

impl Entry for TypeEntry {
    /// Only function types are supported, and their parameters and results are values.
    open spec fn verdict(self, number: usize, context: ContextView) -> VerdictView {
        match self {
            TypeEntry::Function(function) => {
                let (params, results) = crate::payload::function_types(function);
                needs(are_values(params) && are_values(results), "unsupported type"@)
            },
            TypeEntry::Module | TypeEntry::Instance => VerdictView::Refuse("unsupported type"@),
        }
    }

    open spec fn unreadable() -> VerdictView {
        VerdictView::Refuse("unsupported type"@)
    }

    open spec fn is_alike(self, other: Self) -> bool {
        self == other
    }

    proof fn lemma_alike(self, other: Self, number: usize, context: ContextView) {
    }

    fn judge(&self, number: usize, context: &Context) -> Verdict {
        match self {
            TypeEntry::Function(function) => {
                let (params, results) = types_of(function);
                need(check_values(&params) && check_values(&results), "unsupported type")
            },
            TypeEntry::Module | TypeEntry::Instance => need(false, "unsupported type"),
        }
    }

    fn judge_unreadable() -> Verdict {
        need(false, "unsupported type")
    }
}

impl Entry for MemoryLimits {
    /// Shared memories are not supported. A memory that would be static, because its maximum is
    /// within the bound, has to be within the bound itself. Without a maximum it may grow to the
    /// largest size there is.
    open spec fn verdict(self, number: usize, context: ContextView) -> VerdictView {
        let maximum = match self.maximum {
            Some(maximum) => maximum,
            None => 0x10000,
        };
        stops_unless(!self.shared).followed_by(
            needs(
                maximum > context.static_memory_bound || self.initial
                    <= context.static_memory_bound,
                "unsupported memory"@,
            ),
        )
    }

    open spec fn unreadable() -> VerdictView {
        VerdictView::Stop
    }

    open spec fn is_alike(self, other: Self) -> bool {
        self == other
    }

    proof fn lemma_alike(self, other: Self, number: usize, context: ContextView) {
    }

    fn judge(&self, number: usize, context: &Context) -> Verdict {
        if self.shared {
            return Verdict::Stop;
        }
        let maximum: u32 = match self.maximum {
            Some(maximum) => maximum,
            None => 0x10000,
        };
        need(
            maximum > context.static_memory_bound || self.initial <= context.static_memory_bound,
            "unsupported memory",
        )
    }

    fn judge_unreadable() -> Verdict {
        Verdict::Stop
    }
}

impl Entry for ImportEntry {
    /// Imports have two names and come before definitions of the same kind.
    open spec fn verdict(self, number: usize, context: ContextView) -> VerdictView {
        if !self.named {
            VerdictView::Refuse("import without a field name"@)
        } else {
            match crate::payload::import_desc(self.ty) {
                ImportDesc::Function(index) => needs(
                    !context.functions && index != u32::MAX,
                    "unsupported import"@,
                ),
                ImportDesc::Table(element) => stops_unless(
                    is_value(crate::payload::value_type(element)),
                ).followed_by(needs(!context.tables, "unsupported import"@)),
                ImportDesc::Memory(limits) => needs(
                    !context.memories,
                    "unsupported import"@,
                ).followed_by(limits.verdict(number, context)),
                ImportDesc::Global(ty) => stops_unless(
                    is_value(crate::payload::value_type(ty)),
                ).followed_by(needs(!context.globals, "unsupported import"@)),
                ImportDesc::Module | ImportDesc::Instance => VerdictView::Refuse(
                    "unsupported import"@,
                ),
            }
        }
    }

    open spec fn unreadable() -> VerdictView {
        VerdictView::Stop
    }

    open spec fn is_alike(self, other: Self) -> bool {
        self == other
    }

    proof fn lemma_alike(self, other: Self, number: usize, context: ContextView) {
    }

    fn judge(&self, number: usize, context: &Context) -> Verdict {
        if !self.named {
            return need(false, "import without a field name");
        }
        match desc_of(&self.ty) {
            ImportDesc::Function(index) => need(
                !context.functions && index != u32::MAX,
                "unsupported import",
            ),
            ImportDesc::Table(element) => if check_value(&element) {
                need(!context.tables, "unsupported import")
            } else {
                Verdict::Stop
            },
            ImportDesc::Memory(limits) => if context.memories {
                need(false, "unsupported import")
            } else {
                limits.judge(number, context)
            },
            ImportDesc::Global(ty) => if check_value(&ty) {
                need(!context.globals, "unsupported import")
            } else {
                Verdict::Stop
            },
            ImportDesc::Module | ImportDesc::Instance => need(false, "unsupported import"),
        }
    }

    fn judge_unreadable() -> Verdict {
        Verdict::Stop
    }
}

impl Entry for FunctionEntry {
    open spec fn verdict(self, number: usize, context: ContextView) -> VerdictView {
        needs(self.type_index != u32::MAX, "unsupported function"@)
    }

    open spec fn unreadable() -> VerdictView {
        VerdictView::Stop
    }

    open spec fn is_alike(self, other: Self) -> bool {
        self == other
    }

    proof fn lemma_alike(self, other: Self, number: usize, context: ContextView) {
    }

    fn judge(&self, number: usize, context: &Context) -> Verdict {
        need(self.type_index != u32::MAX, "unsupported function")
    }

    fn judge_unreadable() -> Verdict {
        Verdict::Stop
    }
}

impl Entry for TableEntry {
    open spec fn verdict(self, number: usize, context: ContextView) -> VerdictView {
        stops_unless(is_value(crate::payload::value_type(self.element)))
    }

    open spec fn unreadable() -> VerdictView {
        VerdictView::Stop
    }

    open spec fn is_alike(self, other: Self) -> bool {
        self == other
    }

    proof fn lemma_alike(self, other: Self, number: usize, context: ContextView) {
    }

    fn judge(&self, number: usize, context: &Context) -> Verdict {
        stop_unless(check_value(&self.element))
    }

    fn judge_unreadable() -> Verdict {
        Verdict::Stop
    }
}

impl<'a> Entry for GlobalEntry<'a> {
    /// An initial value is a constant, a function or a global.
    open spec fn verdict(self, number: usize, context: ContextView) -> VerdictView {
        match crate::payload::leading_operator(self.value) {
            None | Some(Leading::Other) => VerdictView::Stop,
            Some(Leading::RefFunc(index)) | Some(Leading::GlobalGet(index)) => needs(
                index != u32::MAX,
                "unsupported global"@,
            ),
            Some(_) => VerdictView::Continue,
        }.followed_by(stops_unless(is_value(crate::payload::value_type(self.ty))))
    }

    open spec fn unreadable() -> VerdictView {
        VerdictView::Stop
    }

    open spec fn is_alike(self, other: Self) -> bool {
        &&& crate::payload::value_type(self.ty) == crate::payload::value_type(other.ty)
        &&& crate::payload::leading_operator(self.value) == crate::payload::leading_operator(
            other.value,
        )
    }

    proof fn lemma_alike(self, other: Self, number: usize, context: ContextView) {
    }

    fn judge(&self, number: usize, context: &Context) -> Verdict {
        match read_leading(&self.value) {
            None | Some(Leading::Other) => {
                return Verdict::Stop;
            },
            Some(Leading::RefFunc(index)) | Some(Leading::GlobalGet(index)) => {
                if index == u32::MAX {
                    return need(false, "unsupported global");
                }
            },
            Some(_) => {},
        }
        stop_unless(check_value(&self.ty))
    }

    fn judge_unreadable() -> Verdict {
        Verdict::Stop
    }
}

impl Entry for ExportEntry {
    open spec fn verdict(self, number: usize, context: ContextView) -> VerdictView {
        match self.kind {
            ExportKind::Function | ExportKind::Table | ExportKind::Memory | ExportKind::Global =>
                needs(self.index != u32::MAX, "unsupported export"@),
            ExportKind::Type | ExportKind::Module | ExportKind::Instance => VerdictView::Refuse(
                "unsupported export"@,
            ),
        }
    }

    open spec fn unreadable() -> VerdictView {
        VerdictView::Stop
    }

    open spec fn is_alike(self, other: Self) -> bool {
        self == other
    }

    proof fn lemma_alike(self, other: Self, number: usize, context: ContextView) {
    }

    fn judge(&self, number: usize, context: &Context) -> Verdict {
        match self.kind {
            ExportKind::Function | ExportKind::Table | ExportKind::Memory | ExportKind::Global =>
                need(self.index != u32::MAX, "unsupported export"),
            ExportKind::Type | ExportKind::Module | ExportKind::Instance => need(
                false,
                "unsupported export",
            ),
        }
    }

    fn judge_unreadable() -> Verdict {
        Verdict::Stop
    }
}

/// What translation does with the offset of a segment, which is a constant or a global, and then
/// with the table or memory.
pub open spec fn place_verdict(
    target: u32,
    offset: InitExpr<'_>,
    reason: Seq<char>,
) -> VerdictView {
    match crate::payload::leading_operator(offset) {
        Some(Leading::I32Const) => VerdictView::Continue,
        Some(Leading::GlobalGet(index)) => needs(index != u32::MAX, reason),
        _ => VerdictView::Stop,
    }.followed_by(needs(target != u32::MAX, reason))
}

fn judge_place(target: u32, offset: &InitExpr<'_>, reason: &str) -> (r: Verdict)
    requires
        usize::BITS == 64,
    ensures
        r@ == place_verdict(target, *offset, reason@),
{
    match read_leading(offset) {
        Some(Leading::I32Const) => need(target != u32::MAX, reason),
        Some(Leading::GlobalGet(index)) => need(index != u32::MAX && target != u32::MAX, reason),
        _ => Verdict::Stop,
    }
}

/// What translation does with the items of an element segment, from the `i`th on.
pub open spec fn items_verdict(items: Seq<Option<Item>>, i: int) -> VerdictView
    decreases items.len() - i,
{
    if i < 0 || i >= items.len() {
        VerdictView::Continue
    } else {
        match items[i] {
            Some(item) => needs(
                item != Item::Function(u32::MAX),
                "unsupported element segment"@,
            ).followed_by(items_verdict(items, i + 1)),
            None => VerdictView::Stop,
        }
    }
}

fn judge_items(items: &Vec<Option<Item>>) -> (r: Verdict)
    ensures
        r@ == items_verdict(items@, 0),
{
    for i in 0..items.len()
        invariant
            items_verdict(items@, 0) == items_verdict(items@, i as int),
    {
        match items[i] {
            Some(item) => {
                if item == Item::Function(u32::MAX) {
                    return need(false, "unsupported element segment");
                }
            },
            None => {
                return Verdict::Stop;
            },
        }
    }
    Verdict::Continue
}

impl<'a> Entry for ElementSegment<'a> {
    /// Passive segments are known by their number, so that two of them cannot have the same one.
    open spec fn verdict(self, number: usize, context: ContextView) -> VerdictView {
        stops_unless(crate::payload::value_type(self.ty) == ValueType::FuncRef).followed_by(
            match crate::payload::segment_items(self.items) {
                Some(items) => items_verdict(items, 0),
                None => VerdictView::Stop,
            },
        ).followed_by(
            match self.place {
                ElementPlace::Active(table, offset) => place_verdict(
                    table,
                    offset,
                    "unsupported element segment"@,
                ),
                ElementPlace::Passive => needs(
                    !was_passive(context.segments, number),
                    "unsupported element segment"@,
                ),
                ElementPlace::Declared => VerdictView::Continue,
            },
        )
    }

    open spec fn unreadable() -> VerdictView {
        VerdictView::Stop
    }

    open spec fn is_alike(self, other: Self) -> bool {
        &&& crate::payload::value_type(self.ty) == crate::payload::value_type(other.ty)
        &&& crate::payload::segment_items(self.items) == crate::payload::segment_items(other.items)
        &&& match (self.place, other.place) {
            (ElementPlace::Active(table, offset), ElementPlace::Active(table2, offset2)) => {
                &&& table == table2
                &&& crate::payload::leading_operator(offset) == crate::payload::leading_operator(
                    offset2,
                )
            },
            (ElementPlace::Passive, ElementPlace::Passive) => true,
            (ElementPlace::Declared, ElementPlace::Declared) => true,
            _ => false,
        }
    }

    proof fn lemma_alike(self, other: Self, number: usize, context: ContextView) {
    }

    fn judge(&self, number: usize, context: &Context) -> Verdict {
        if type_of(&self.ty) != ValueType::FuncRef {
            return Verdict::Stop;
        }
        match list_items(&self.items) {
            Some(items) => {
                match judge_items(&items) {
                    Verdict::Continue => {},
                    verdict => {
                        return verdict;
                    },
                }
            },
            None => {
                return Verdict::Stop;
            },
        }
        match &self.place {
            ElementPlace::Active(table, offset) => judge_place(
                *table,
                offset,
                "unsupported element segment",
            ),
            ElementPlace::Passive => need(
                !check_was_passive(&context.segments, number),
                "unsupported element segment",
            ),
            ElementPlace::Declared => Verdict::Continue,
        }
    }

    fn judge_unreadable() -> Verdict {
        Verdict::Stop
    }
}

impl<'a> Entry for DataSegment<'a> {
    /// Passive segments are known by their number, as with elements.
    open spec fn verdict(self, number: usize, context: ContextView) -> VerdictView {
        match self.place {
            DataPlace::Active(memory, offset) => place_verdict(
                memory,
                offset,
                "unsupported data segment"@,
            ),
            DataPlace::Passive => needs(
                !was_passive(context.data, number),
                "unsupported data segment"@,
            ),
        }
    }

    open spec fn unreadable() -> VerdictView {
        VerdictView::Stop
    }

    open spec fn is_alike(self, other: Self) -> bool {
        match (self.place, other.place) {
            (DataPlace::Active(memory, offset), DataPlace::Active(memory2, offset2)) => {
                &&& memory == memory2
                &&& crate::payload::leading_operator(offset) == crate::payload::leading_operator(
                    offset2,
                )
            },
            (DataPlace::Passive, DataPlace::Passive) => true,
            _ => false,
        }
    }

    proof fn lemma_alike(self, other: Self, number: usize, context: ContextView) {
    }

    fn judge(&self, number: usize, context: &Context) -> Verdict {
        match &self.place {
            DataPlace::Active(memory, offset) => judge_place(
                *memory,
                offset,
                "unsupported data segment",
            ),
            DataPlace::Passive => need(
                !check_was_passive(&context.data, number),
                "unsupported data segment",
            ),
        }
    }

    fn judge_unreadable() -> Verdict {
        Verdict::Stop
    }
}

/// What translation does with the entries of a section, from the `i`th on.
pub open spec fn entries_verdict<T: Entry>(
    entries: Seq<Option<T>>,
    i: int,
    context: ContextView,
) -> VerdictView
    decreases entries.len() - i,
{
    if i < 0 || i >= entries.len() {
        VerdictView::Continue
    } else {
        match entries[i] {
            Some(entry) => entry.verdict(i as usize, context).followed_by(
                entries_verdict(entries, i + 1, context),
            ),
            None => T::unreadable(),
        }
    }
}

/// What translation does with a section.
pub open spec fn listing_verdict<T: Entry>(
    listing: ListingView<T>,
    context: ContextView,
) -> VerdictView {
    match listing {
        Some(entries) => entries_verdict(entries, 0, context),
        None => VerdictView::Continue,
    }
}

fn judge_entries<T: Entry>(entries: &Vec<Option<T>>, context: &Context) -> (r: Verdict)
    requires
        usize::BITS == 64,
    ensures
        r@ == entries_verdict(entries@, 0, context@),
{
    for i in 0..entries.len()
        invariant
            usize::BITS == 64,
            entries_verdict(entries@, 0, context@) == entries_verdict(
                entries@,
                i as int,
                context@,
            ),
    {
        match &entries[i] {
            Some(entry) => {
                match entry.judge(i, context) {
                    Verdict::Continue => {},
                    verdict => {
                        return verdict;
                    },
                }
            },
            None => {
                return T::judge_unreadable();
            },
        }
    }
    Verdict::Continue
}

fn judge_listing<T: Entry>(listing: &Listing<T>, context: &Context) -> (r: Verdict)
    requires
        usize::BITS == 64,
    ensures
        r@ == listing_verdict(crate::payload::listed(*listing), context@),
{
    match listing {
        Some(entries) => judge_entries(entries, context),
        None => Verdict::Continue,
    }
}

/// What translation does with a payload for what it is.
pub open spec fn mark_verdict(mark: Mark, context: ContextView) -> VerdictView {
    match mark {
        Mark::Start(function) => needs(
            !context.start && function != u32::MAX,
            "unsupported start section"@,
        ),
        Mark::ModuleSection
        | Mark::InstanceSection
        | Mark::AliasSection
        | Mark::ModuleCodeStart
        | Mark::ModuleCode => VerdictView::Refuse("module linking not implemented yet"@),
        Mark::Unknown => VerdictView::Refuse("unknown section"@),
        Mark::DataCount(_) | Mark::FunctionBody | Mark::Plain => VerdictView::Continue,
    }
}

fn judge_mark(mark: Mark, context: &Context) -> (r: Verdict)
    ensures
        r@ == mark_verdict(mark, context@),
{
    match mark {
        Mark::Start(function) => need(
            !context.start && function != u32::MAX,
            "unsupported start section",
        ),
        Mark::ModuleSection
        | Mark::InstanceSection
        | Mark::AliasSection
        | Mark::ModuleCodeStart
        | Mark::ModuleCode => need(false, "module linking not implemented yet"),
        Mark::Unknown => need(false, "unknown section"),
        Mark::DataCount(_) | Mark::FunctionBody | Mark::Plain => Verdict::Continue,
    }
}

/// What translation does with a custom section: those of interface types are not supported.
pub open spec fn name_verdict(name: Option<Seq<char>>) -> VerdictView {
    stops_unless(name != Some("webidl-bindings"@) && name != Some("wasm-interface-types"@))
}

fn judge_name(name: &Option<String>) -> (r: Verdict)
    ensures
        r@ == name_verdict(match *name {
            Some(name) => Some(name@),
            None => None,
        }),
{
    match name {
        Some(name) => stop_unless(
            *name != "webidl-bindings".to_owned() && *name != "wasm-interface-types".to_owned(),
        ),
        None => Verdict::Continue,
    }
}

/// Whether a section has entries.
pub open spec fn has_entries<T>(listing: ListingView<T>) -> bool {
    listing matches Some(entries) && entries.len() > 0
}

fn check_has_entries<T>(listing: &Listing<T>) -> (r: bool)
    ensures
        r == has_entries(crate::payload::listed(*listing)),
{
    match listing {
        Some(entries) => entries.len() > 0,
        None => false,
    }
}

/// Which segments of an element section are passive.
pub open spec fn passive_segments(entries: Seq<Option<ElementSegment<'_>>>) -> Seq<bool> {
    Seq::new(
        entries.len(),
        |i: int| entries[i] matches Some(segment) && segment.place is Passive,
    )
}

fn list_passive_segments(entries: &Vec<Option<ElementSegment<'_>>>) -> (r: Vec<bool>)
    ensures
        r.deep_view() == passive_segments(entries@),
{
    let mut flags: Vec<bool> = Vec::new();
    for i in 0..entries.len()
        invariant
            flags.len() == i,
            forall|j: int| 0 <= j < i ==> #[trigger] flags@[j] == passive_segments(entries@)[j],
    {
        let flag = match &entries[i] {
            Some(segment) => match segment.place {
                ElementPlace::Passive => true,
                _ => false,
            },
            None => false,
        };
        flags.push(flag);
    }
    assert(flags.deep_view() =~= passive_segments(entries@));
    flags
}

/// Which segments of a data section are passive.
pub open spec fn passive_data(entries: Seq<Option<DataSegment<'_>>>) -> Seq<bool> {
    Seq::new(
        entries.len(),
        |i: int| entries[i] matches Some(segment) && segment.place is Passive,
    )
}

fn list_passive_data(entries: &Vec<Option<DataSegment<'_>>>) -> (r: Vec<bool>)
    ensures
        r.deep_view() == passive_data(entries@),
{
    let mut flags: Vec<bool> = Vec::new();
    for i in 0..entries.len()
        invariant
            flags.len() == i,
            forall|j: int| 0 <= j < i ==> #[trigger] flags@[j] == passive_data(entries@)[j],
    {
        let flag = match &entries[i] {
            Some(segment) => match segment.place {
                DataPlace::Passive => true,
                _ => false,
            },
            None => false,
        };
        flags.push(flag);
    }
    assert(flags.deep_view() =~= passive_data(entries@));
    flags
}

impl<'a> ContentsView<'a> {
    /// What translation does with a payload.
    pub open spec fn verdict(self, context: ContextView) -> VerdictView {
        mark_verdict(self.mark, context).followed_by(name_verdict(self.name)).followed_by(
            listing_verdict(self.types, context),
        ).followed_by(listing_verdict(self.imports, context)).followed_by(
            listing_verdict(self.functions, context),
        ).followed_by(listing_verdict(self.tables, context)).followed_by(
            listing_verdict(self.memories, context),
        ).followed_by(listing_verdict(self.globals, context)).followed_by(
            listing_verdict(self.exports, context),
        ).followed_by(listing_verdict(self.segments, context)).followed_by(
            listing_verdict(self.data, context),
        )
    }

    /// The context of the next payload.
    pub open spec fn next(self, context: ContextView) -> ContextView {
        ContextView {
            static_memory_bound: context.static_memory_bound,
            functions: context.functions || has_entries(self.functions),
            tables: context.tables || has_entries(self.tables),
            memories: context.memories || has_entries(self.memories),
            globals: context.globals || has_entries(self.globals),
            start: context.start || self.mark is Start,
            segments: match self.segments {
                Some(entries) => context.segments.push(passive_segments(entries)),
                None => context.segments,
            },
            data: match self.data {
                Some(entries) => context.data.push(passive_data(entries)),
                None => context.data,
            },
        }
    }

    /// Whether a payload holds nothing that translation looks at: it is a custom section, but for
    /// those of interface types, a header, or the like.
    pub open spec fn is_idle(self) -> bool {
        &&& self.mark is Plain
        &&& name_verdict(self.name) is Continue
        &&& self.types is None
        &&& self.imports is None
        &&& self.functions is None
        &&& self.tables is None
        &&& self.memories is None
        &&& self.globals is None
        &&& self.exports is None
        &&& self.segments is None
        &&& self.data is None
    }
}

impl<'a> Contents<'a> {
    /// Says what translation does with a payload.
    pub fn judge(&self, context: &Context) -> (r: Verdict)
        requires
            usize::BITS == 64,
        ensures
            r@ == self@.verdict(context@),
    {
        match judge_mark(self.mark, context) {
            Verdict::Continue => {},
            verdict => {
                return verdict;
            },
        }
        match judge_name(&self.name) {
            Verdict::Continue => {},
            verdict => {
                return verdict;
            },
        }
        match judge_listing(&self.types, context) {
            Verdict::Continue => {},
            verdict => {
                return verdict;
            },
        }
        match judge_listing(&self.imports, context) {
            Verdict::Continue => {},
            verdict => {
                return verdict;
            },
        }
        match judge_listing(&self.functions, context) {
            Verdict::Continue => {},
            verdict => {
                return verdict;
            },
        }
        match judge_listing(&self.tables, context) {
            Verdict::Continue => {},
            verdict => {
                return verdict;
            },
        }
        match judge_listing(&self.memories, context) {
            Verdict::Continue => {},
            verdict => {
                return verdict;
            },
        }
        match judge_listing(&self.globals, context) {
            Verdict::Continue => {},
            verdict => {
                return verdict;
            },
        }
        match judge_listing(&self.exports, context) {
            Verdict::Continue => {},
            verdict => {
                return verdict;
            },
        }
        match judge_listing(&self.segments, context) {
            Verdict::Continue => {},
            verdict => {
                return verdict;
            },
        }
        judge_listing(&self.data, context)
    }

    /// The context of the next payload.
    pub fn next(&self, context: Context) -> (r: Context)
        ensures
            r@ == self@.next(context@),
    {
        let start = match self.mark {
            Mark::Start(_) => true,
            _ => false,
        };
        let mut segments = context.segments;
        let ghost segments_before = segments.deep_view();
        if let Some(entries) = &self.segments {
            segments.push(list_passive_segments(entries));
            assert(segments.deep_view() =~= segments_before.push(passive_segments(entries@)));
        }
        let mut data = context.data;
        let ghost data_before = data.deep_view();
        if let Some(entries) = &self.data {
            data.push(list_passive_data(entries));
            assert(data.deep_view() =~= data_before.push(passive_data(entries@)));
        }
        Context {
            static_memory_bound: context.static_memory_bound,
            functions: context.functions || check_has_entries(&self.functions),
            tables: context.tables || check_has_entries(&self.tables),
            memories: context.memories || check_has_entries(&self.memories),
            globals: context.globals || check_has_entries(&self.globals),
            start: context.start || start,
            segments,
            data,
        }
    }
}

/// What translation does with a list of payloads.
pub open spec fn payloads_verdict(context: ContextView, payloads: Seq<Payload<'_>>) -> VerdictView
    decreases payloads.len(),
{
    if payloads.len() == 0 {
        VerdictView::Continue
    } else {
        let contents = crate::payload::payload_contents(payloads[0]);
        contents.verdict(context).followed_by(
            payloads_verdict(contents.next(context), payloads.drop_first()),
        )
    }
}

/// Why a binary cannot be translated, if it cannot: this host has too narrow addresses, or
/// translation would panic.
pub open spec fn refusal(static_memory_bound: u32, data: Seq<u8>) -> Option<WasmErrorView> {
    if usize::BITS != 64 {
        Some(WasmErrorView::Unsupported("host without 64-bit addresses"@))
    } else {
        match payloads_verdict(
            ContextView::initial(static_memory_bound),
            crate::payload::binary_payloads(data),
        ) {
            VerdictView::Refuse(reason) => Some(WasmErrorView::Unsupported(reason)),
            _ => None,
        }
    }
}

/// Whether a binary can be translated, be it that translation then stops with an error.
pub open spec fn is_translatable(static_memory_bound: u32, data: Seq<u8>) -> bool {
    refusal(static_memory_bound, data) is None
}

/// Checks that a binary can be translated, and says why where it cannot.
pub fn check_binary(static_memory_bound: u32, data: &[u8]) -> (r: Result<(), WasmError>)
    ensures
        match r {
            Ok(_) => is_translatable(static_memory_bound, data@),
            Err(error) => refusal(static_memory_bound, data@) == Some(error@),
        },
{
    if usize::BITS != 64 {
        return Err(WasmError::Unsupported("host without 64-bit addresses".to_owned()));
    }
    let payloads = parse(data);
    let mut context = Context::new(static_memory_bound);
    let ghost whole = payloads_verdict(context@, payloads@);
    proof {
        assert(payloads@.skip(0) =~= payloads@);
    }
    for i in 0..payloads.len()
        invariant
            usize::BITS == 64,
            payloads@ == crate::payload::binary_payloads(data@),
            whole == payloads_verdict(ContextView::initial(static_memory_bound), payloads@),
            whole == payloads_verdict(context@, payloads@.skip(i as int)),
    {
        proof {
            assert(payloads@.skip(i as int)[0] == payloads@[i as int]);
            assert(payloads@.skip(i as int).drop_first() =~= payloads@.skip(i + 1));
        }
        let contents = contents_of(&payloads[i]);
        match contents.judge(&context) {
            Verdict::Continue => {},
            Verdict::Stop => {
                return Ok(());
            },
            Verdict::Refuse(reason) => {
                return Err(WasmError::Unsupported(reason));
            },
        }
        context = contents.next(context);
    }
    Ok(())
}

/// The payloads that translation looks at.
pub open spec fn looked_at(payloads: Seq<Payload<'_>>) -> Seq<Payload<'_>> {
    payloads.filter(|payload: Payload<'_>| !crate::payload::payload_contents(payload).is_idle())
}

/// Custom sections, and whatever else translation does not look at, do not matter, be they few or
/// many and wherever they stand.
pub proof fn law_idle_payloads_do_not_matter(context: ContextView, payloads: Seq<Payload<'_>>)
    ensures
        payloads_verdict(context, payloads) == payloads_verdict(context, looked_at(payloads)),
    decreases payloads.len(),
{
    let keep = |payload: Payload<'_>| !crate::payload::payload_contents(payload).is_idle();
    if payloads.len() == 0 {
        reveal(Seq::filter);
        assert(looked_at(payloads) =~= payloads);
    } else {
        let first = seq![payloads[0]];
        let rest = payloads.drop_first();
        let contents = crate::payload::payload_contents(payloads[0]);
        assert(payloads =~= first + rest);
        Seq::filter_distributes_over_add(first, rest, keep);
        reveal(Seq::filter);
        assert(first.drop_last() =~= Seq::empty());
        assert(Seq::<Payload<'_>>::empty().filter(keep) =~= Seq::empty());
        law_idle_payloads_do_not_matter(contents.next(context), rest);
        if contents.is_idle() {
            assert(first.filter(keep) =~= Seq::empty());
            assert(looked_at(payloads) =~= looked_at(rest));
            assert(contents.next(context) == context);
        } else {
            assert(first.filter(keep) =~= first);
            assert(looked_at(payloads) =~= first + looked_at(rest));
            assert(looked_at(payloads)[0] == payloads[0]);
            assert(looked_at(payloads).drop_first() =~= looked_at(rest));
        }
    }
}

/// Whether two listings are the same but for the places in the binary where their entries stand.
pub open spec fn are_alike<T: Entry>(first: ListingView<T>, second: ListingView<T>) -> bool {
    match (first, second) {
        (Some(first), Some(second)) => {
            &&& first.len() == second.len()
            &&& forall|i: int|
                0 <= i < first.len() ==> match (#[trigger] first[i], #[trigger] second[i]) {
                    (Some(entry), Some(other)) => entry.is_alike(other),
                    (None, None) => true,
                    _ => false,
                }
        },
        (None, None) => true,
        _ => false,
    }
}

impl<'a> ContentsView<'a> {
    /// Whether two payloads are the same to translation but for the places where they stand.
    pub open spec fn is_alike(self, other: ContentsView<'a>) -> bool {
        &&& self.mark == other.mark
        &&& self.name == other.name
        &&& are_alike(self.types, other.types)
        &&& are_alike(self.imports, other.imports)
        &&& are_alike(self.functions, other.functions)
        &&& are_alike(self.tables, other.tables)
        &&& are_alike(self.memories, other.memories)
        &&& are_alike(self.globals, other.globals)
        &&& are_alike(self.exports, other.exports)
        &&& are_alike(self.segments, other.segments)
        &&& are_alike(self.data, other.data)
    }
}

/// Whether two lists of payloads are the same to translation but for the places where they stand.
pub open spec fn are_payloads_alike(first: Seq<Payload<'_>>, second: Seq<Payload<'_>>) -> bool {
    &&& first.len() == second.len()
    &&& forall|i: int|
        0 <= i < first.len() ==> crate::payload::payload_contents(#[trigger] first[i]).is_alike(
            crate::payload::payload_contents(#[trigger] second[i]),
        )
}

proof fn lemma_entries_alike<T: Entry>(
    first: Seq<Option<T>>,
    second: Seq<Option<T>>,
    i: int,
    context: ContextView,
)
    requires
        are_alike(Some(first), Some(second)),
        0 <= i <= first.len(),
    ensures
        entries_verdict(first, i, context) == entries_verdict(second, i, context),
    decreases first.len() - i,
{
    if i < first.len() {
        match (first[i], second[i]) {
            (Some(entry), Some(other)) => {
                entry.lemma_alike(other, i as usize, context);
                lemma_entries_alike(first, second, i + 1, context);
            },
            _ => {},
        }
    }
}

proof fn lemma_listings_alike<T: Entry>(
    first: ListingView<T>,
    second: ListingView<T>,
    context: ContextView,
)
    requires
        are_alike(first, second),
    ensures
        listing_verdict(first, context) == listing_verdict(second, context),
        has_entries(first) == has_entries(second),
{
    if let (Some(first), Some(second)) = (first, second) {
        lemma_entries_alike(first, second, 0, context);
    }
}

proof fn lemma_contents_alike(
    first: ContentsView<'_>,
    second: ContentsView<'_>,
    context: ContextView,
)
    requires
        first.is_alike(second),
    ensures
        first.verdict(context) == second.verdict(context),
        first.next(context) == second.next(context),
{
    lemma_listings_alike(first.types, second.types, context);
    lemma_listings_alike(first.imports, second.imports, context);
    lemma_listings_alike(first.functions, second.functions, context);
    lemma_listings_alike(first.tables, second.tables, context);
    lemma_listings_alike(first.memories, second.memories, context);
    lemma_listings_alike(first.globals, second.globals, context);
    lemma_listings_alike(first.exports, second.exports, context);
    lemma_listings_alike(first.segments, second.segments, context);
    lemma_listings_alike(first.data, second.data, context);
    if let (Some(entries), Some(others)) = (first.segments, second.segments) {
        assert(passive_segments(entries) =~= passive_segments(others));
    }
    if let (Some(entries), Some(others)) = (first.data, second.data) {
        assert(passive_data(entries) =~= passive_data(others));
    }
}

/// Translation does the same with payloads that are alike, wherever they stand.
pub proof fn law_places_do_not_matter(
    context: ContextView,
    first: Seq<Payload<'_>>,
    second: Seq<Payload<'_>>,
)
    requires
        are_payloads_alike(first, second),
    ensures
        payloads_verdict(context, first) == payloads_verdict(context, second),
    decreases first.len(),
{
    if first.len() > 0 {
        let contents = crate::payload::payload_contents(first[0]);
        lemma_contents_alike(contents, crate::payload::payload_contents(second[0]), context);
        assert forall|i: int| 0 <= i < first.drop_first().len() implies
            crate::payload::payload_contents(#[trigger] first.drop_first()[i]).is_alike(
            crate::payload::payload_contents(#[trigger] second.drop_first()[i]),
        ) by {
            assert(first.drop_first()[i] == first[i + 1]);
            assert(second.drop_first()[i] == second[i + 1]);
        }
        law_places_do_not_matter(
            contents.next(context),
            first.drop_first(),
            second.drop_first(),
        );
    }
}

/// The types and functions that a list of payloads declares, and the bodies that it holds.
pub struct FunctionLayout {
    /// Whether all types are function types that can be read.
    pub sound: bool,
    /// The number of types.
    pub types: nat,
    /// The functions that are defined.
    pub functions: Seq<Option<FunctionEntry>>,
    /// The number of bodies.
    pub bodies: nat,
}

impl FunctionLayout {
    /// Whether every function that has a body has a type.
    pub open spec fn has_types(self) -> bool {
        &&& self.sound
        &&& forall|i: int|
            0 <= i < self.functions.len() && i < self.bodies ==> (
            #[trigger] self.functions[i] matches Some(function) ==> function.type_index
                < self.types)
    }
}

/// Whether all types of a section are function types that can be read.
pub open spec fn are_functions(entries: Seq<Option<TypeEntry>>) -> bool {
    forall|i: int|
        0 <= i < entries.len() ==> (#[trigger] entries[i] matches Some(entry) && entry is Function)
}

fn check_functions(entries: &Vec<Option<TypeEntry>>) -> (r: bool)
    ensures
        r == are_functions(entries@),
{
    for i in 0..entries.len()
        invariant
            forall|j: int|
                0 <= j < i ==> (#[trigger] entries@[j] matches Some(entry) && entry is Function),
    {
        let is_function = match &entries[i] {
            Some(TypeEntry::Function(_)) => true,
            _ => false,
        };
        if !is_function {
            assert(!(entries@[i as int] matches Some(entry) && entry is Function));
            return false;
        }
    }
    true
}

/// The functions of a list of payloads. A later section takes the place of an earlier one.
pub open spec fn function_layout(payloads: Seq<Payload<'_>>) -> FunctionLayout
    decreases payloads.len(),
{
    if payloads.len() == 0 {
        FunctionLayout { sound: true, types: 0, functions: Seq::empty(), bodies: 0 }
    } else {
        let before = function_layout(payloads.drop_last());
        let contents = crate::payload::payload_contents(payloads.last());
        FunctionLayout {
            sound: before.sound && match contents.types {
                Some(types) => are_functions(types),
                None => true,
            },
            types: match contents.types {
                Some(types) => types.len(),
                None => before.types,
            },
            functions: match contents.functions {
                Some(functions) => functions,
                None => before.functions,
            },
            bodies: if contents.mark is FunctionBody {
                before.bodies + 1
            } else {
                before.bodies
            },
        }
    }
}

/// Whether all types of a binary are function types, and every function that has a body has a type.
pub open spec fn has_function_types(data: Seq<u8>) -> bool {
    function_layout(crate::payload::binary_payloads(data)).has_types()
}

/// Checks that all types are function types, and that every function that has a body has a type.
pub fn check_function_types(data: &[u8]) -> (r: bool)
    requires
        usize::BITS == 64,
    ensures
        r == has_function_types(data@),
{
    let payloads = parse(data);
    let mut sound = true;
    let mut types: usize = 0;
    let mut functions: Vec<Option<FunctionEntry>> = Vec::new();
    let mut bodies: usize = 0;
    for i in 0..payloads.len()
        invariant
            usize::BITS == 64,
            bodies <= i,
            function_layout(payloads@.take(i as int)) == (FunctionLayout {
                sound,
                types: types as nat,
                functions: functions@,
                bodies: bodies as nat,
            }),
    {
        proof {
            assert(payloads@.take(i + 1).drop_last() =~= payloads@.take(i as int));
            assert(payloads@.take(i + 1).last() == payloads@[i as int]);
        }
        let contents = contents_of(&payloads[i]);
        if let Some(entries) = contents.types {
            sound = sound && check_functions(&entries);
            types = entries.len();
        }
        if let Some(entries) = contents.functions {
            functions = entries;
        }
        if let Mark::FunctionBody = contents.mark {
            bodies = bodies + 1;
        }
    }
    proof {
        assert(payloads@.take(payloads.len() as int) =~= payloads@);
    }
    let ghost layout = FunctionLayout {
        sound,
        types: types as nat,
        functions: functions@,
        bodies: bodies as nat,
    };
    if !sound {
        return false;
    }
    for i in 0..functions.len()
        invariant
            has_function_types(data@) == layout.has_types(),
            layout.sound,
            layout.types == types,
            layout.functions == functions@,
            layout.bodies == bodies,
            forall|j: int|
                0 <= j < i && j < bodies ==> match #[trigger] functions@[j] {
                    Some(function) => function.type_index < types,
                    None => true,
                },
    {
        if let Some(function) = functions[i] {
            if i < bodies && function.type_index as u64 >= types as u64 {
                assert(layout.functions[i as int] == Some(function));
                return false;
            }
        }
    }
    true
}

} // verus!
