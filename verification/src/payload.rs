//! The payloads of a WebAssembly binary: its header, its sections and its function bodies.

use vstd::prelude::*;
use wasmparser::{
    DataKind, ElementItem, ElementItems, ElementKind, ExternalKind, FuncType,
    ImportSectionEntryType, InitExpr, Operator, Parser, Payload, Type, TypeDef,
};

verus! {

/// `wasmparser::Payload`, a header, a section or a function body of a binary.
#[verifier::external_type_specification]
#[verifier::external_body]
pub struct ExPayload<'a>(Payload<'a>);

/// `wasmparser::Type`, the type of a value or of a block.
#[verifier::external_type_specification]
#[verifier::external_body]
pub struct ExType(Type);

/// `wasmparser::FuncType`, the parameter and result types of a function as a binary has them.
#[verifier::external_type_specification]
#[verifier::external_body]
pub struct ExFuncType(FuncType);

/// `wasmparser::ImportSectionEntryType`, what is imported as a binary has it.
#[verifier::external_type_specification]
#[verifier::external_body]
pub struct ExImportSectionEntryType(ImportSectionEntryType);

/// `wasmparser::InitExpr`, the expression of an initial value or an offset.
#[verifier::external_type_specification]
#[verifier::external_body]
pub struct ExInitExpr<'a>(InitExpr<'a>);

/// `wasmparser::ElementItems`, the items of an element segment.
#[verifier::external_type_specification]
#[verifier::external_body]
pub struct ExElementItems<'a>(ElementItems<'a>);

/// The types that a binary can name.
#[derive(Clone, Copy, Debug, PartialEq, Eq, Structural)]
pub enum ValueType {
    I32,
    I64,
    F32,
    F64,
    V128,
    FuncRef,
    ExternRef,
    /// The type of functions, which no value has.
    Func,
    /// The type of blocks without a result, which no value has.
    EmptyBlockType,
}

/// An entry of a type section.
pub enum TypeEntry {
    Function(FuncType),
    Module,
    Instance,
}

/// The size of a linear memory, in pages.
#[derive(Clone, Copy, Debug, PartialEq, Eq, Structural)]
pub struct MemoryLimits {
    pub initial: u32,
    pub maximum: Option<u32>,
    pub shared: bool,
}

/// What is imported.
pub enum ImportDesc {
    /// A function, with the index of its type.
    Function(u32),
    /// A table, with the type of its elements.
    Table(Type),
    Memory(MemoryLimits),
    /// A global, with the type of its value.
    Global(Type),
    Module,
    Instance,
}

/// An entry of an import section.
pub struct ImportEntry {
    /// Whether there is a field name beside the module name.
    pub named: bool,
    pub ty: ImportSectionEntryType,
}

/// An entry of a function section: the index of the type of a function.
#[derive(Clone, Copy, Debug, PartialEq, Eq, Structural)]
pub struct FunctionEntry {
    pub type_index: u32,
}

/// An entry of a table section: the type of the elements of a table.
pub struct TableEntry {
    pub element: Type,
}

/// An entry of a global section.
pub struct GlobalEntry<'a> {
    /// The type of the value.
    pub ty: Type,
    /// The initial value.
    pub value: InitExpr<'a>,
}

/// The operator that an expression begins with.
#[derive(Clone, Copy, Debug, PartialEq, Eq, Structural)]
pub enum Leading {
    I32Const,
    I64Const,
    F32Const,
    F64Const,
    V128Const,
    RefNull,
    /// A reference to a function.
    RefFunc(u32),
    /// The value of a global.
    GlobalGet(u32),
    /// Any other operator.
    Other,
}

/// What is exported.
#[derive(Clone, Copy, Debug, PartialEq, Eq, Structural)]
pub enum ExportKind {
    Function,
    Table,
    Memory,
    Global,
    Type,
    Module,
    Instance,
}

/// An entry of an export section.
#[derive(Clone, Copy, Debug, PartialEq, Eq, Structural)]
pub struct ExportEntry {
    pub kind: ExportKind,
    pub index: u32,
}

/// Where an element segment goes.
pub enum ElementPlace<'a> {
    /// Into a table, at an offset.
    Active(u32, InitExpr<'a>),
    Passive,
    Declared,
}

/// An entry of an element section.
pub struct ElementSegment<'a> {
    /// The type of the items.
    pub ty: Type,
    pub place: ElementPlace<'a>,
    pub items: ElementItems<'a>,
}

/// An item of an element segment.
#[derive(Clone, Copy, Debug, PartialEq, Eq, Structural)]
pub enum Item {
    Function(u32),
    Null,
}

/// Where a data segment goes.
pub enum DataPlace<'a> {
    /// Into a memory, at an offset.
    Active(u32, InitExpr<'a>),
    Passive,
}

/// An entry of a data section.
pub struct DataSegment<'a> {
    pub place: DataPlace<'a>,
}

/// What a payload is, apart from sections that list entries.
#[derive(Clone, Copy, Debug, PartialEq, Eq, Structural)]
pub enum Mark {
    /// A start section, with the index of the function.
    Start(u32),
    DataCount(u32),
    FunctionBody,
    ModuleSection,
    InstanceSection,
    AliasSection,
    ModuleCodeStart,
    ModuleCode,
    /// A section with an unknown code.
    Unknown,
    /// Anything else.
    Plain,
}

/// The entries of a section up to the first that cannot be read, which is given as nothing; or
/// nothing where a payload is another section.
pub type Listing<T> = Option<Vec<Option<T>>>;

/// The contents of a `Listing`.
pub type ListingView<T> = Option<Seq<Option<T>>>;

/// The contents of a listing.
pub open spec fn listed<T>(listing: Listing<T>) -> ListingView<T> {
    match listing {
        Some(entries) => Some(entries@),
        None => None,
    }
}

/// The payloads of a binary, in order, up to the first that is malformed.
pub uninterp spec fn binary_payloads(data: Seq<u8>) -> Seq<Payload<'static>>;

/// The entries of a type section.
pub uninterp spec fn payload_types(payload: Payload<'_>) -> ListingView<TypeEntry>;

/// The entries of an import section.
pub uninterp spec fn payload_imports(payload: Payload<'_>) -> ListingView<ImportEntry>;

/// The entries of a function section.
pub uninterp spec fn payload_functions(payload: Payload<'_>) -> ListingView<FunctionEntry>;

/// The entries of a table section.
pub uninterp spec fn payload_tables(payload: Payload<'_>) -> ListingView<TableEntry>;

/// The entries of a memory section.
pub uninterp spec fn payload_memories(payload: Payload<'_>) -> ListingView<MemoryLimits>;

/// The entries of a global section.
pub uninterp spec fn payload_globals(payload: Payload<'_>) -> ListingView<GlobalEntry<'_>>;

/// The entries of an export section.
pub uninterp spec fn payload_exports(payload: Payload<'_>) -> ListingView<ExportEntry>;

/// The entries of an element section.
pub uninterp spec fn payload_segments(payload: Payload<'_>) -> ListingView<ElementSegment<'_>>;

/// The entries of a data section.
pub uninterp spec fn payload_data(payload: Payload<'_>) -> ListingView<DataSegment<'_>>;

/// The name of a custom section.
pub uninterp spec fn payload_name(payload: Payload<'_>) -> Option<Seq<char>>;

/// What else a payload is.
pub uninterp spec fn payload_mark(payload: Payload<'_>) -> Mark;

/// Which type this is.
pub uninterp spec fn value_type(ty: Type) -> ValueType;

/// The parameter types and the result types of a function type.
pub uninterp spec fn function_types(function: FuncType) -> (Seq<Type>, Seq<Type>);

/// What is imported.
pub uninterp spec fn import_desc(ty: ImportSectionEntryType) -> ImportDesc;

/// The operator that an expression begins with, if it can be read.
pub uninterp spec fn leading_operator(value: InitExpr<'_>) -> Option<Leading>;

/// The items of a segment up to the first that cannot be read, which is given as nothing; or
/// nothing where their number cannot be read.
pub uninterp spec fn segment_items(items: ElementItems<'_>) -> Option<Seq<Option<Item>>>;

/// Calls `wasmparser::Parser::parse_all`: the payloads up to the first error. They are a function
/// of the binary. Positions and lengths are added up in `usize`, which panics where addresses have
/// fewer than 64 bits.
#[verifier::external_body]
pub(crate) fn parse<'data>(data: &'data [u8]) -> (r: Vec<Payload<'data>>)
    requires
        usize::BITS == 64,
    ensures
        r@ == binary_payloads(data@),
{
    Parser::new(0).parse_all(data).map_while(|payload| payload.ok()).collect()
}

/// Calls `wasmparser::TypeSectionReader::into_iter`. As with all sections, the outcome is a
/// function of the payload, lengths are added up as in `parse`, and nothing is allocated for the
/// number of entries that the section announces.
#[verifier::external_body]
fn list_types(payload: &Payload<'_>) -> (r: Listing<TypeEntry>)
    requires
        usize::BITS == 64,
    ensures
        listed(r) == payload_types(*payload),
{
    let Payload::TypeSection(section) = payload else { return None };
    let mut entries = section.clone().into_iter();
    let entries = std::iter::from_fn(|| entries.next());
    Some(entries.map(|entry| entry.ok().map(|entry| match entry {
        TypeDef::Func(function) => TypeEntry::Function(function),
        TypeDef::Module(_) => TypeEntry::Module,
        TypeDef::Instance(_) => TypeEntry::Instance,
    })).collect())
}

/// Calls `wasmparser::ImportSectionReader::into_iter`.
#[verifier::external_body]
fn list_imports(payload: &Payload<'_>) -> (r: Listing<ImportEntry>)
    requires
        usize::BITS == 64,
    ensures
        listed(r) == payload_imports(*payload),
{
    let Payload::ImportSection(section) = payload else { return None };
    let mut entries = section.clone().into_iter();
    let entries = std::iter::from_fn(|| entries.next());
    Some(entries.map(|entry| entry.ok().map(|entry| ImportEntry {
        named: entry.field.is_some(),
        ty: entry.ty,
    })).collect())
}

/// Calls `wasmparser::FunctionSectionReader::into_iter`.
#[verifier::external_body]
fn list_functions(payload: &Payload<'_>) -> (r: Listing<FunctionEntry>)
    requires
        usize::BITS == 64,
    ensures
        listed(r) == payload_functions(*payload),
{
    let Payload::FunctionSection(section) = payload else { return None };
    let mut entries = section.clone().into_iter();
    let entries = std::iter::from_fn(|| entries.next());
    Some(entries.map(|entry| entry.ok().map(|entry| FunctionEntry {
        type_index: entry,
    })).collect())
}

/// Calls `wasmparser::TableSectionReader::into_iter`.
#[verifier::external_body]
fn list_tables(payload: &Payload<'_>) -> (r: Listing<TableEntry>)
    requires
        usize::BITS == 64,
    ensures
        listed(r) == payload_tables(*payload),
{
    let Payload::TableSection(section) = payload else { return None };
    let mut entries = section.clone().into_iter();
    let entries = std::iter::from_fn(|| entries.next());
    Some(entries.map(|entry| entry.ok().map(|entry| TableEntry {
        element: entry.element_type,
    })).collect())
}

/// Calls `wasmparser::MemorySectionReader::into_iter`.
#[verifier::external_body]
fn list_memories(payload: &Payload<'_>) -> (r: Listing<MemoryLimits>)
    requires
        usize::BITS == 64,
    ensures
        listed(r) == payload_memories(*payload),
{
    let Payload::MemorySection(section) = payload else { return None };
    let mut entries = section.clone().into_iter();
    let entries = std::iter::from_fn(|| entries.next());
    Some(entries.map(|entry| entry.ok().map(|entry| MemoryLimits {
        initial: entry.limits.initial,
        maximum: entry.limits.maximum,
        shared: entry.shared,
    })).collect())
}

/// Calls `wasmparser::GlobalSectionReader::into_iter`.
#[verifier::external_body]
fn list_globals<'data>(payload: &Payload<'data>) -> (r: Listing<GlobalEntry<'data>>)
    requires
        usize::BITS == 64,
    ensures
        listed(r) == payload_globals(*payload),
{
    let Payload::GlobalSection(section) = payload else { return None };
    let mut entries = section.clone().into_iter();
    let entries = std::iter::from_fn(|| entries.next());
    Some(entries.map(|entry| entry.ok().map(|entry| GlobalEntry {
        ty: entry.ty.content_type,
        value: entry.init_expr,
    })).collect())
}

/// Calls `wasmparser::ExportSectionReader::into_iter`.
#[verifier::external_body]
fn list_exports(payload: &Payload<'_>) -> (r: Listing<ExportEntry>)
    requires
        usize::BITS == 64,
    ensures
        listed(r) == payload_exports(*payload),
{
    let Payload::ExportSection(section) = payload else { return None };
    let mut entries = section.clone().into_iter();
    let entries = std::iter::from_fn(|| entries.next());
    Some(entries.map(|entry| entry.ok().map(|entry| ExportEntry {
        kind: match entry.kind {
            ExternalKind::Function => ExportKind::Function,
            ExternalKind::Table => ExportKind::Table,
            ExternalKind::Memory => ExportKind::Memory,
            ExternalKind::Global => ExportKind::Global,
            ExternalKind::Type => ExportKind::Type,
            ExternalKind::Module => ExportKind::Module,
            ExternalKind::Instance => ExportKind::Instance,
        },
        index: entry.index,
    })).collect())
}

/// Calls `wasmparser::ElementSectionReader::into_iter`.
#[verifier::external_body]
fn list_segments<'data>(payload: &Payload<'data>) -> (r: Listing<ElementSegment<'data>>)
    requires
        usize::BITS == 64,
    ensures
        listed(r) == payload_segments(*payload),
{
    let Payload::ElementSection(section) = payload else { return None };
    let mut entries = section.clone().into_iter();
    let entries = std::iter::from_fn(|| entries.next());
    Some(entries.map(|entry| entry.ok().map(|entry| ElementSegment {
        ty: entry.ty,
        place: match entry.kind {
            ElementKind::Active { table_index, init_expr } =>
                ElementPlace::Active(table_index, init_expr),
            ElementKind::Passive => ElementPlace::Passive,
            ElementKind::Declared => ElementPlace::Declared,
        },
        items: entry.items,
    })).collect())
}

/// Calls `wasmparser::DataSectionReader::into_iter`.
#[verifier::external_body]
fn list_data<'data>(payload: &Payload<'data>) -> (r: Listing<DataSegment<'data>>)
    requires
        usize::BITS == 64,
    ensures
        listed(r) == payload_data(*payload),
{
    let Payload::DataSection(section) = payload else { return None };
    let mut entries = section.clone().into_iter();
    let entries = std::iter::from_fn(|| entries.next());
    Some(entries.map(|entry| entry.ok().map(|entry| DataSegment {
        place: match entry.kind {
            DataKind::Active { memory_index, init_expr } =>
                DataPlace::Active(memory_index, init_expr),
            DataKind::Passive => DataPlace::Passive,
        },
    })).collect())
}

/// Reads the name of the custom section that a `wasmparser::Payload` may be.
#[verifier::external_body]
fn name_of(payload: &Payload<'_>) -> (r: Option<String>)
    ensures
        match r {
            Some(name) => payload_name(*payload) == Some(name@),
            None => payload_name(*payload) is None,
        },
{
    match payload {
        Payload::CustomSection { name, .. } => Some(name.to_string()),
        _ => None,
    }
}

/// Tells the other variants of `wasmparser::Payload` apart.
#[verifier::external_body]
fn mark_of(payload: &Payload<'_>) -> (r: Mark)
    ensures
        r == payload_mark(*payload),
{
    match payload {
        Payload::StartSection { func, .. } => Mark::Start(*func),
        Payload::DataCountSection { count, .. } => Mark::DataCount(*count),
        Payload::CodeSectionEntry(_) => Mark::FunctionBody,
        Payload::ModuleSection(_) => Mark::ModuleSection,
        Payload::InstanceSection(_) => Mark::InstanceSection,
        Payload::AliasSection(_) => Mark::AliasSection,
        Payload::ModuleCodeSectionStart { .. } => Mark::ModuleCodeStart,
        Payload::ModuleCodeSectionEntry { .. } => Mark::ModuleCode,
        Payload::UnknownSection { .. } => Mark::Unknown,
        _ => Mark::Plain,
    }
}

/// Tells the variants of `wasmparser::Type` apart.
#[verifier::external_body]
pub(crate) fn type_of(ty: &Type) -> (r: ValueType)
    ensures
        r == value_type(*ty),
{
    match ty {
        Type::I32 => ValueType::I32,
        Type::I64 => ValueType::I64,
        Type::F32 => ValueType::F32,
        Type::F64 => ValueType::F64,
        Type::V128 => ValueType::V128,
        Type::FuncRef => ValueType::FuncRef,
        Type::ExternRef => ValueType::ExternRef,
        Type::Func => ValueType::Func,
        Type::EmptyBlockType => ValueType::EmptyBlockType,
    }
}

/// Reads the fields `params` and `returns` of a `wasmparser::FuncType`.
#[verifier::external_body]
pub(crate) fn types_of(function: &FuncType) -> (r: (Vec<Type>, Vec<Type>))
    ensures
        (r.0@, r.1@) == function_types(*function),
{
    (function.params.to_vec(), function.returns.to_vec())
}

/// Tells the variants of `wasmparser::ImportSectionEntryType` apart.
#[verifier::external_body]
pub(crate) fn desc_of(ty: &ImportSectionEntryType) -> (r: ImportDesc)
    ensures
        r == import_desc(*ty),
{
    match ty {
        ImportSectionEntryType::Function(index) => ImportDesc::Function(*index),
        ImportSectionEntryType::Table(table) => ImportDesc::Table(table.element_type),
        ImportSectionEntryType::Memory(memory) => ImportDesc::Memory(MemoryLimits {
            initial: memory.limits.initial,
            maximum: memory.limits.maximum,
            shared: memory.shared,
        }),
        ImportSectionEntryType::Global(global) => ImportDesc::Global(global.content_type),
        ImportSectionEntryType::Module(_) => ImportDesc::Module,
        ImportSectionEntryType::Instance(_) => ImportDesc::Instance,
    }
}

/// Calls `wasmparser::BinaryReader::read_operator` on an expression. The outcome is a function of
/// the expression. Lengths are added up as in `parse`.
#[verifier::external_body]
pub(crate) fn read_leading(value: &InitExpr<'_>) -> (r: Option<Leading>)
    requires
        usize::BITS == 64,
    ensures
        r == leading_operator(*value),
{
    value.get_binary_reader().read_operator().ok().map(|operator| match operator {
        Operator::I32Const { .. } => Leading::I32Const,
        Operator::I64Const { .. } => Leading::I64Const,
        Operator::F32Const { .. } => Leading::F32Const,
        Operator::F64Const { .. } => Leading::F64Const,
        Operator::V128Const { .. } => Leading::V128Const,
        Operator::RefNull { .. } => Leading::RefNull,
        Operator::RefFunc { function_index } => Leading::RefFunc(function_index),
        Operator::GlobalGet { global_index } => Leading::GlobalGet(global_index),
        _ => Leading::Other,
    })
}

/// Calls `wasmparser::ElementItems::get_items_reader` and goes through the reader. The outcome is
/// a function of the items. Lengths are added up as in `parse`.
#[verifier::external_body]
pub(crate) fn list_items(items: &ElementItems<'_>) -> (r: Listing<Item>)
    requires
        usize::BITS == 64,
    ensures
        listed(r) == segment_items(*items),
{
    let mut items = items.get_items_reader().ok()?.into_iter();
    let items = std::iter::from_fn(|| items.next());
    Some(items.map(|item| item.ok().map(|item| match item {
        ElementItem::Func(function) => Item::Function(function),
        ElementItem::Null(_) => Item::Null,
    })).collect())
}

/// What a payload holds.
pub struct Contents<'a> {
    pub mark: Mark,
    pub name: Option<String>,
    pub types: Listing<TypeEntry>,
    pub imports: Listing<ImportEntry>,
    pub functions: Listing<FunctionEntry>,
    pub tables: Listing<TableEntry>,
    pub memories: Listing<MemoryLimits>,
    pub globals: Listing<GlobalEntry<'a>>,
    pub exports: Listing<ExportEntry>,
    pub segments: Listing<ElementSegment<'a>>,
    pub data: Listing<DataSegment<'a>>,
}

/// The contents of a `Contents`.
pub struct ContentsView<'a> {
    pub mark: Mark,
    pub name: Option<Seq<char>>,
    pub types: ListingView<TypeEntry>,
    pub imports: ListingView<ImportEntry>,
    pub functions: ListingView<FunctionEntry>,
    pub tables: ListingView<TableEntry>,
    pub memories: ListingView<MemoryLimits>,
    pub globals: ListingView<GlobalEntry<'a>>,
    pub exports: ListingView<ExportEntry>,
    pub segments: ListingView<ElementSegment<'a>>,
    pub data: ListingView<DataSegment<'a>>,
}

impl<'a> View for Contents<'a> {
    type V = ContentsView<'a>;

    open spec fn view(&self) -> ContentsView<'a> {
        ContentsView {
            mark: self.mark,
            name: match self.name {
                Some(name) => Some(name@),
                None => None,
            },
            types: listed(self.types),
            imports: listed(self.imports),
            functions: listed(self.functions),
            tables: listed(self.tables),
            memories: listed(self.memories),
            globals: listed(self.globals),
            exports: listed(self.exports),
            segments: listed(self.segments),
            data: listed(self.data),
        }
    }
}

/// What a payload holds.
pub open spec fn payload_contents(payload: Payload<'_>) -> ContentsView<'_> {
    ContentsView {
        mark: payload_mark(payload),
        name: payload_name(payload),
        types: payload_types(payload),
        imports: payload_imports(payload),
        functions: payload_functions(payload),
        tables: payload_tables(payload),
        memories: payload_memories(payload),
        globals: payload_globals(payload),
        exports: payload_exports(payload),
        segments: payload_segments(payload),
        data: payload_data(payload),
    }
}

/// Reads a payload.
pub(crate) fn contents_of<'data>(payload: &Payload<'data>) -> (r: Contents<'data>)
    requires
        usize::BITS == 64,
    ensures
        r@ == payload_contents(*payload),
{
    Contents {
        mark: mark_of(payload),
        name: name_of(payload),
        types: list_types(payload),
        imports: list_imports(payload),
        functions: list_functions(payload),
        tables: list_tables(payload),
        memories: list_memories(payload),
        globals: list_globals(payload),
        exports: list_exports(payload),
        segments: list_segments(payload),
        data: list_data(payload),
    }
}

/// What is read of a payload is all that it holds, in order: nothing is left out or added.
pub proof fn law_payload_is_read_in_full(payload: Payload<'_>, r: Contents<'_>)
    requires
        r@ == payload_contents(payload),
    ensures
        r.mark == payload_mark(payload),
        r.name is Some <==> payload_name(payload) is Some,
        r.name matches Some(name) ==> payload_name(payload) == Some(name@),
        r.types is Some <==> payload_types(payload) is Some,
        r.types is Some ==> payload_types(payload)->0 == r.types->0@,
        r.imports is Some <==> payload_imports(payload) is Some,
        r.imports is Some ==> payload_imports(payload)->0 == r.imports->0@,
        r.functions is Some <==> payload_functions(payload) is Some,
        r.functions is Some ==> payload_functions(payload)->0 == r.functions->0@,
        r.tables is Some <==> payload_tables(payload) is Some,
        r.tables is Some ==> payload_tables(payload)->0 == r.tables->0@,
        r.memories is Some <==> payload_memories(payload) is Some,
        r.memories is Some ==> payload_memories(payload)->0 == r.memories->0@,
        r.globals is Some <==> payload_globals(payload) is Some,
        r.globals is Some ==> payload_globals(payload)->0 == r.globals->0@,
        r.exports is Some <==> payload_exports(payload) is Some,
        r.exports is Some ==> payload_exports(payload)->0 == r.exports->0@,
        r.segments is Some <==> payload_segments(payload) is Some,
        r.segments is Some ==> payload_segments(payload)->0 == r.segments->0@,
        r.data is Some <==> payload_data(payload) is Some,
        r.data is Some ==> payload_data(payload)->0 == r.data->0@,
{
}

} // verus!
