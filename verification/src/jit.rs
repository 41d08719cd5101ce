//! Compiling and instantiating a module as separate steps, with imports resolved at
//! instantiation.
//!
//! `CompiledModule::new` translates a binary. The driver then compiles the translation, links and
//! publishes the code and tells the profiler, in this order, and reports each step: the stages
//! `UnlinkedModule`, `LinkedModule` and `PublishedModule` lead to a `CompiledModule`.

use crate::entity::{
    FinishedFunctions, ModuleAddressMap, SharedSignatures, Trampolines, Traps,
};
use crate::error::{prefixed, CompileError, InstantiationError};
use crate::frontend::{
    split_translation, translate_module, Compiler, FrontendError, TranslatedModule,
};
use crate::image::register_image;
use crate::initializer::{
    lend_initializers, own_initializers, DataInitializer, InitializerView, OwnedDataInitializer,
};
use crate::signatures::{
    index_trampolines, register_signatures, signature_count, try_register_signatures,
};
use std::collections::HashMap;
use std::sync::Arc;
use vstd::prelude::*;
use wasmtime_environ::{FunctionAddressMap, Module, TrapInformation};
use wasmtime_runtime::{
    GdbJitImageRegistration, Imports, SignatureRegistry, VMSharedSignatureIndex,
};

verus! {

/// `wasmtime_runtime::Imports`, resolved import pointers.
#[verifier::external_type_specification]
#[verifier::external_body]
pub struct ExImports(Imports);

/// An error condition while setting up a wasm instance, be it validation, compilation, or
/// instantiation.
#[derive(Debug)]
pub enum SetupError {
    /// The module did not pass validation.
    Validate(String),
    /// A wasm translation error occurred.
    Compile(CompileError),
    /// Some runtime resource was unavailable or insufficient, or the start function trapped.
    Instantiate(InstantiationError),
    /// Debug information generation error occurred.
    DebugInfo(anyhow::Error),
}

impl SetupError {
    /// The text of `message`.
    pub open spec fn text(self) -> Seq<char> {
        match self {
            SetupError::Validate(message) => "Validation error: "@ + message@,
            SetupError::Compile(_) => "WebAssembly failed to compile"@,
            SetupError::Instantiate(_) => "Instantiation failed during setup"@,
            SetupError::DebugInfo(_) => "Debug information error"@,
        }
    }

    /// What went wrong, in words.
    pub fn message(&self) -> (r: String)
        ensures
            r@ == self.text(),
    {
        match self {
            SetupError::Validate(message) => prefixed("Validation error: ", message.as_str()),
            SetupError::Compile(_) => "WebAssembly failed to compile".to_owned(),
            SetupError::Instantiate(_) => "Instantiation failed during setup".to_owned(),
            SetupError::DebugInfo(_) => "Debug information error".to_owned(),
        }
    }
}

impl From<CompileError> for SetupError {
    fn from(error: CompileError) -> (r: Self) {
        SetupError::Compile(error)
    }
}

impl vstd::std_specs::convert::FromSpecImpl<CompileError> for SetupError {
    open spec fn obeys_from_spec() -> bool {
        true
    }

    open spec fn from_spec(error: CompileError) -> Self {
        SetupError::Compile(error)
    }
}

impl From<InstantiationError> for SetupError {
    fn from(error: InstantiationError) -> (r: Self) {
        SetupError::Instantiate(error)
    }
}

impl vstd::std_specs::convert::FromSpecImpl<InstantiationError> for SetupError {
    open spec fn obeys_from_spec() -> bool {
        true
    }

    open spec fn from_spec(error: InstantiationError) -> Self {
        SetupError::Instantiate(error)
    }
}

impl From<anyhow::Error> for SetupError {
    fn from(error: anyhow::Error) -> (r: Self) {
        SetupError::DebugInfo(error)
    }
}

impl vstd::std_specs::convert::FromSpecImpl<anyhow::Error> for SetupError {
    open spec fn obeys_from_spec() -> bool {
        true
    }

    open spec fn from_spec(error: anyhow::Error) -> Self {
        SetupError::DebugInfo(error)
    }
}

impl From<FrontendError> for SetupError {
    fn from(error: FrontendError) -> (r: Self) {
        match error {
            FrontendError::Wasm(error) => SetupError::Compile(CompileError::Wasm(error)),
            FrontendError::DebugInfo(error) => SetupError::DebugInfo(error),
        }
    }
}

impl vstd::std_specs::convert::FromSpecImpl<FrontendError> for SetupError {
    open spec fn obeys_from_spec() -> bool {
        true
    }

    open spec fn from_spec(error: FrontendError) -> Self {
        match error {
            FrontendError::Wasm(error) => SetupError::Compile(CompileError::Wasm(error)),
            FrontendError::DebugInfo(error) => SetupError::DebugInfo(error),
        }
    }
}

/// What the compiler makes of a translation.
pub struct Compilation {
    /// The address and length of the body of each defined function.
    pub finished_functions: Vec<(usize, usize)>,
    /// The address of the trampoline of each signature.
    pub trampolines: Vec<usize>,
    /// The traps of each defined function.
    pub traps: Traps,
    /// The address map of each defined function.
    pub address_transform: ModuleAddressMap,
    /// The image for the debugger, where one was made.
    pub dbg_image: Option<Vec<u8>>,
}

/// The memory that compiled code stands in, as the ranges that have been made executable.
pub struct CodeMemory {
    published: Vec<(usize, usize)>,
}

impl View for CodeMemory {
    type V = Seq<(usize, usize)>;

    closed spec fn view(&self) -> Seq<(usize, usize)> {
        self.published@
    }
}

impl CodeMemory {
    /// Code memory whose executable ranges are `published`.
    pub fn new(published: Vec<(usize, usize)>) -> (r: Self)
        ensures
            r@ == published@,
    {
        CodeMemory { published }
    }

    /// The ranges that have been made executable.
    pub fn published_ranges(&self) -> (r: Vec<(usize, usize)>)
        ensures
            r@ == self@,
    {
        let mut ranges: Vec<(usize, usize)> = Vec::new();
        for i in 0..self.published.len()
            invariant
                ranges@ == self.published@.take(i as int),
        {
            ranges.push(self.published[i]);
        }
        assert(self.published@.take(self.published.len() as int) =~= self.published@);
        ranges
    }
}

/// Container for data needed for an Instance function to exist.
pub struct ModuleCode {
    code_memory: CodeMemory,
    dbg_jit_registration: Option<GdbJitImageRegistration>,
}

/// The contents of a `ModuleCode`.
pub struct ModuleCodeView {
    pub published: Seq<(usize, usize)>,
    pub image: Option<Seq<u8>>,
}

impl View for ModuleCode {
    type V = ModuleCodeView;

    closed spec fn view(&self) -> ModuleCodeView {
        ModuleCodeView {
            published: self.code_memory@,
            image: crate::image::image_of(self.dbg_jit_registration),
        }
    }
}

/// A module that has been compiled but not linked: next, the driver links it.
pub struct UnlinkedModule<'data> {
    /// The module.
    pub module: Module,
    /// The data initializers, which refer to the binary.
    pub data_initializers: Vec<DataInitializer<'data>>,
    /// What the compiler made of the module.
    pub compilation: Compilation,
}

/// A module that has been linked: next, the driver makes its code executable.
pub struct LinkedModule<'data> {
    unlinked: UnlinkedModule<'data>,
}

/// A module whose code is executable: next, the driver tells the profiler.
pub struct PublishedModule {
    module: Module,
    data_initializers: Vec<OwnedDataInitializer>,
    compilation: Compilation,
    code_memory: CodeMemory,
}

/// A compiled wasm module, ready to be instantiated.
pub struct CompiledModule {
    module: Arc<Module>,
    code: Arc<ModuleCode>,
    finished_functions: FinishedFunctions,
    trampolines: Trampolines,
    data_initializers: Vec<OwnedDataInitializer>,
    traps: Traps,
    address_transform: ModuleAddressMap,
}

/// The contents of a `CompiledModule`.
pub struct CompiledModuleView {
    pub module: Module,
    pub code: ModuleCodeView,
    pub finished_functions: Seq<(usize, usize)>,
    pub trampolines: Seq<usize>,
    pub data_initializers: Seq<InitializerView>,
    pub traps: Seq<Vec<TrapInformation>>,
    pub address_transform: Seq<FunctionAddressMap>,
}

impl View for CompiledModule {
    type V = CompiledModuleView;

    closed spec fn view(&self) -> CompiledModuleView {
        CompiledModuleView {
            module: *self.module,
            code: self.code@,
            finished_functions: self.finished_functions@,
            trampolines: self.trampolines@,
            data_initializers: crate::initializer::owned_views(self.data_initializers@),
            traps: self.traps@,
            address_transform: self.address_transform@,
        }
    }
}

/// The module that a compilation of a module adds up to, once its code is executable.
pub open spec fn compiled_view(
    module: Module,
    data_initializers: Seq<InitializerView>,
    compilation: Compilation,
    published: Seq<(usize, usize)>,
) -> CompiledModuleView {
    CompiledModuleView {
        module,
        code: ModuleCodeView {
            published,
            image: crate::image::image_bytes(compilation.dbg_image),
        },
        finished_functions: compilation.finished_functions@,
        trampolines: compilation.trampolines@,
        data_initializers,
        traps: compilation.traps@,
        address_transform: compilation.address_transform@,
    }
}

/// Whether this is what becomes of a binary that can be translated: its translation, with debug
/// information exactly if the tunables ask for it, or the first error.
pub open spec fn is_setup_result(
    result: Result<TranslatedModule<'_>, SetupError>,
    compiler: Compiler,
    data: Seq<u8>,
) -> bool {
    match result {
        Ok(translated) => crate::frontend::is_frontend_result(
            Ok(translated),
            compiler,
            data,
            compiler.tunables.debug_info,
        ),
        Err(SetupError::Compile(CompileError::Wasm(error))) => crate::frontend::is_frontend_result(
            Err(FrontendError::Wasm(error)),
            compiler,
            data,
            compiler.tunables.debug_info,
        ),
        Err(SetupError::DebugInfo(error)) => crate::frontend::is_frontend_result(
            Err(FrontendError::DebugInfo(error)),
            compiler,
            data,
            compiler.tunables.debug_info,
        ),
        Err(_) => false,
    }
}

/// Whether this is what becomes of a binary: it is refused, or translated.
pub open spec fn is_new_result(
    result: Result<TranslatedModule<'_>, SetupError>,
    compiler: Compiler,
    data: Seq<u8>,
) -> bool {
    match crate::support::refusal(compiler.tunables.static_memory_bound, data) {
        None => is_setup_result(result, compiler, data),
        Some(reason) => {
            &&& result matches Err(SetupError::Compile(CompileError::Wasm(error)))
            &&& error@ == reason
        },
    }
}

impl<'data> UnlinkedModule<'data> {
    /// Takes the outcome of compiling a translated module. A failure to compile is passed on.
    pub fn new(
        translated: TranslatedModule<'data>,
        compilation: Result<Compilation, SetupError>,
    ) -> (r: Result<Self, SetupError>)
        ensures
            match compilation {
                Ok(compilation) => {
                    &&& r matches Ok(unlinked)
                    &&& unlinked.module == crate::frontend::translation_module(
                        translated.translation,
                    )
                    &&& crate::initializer::borrowed_views(unlinked.data_initializers@)
                        == crate::frontend::translation_initializers(translated.translation)
                    &&& unlinked.compilation == compilation
                },
                Err(error) => r == Err::<Self, SetupError>(error),
            },
    {
        match compilation {
            Ok(compilation) => {
                let (module, data_initializers) = split_translation(translated.translation);
                Ok(UnlinkedModule { module, data_initializers, compilation })
            },
            Err(error) => Err(error),
        }
    }

    /// Takes note that the module has been linked.
    pub fn linked(self) -> (r: LinkedModule<'data>)
        ensures
            r.contents() == self,
    {
        LinkedModule { unlinked: self }
    }
}

impl<'data> LinkedModule<'data> {
    /// The module that was linked.
    pub closed spec fn contents(self) -> UnlinkedModule<'data> {
        self.unlinked
    }

    /// Takes note that the code has been made executable, and copies the data initializers out of
    /// the binary.
    pub fn published(self, code_memory: CodeMemory) -> (r: PublishedModule)
        ensures
            r.outcome() == compiled_view(
                self.contents().module,
                crate::initializer::borrowed_views(self.contents().data_initializers@),
                self.contents().compilation,
                code_memory@,
            ),
    {
        let data_initializers = own_initializers(&self.unlinked.data_initializers);
        PublishedModule {
            module: self.unlinked.module,
            data_initializers,
            compilation: self.unlinked.compilation,
            code_memory,
        }
    }
}

impl PublishedModule {
    /// The compiled module that this one becomes.
    pub closed spec fn outcome(self) -> CompiledModuleView {
        compiled_view(
            self.module,
            crate::initializer::owned_views(self.data_initializers@),
            self.compilation,
            self.code_memory@,
        )
    }

    /// The module that the profiler is told of.
    pub fn module(&self) -> (r: &Module)
        ensures
            *r == self.outcome().module,
    {
        &self.module
    }

    /// The bodies of the defined functions that the profiler is told of.
    pub fn finished_functions(&self) -> (r: &Vec<(usize, usize)>)
        ensures
            r@ == self.outcome().finished_functions,
    {
        &self.compilation.finished_functions
    }

    /// The image that the profiler is told of.
    pub fn dbg_image(&self) -> (r: Option<&[u8]>)
        ensures
            r is Some <==> self.outcome().code.image is Some,
            r matches Some(image) ==> self.outcome().code.image == Some(image@),
    {
        match &self.compilation.dbg_image {
            Some(image) => Some(image.as_slice()),
            None => None,
        }
    }

    /// Takes note that the profiler has been told, and registers the image with the debugger.
    pub fn profiled(self) -> (r: CompiledModule)
        ensures
            r@ == self.outcome(),
    {
        let compilation = self.compilation;
        let code = ModuleCode {
            code_memory: self.code_memory,
            dbg_jit_registration: register_image(compilation.dbg_image),
        };
        CompiledModule {
            module: Arc::new(self.module),
            code: Arc::new(code),
            finished_functions: FinishedFunctions::from_values(compilation.finished_functions),
            trampolines: Trampolines::from_values(compilation.trampolines),
            data_initializers: self.data_initializers,
            traps: compilation.traps,
            address_transform: compilation.address_transform,
        }
    }
}

/// Calls `std::sync::Arc::get_mut`, which gives access to the value unless the pointer is shared.
/// Whether it is shared cannot be told from its value.
#[verifier::external_body]
fn unshared<'a>(module: &'a mut Arc<Module>) -> (r: Option<&'a mut Module>)
    ensures
        match r {
            Some(inner) => *inner == **old(module) && **final(module) == *final(inner),
            None => *final(module) == *old(module),
        },
{
    Arc::get_mut(module)
}

/// What an instance is made of, but for its imports: next, the driver resolves these.
pub struct PendingInstance {
    /// The module.
    pub module: Arc<Module>,
    /// The code of the module.
    pub code: Arc<ModuleCode>,
    /// The bodies of the defined functions.
    pub finished_functions: FinishedFunctions,
    /// The trampolines by shared signature index.
    pub trampolines: HashMap<VMSharedSignatureIndex, usize>,
    /// The shared indices of the signatures.
    pub signatures: SharedSignatures,
}

/// The contents of a `PendingInstance`.
pub struct PendingInstanceView {
    pub module: Module,
    pub code: ModuleCodeView,
    pub finished_functions: Seq<(usize, usize)>,
    pub trampolines: Map<VMSharedSignatureIndex, usize>,
    pub signatures: Seq<VMSharedSignatureIndex>,
}

impl View for PendingInstance {
    type V = PendingInstanceView;

    open spec fn view(&self) -> PendingInstanceView {
        PendingInstanceView {
            module: *self.module,
            code: self.code@,
            finished_functions: self.finished_functions@,
            trampolines: self.trampolines@,
            signatures: self.signatures@,
        }
    }
}

/// What an instance is made of.
pub struct InstanceParts {
    /// Everything but the imports.
    pub pending: PendingInstance,
    /// The resolved imports.
    pub imports: Imports,
}

impl PendingInstance {
    /// Takes the outcome of resolving the imports.
    pub fn resolved(self, imports: Result<Imports, InstantiationError>) -> (r: Result<
        InstanceParts,
        InstantiationError,
    >)
        ensures
            match imports {
                Ok(imports) => r == Ok::<InstanceParts, InstantiationError>(
                    InstanceParts { pending: self, imports },
                ),
                Err(error) => r == Err::<InstanceParts, InstantiationError>(error),
            },
    {
        match imports {
            Ok(imports) => Ok(InstanceParts { pending: self, imports }),
            Err(error) => Err(error),
        }
    }
}

impl CompiledModuleView {
    /// The entries of a registry after an instance of this module was made with it.
    pub open spec fn entries_after(
        self,
        entries: Seq<(cranelift_wasm::WasmFuncType, wasmtime_environ::ir::Signature)>,
    ) -> Seq<(cranelift_wasm::WasmFuncType, wasmtime_environ::ir::Signature)> {
        crate::signatures::register_all(entries, crate::signatures::module_signatures(self.module))
    }

    /// Whether each trampoline is that of a signature of the module.
    pub open spec fn trampolines_fit(self) -> bool {
        self.trampolines.len() <= crate::signatures::module_signatures(self.module).len()
    }

    /// Whether `pending` is an instance of this module: all that the module holds, the shared
    /// indices of its signatures in a registry with these entries, and its trampolines by them.
    pub open spec fn is_instance(
        self,
        entries: Seq<(cranelift_wasm::WasmFuncType, wasmtime_environ::ir::Signature)>,
        pending: PendingInstanceView,
    ) -> bool {
        &&& pending.module == self.module
        &&& pending.code == self.code
        &&& pending.finished_functions == self.finished_functions
        &&& crate::signatures::are_indices_of(
            entries,
            pending.signatures,
            crate::signatures::module_signatures(self.module),
        )
        &&& pending.trampolines == crate::signatures::trampoline_map(
            pending.signatures,
            self.trampolines,
        )
    }
}

impl CompiledModule {
    /// Translates a data buffer: next, the driver compiles the translation. A data buffer that
    /// holds no module that can be translated is refused.
    pub fn new<'data>(compiler: &Compiler, data: &'data [u8]) -> (r: Result<
        TranslatedModule<'data>,
        SetupError,
    >)
        ensures
            is_new_result(r, *compiler, data@),
    {
        match translate_module(compiler, data, compiler.tunables.debug_info) {
            Ok(translated) => Ok(translated),
            Err(error) => Err(SetupError::from(error)),
        }
    }

    /// Registers the signatures of this module, and gathers what an instance of it is made of.
    pub fn instantiate(&self, signature_registry: &mut SignatureRegistry) -> (r: PendingInstance)
        requires
            crate::signatures::fits(
                crate::signatures::registry_entries(*old(signature_registry)),
                crate::signatures::module_signatures(self@.module),
            ),
            self@.trampolines_fit(),
        ensures
            crate::signatures::registry_entries(*final(signature_registry)) == self@.entries_after(
                crate::signatures::registry_entries(*old(signature_registry)),
            ),
            self@.is_instance(
                crate::signatures::registry_entries(*final(signature_registry)),
                r@,
            ),
    {
        let signatures = register_signatures(&self.module, signature_registry);
        self.pending(signatures)
    }

    /// Gathers what an instance is made of, where the signatures have these shared indices.
    fn pending(&self, signatures: Vec<VMSharedSignatureIndex>) -> (r: PendingInstance)
        requires
            self@.trampolines.len() <= signatures.len(),
        ensures
            r@ == (PendingInstanceView {
                module: self@.module,
                code: self@.code,
                finished_functions: self@.finished_functions,
                trampolines: crate::signatures::trampoline_map(signatures@, self@.trampolines),
                signatures: signatures@,
            }),
    {
        let trampolines = index_trampolines(&signatures, &self.trampolines.values());
        PendingInstance {
            module: self.module.clone(),
            code: self.code.clone(),
            finished_functions: self.finished_functions.copy(),
            trampolines,
            signatures: SharedSignatures::from_values(signatures),
        }
    }

    /// Does what `instantiate` does, unless the registry runs out of indices or there are more
    /// trampolines than signatures.
    pub fn try_instantiate(&self, signature_registry: &mut SignatureRegistry) -> (r: Option<
        PendingInstance,
    >)
        ensures
            r is Some <==> {
                &&& crate::signatures::fits(
                    crate::signatures::registry_entries(*old(signature_registry)),
                    crate::signatures::module_signatures(self@.module),
                )
                &&& self@.trampolines_fit()
            },
            match r {
                Some(pending) => {
                    &&& crate::signatures::registry_entries(*final(signature_registry))
                        == self@.entries_after(
                        crate::signatures::registry_entries(*old(signature_registry)),
                    )
                    &&& self@.is_instance(
                        crate::signatures::registry_entries(*final(signature_registry)),
                        pending@,
                    )
                },
                None => if self@.trampolines_fit() {
                    crate::signatures::is_partly_registered(
                        crate::signatures::registry_entries(*old(signature_registry)),
                        crate::signatures::registry_entries(*final(signature_registry)),
                        crate::signatures::module_signatures(self@.module),
                    )
                } else {
                    *final(signature_registry) == *old(signature_registry)
                },
            },
    {
        let trampolines = self.trampolines.values();
        if trampolines.len() > signature_count(&self.module) {
            return None;
        }
        match try_register_signatures(&self.module, signature_registry) {
            Some(signatures) => Some(self.pending(signatures)),
            None => None,
        }
    }

    /// Returns data initializers to pass to `InstanceHandle::initialize`
    pub fn data_initializers(&self) -> (r: Vec<DataInitializer<'_>>)
        ensures
            crate::initializer::borrowed_views(r@) == self@.data_initializers,
    {
        lend_initializers(&self.data_initializers)
    }

    /// Return a reference to a module.
    pub fn module(&self) -> (r: &Arc<Module>)
        ensures
            **r == self@.module,
    {
        &self.module
    }

    /// Return a mutable reference to a module, unless the module is shared.
    pub fn module_mut(&mut self) -> (r: Option<&mut Module>)
        ensures
            match r {
                Some(module) => {
                    &&& *module == old(self)@.module
                    &&& final(self)@ == (CompiledModuleView {
                        module: *final(module),
                        ..old(self)@
                    })
                },
                None => *final(self) == *old(self),
            },
    {
        unshared(&mut self.module)
    }

    /// Returns the map of all finished JIT functions compiled for this module
    pub fn finished_functions(&self) -> (r: &FinishedFunctions)
        ensures
            r@ == self@.finished_functions,
    {
        &self.finished_functions
    }

    /// Returns a map of all traps in this module.
    pub fn traps(&self) -> (r: &Traps)
        ensures
            r@ == self@.traps,
    {
        &self.traps
    }

    /// Returns a map of compiled addresses back to original bytecode offsets.
    pub fn address_transform(&self) -> (r: &ModuleAddressMap)
        ensures
            r@ == self@.address_transform,
    {
        &self.address_transform
    }

    /// Returns all ranges covered by JIT code.
    pub fn jit_code_ranges(&self) -> (r: Vec<(usize, usize)>)
        ensures
            r@ == self@.code.published,
    {
        self.code.code_memory.published_ranges()
    }

    /// Returns module's JIT code.
    pub fn code(&self) -> (r: &Arc<ModuleCode>)
        ensures
            r@ == self@.code,
    {
        &self.code
    }
}

/// A compiled module has the data segments and the signatures of the binary it was made of, in
/// order, however its code was compiled.
pub proof fn law_compiled_module_has_the_data_of_the_binary(
    compiler: Compiler,
    data: Seq<u8>,
    translated: TranslatedModule<'_>,
    compilation: Compilation,
    published: Seq<(usize, usize)>,
)
    requires
        is_setup_result(Ok(translated), compiler, data),
    ensures
        ({
            let module = compiled_view(
                crate::frontend::translation_module(translated.translation),
                crate::frontend::translation_initializers(translated.translation),
                compilation,
                published,
            );
            crate::frontend::translation_outcome(compiler.frontend_config, data) == Ok::<
                crate::frontend::TranslationView,
                crate::error::WasmErrorView,
            >(
                crate::frontend::TranslationView {
                    signatures: crate::signatures::module_signatures(module.module),
                    data_initializers: module.data_initializers,
                },
            )
        }),
{
}

/// Where debug information is not asked for, debug sections do not matter: binaries that differ
/// only in what translation does not look at, and that it makes the same of, all pass without debug
/// information, or all fail with the same error.
pub proof fn law_debug_sections_do_not_matter(
    compiler: Compiler,
    first: Seq<u8>,
    second: Seq<u8>,
    first_result: Result<TranslatedModule<'_>, SetupError>,
    second_result: Result<TranslatedModule<'_>, SetupError>,
)
    requires
        !compiler.tunables.debug_info,
        crate::support::are_payloads_alike(
            crate::support::looked_at(crate::payload::binary_payloads(first)),
            crate::support::looked_at(crate::payload::binary_payloads(second)),
        ),
        crate::frontend::translation_outcome(compiler.frontend_config, first)
            == crate::frontend::translation_outcome(compiler.frontend_config, second),
        is_new_result(first_result, compiler, first),
        is_new_result(second_result, compiler, second),
    ensures
        match (first_result, second_result) {
            (Ok(first), Ok(second)) => {
                &&& first.debug_data is None
                &&& second.debug_data is None
                &&& crate::frontend::translation_contents(first.translation)
                    == crate::frontend::translation_contents(second.translation)
            },
            (
                Err(SetupError::Compile(CompileError::Wasm(first))),
                Err(SetupError::Compile(CompileError::Wasm(second))),
            ) => first@ == second@,
            _ => false,
        },
{
    let context = crate::support::ContextView::initial(compiler.tunables.static_memory_bound);
    crate::support::law_idle_payloads_do_not_matter(
        context,
        crate::payload::binary_payloads(first),
    );
    crate::support::law_idle_payloads_do_not_matter(
        context,
        crate::payload::binary_payloads(second),
    );
    crate::support::law_places_do_not_matter(
        context,
        crate::support::looked_at(crate::payload::binary_payloads(first)),
        crate::support::looked_at(crate::payload::binary_payloads(second)),
    );
}

/// All instances of a module are made of the same, also where other modules are registered
/// between one and the next; and the later one leaves the registry as it is.
pub proof fn law_instances_agree(
    module: CompiledModuleView,
    entries: Seq<(cranelift_wasm::WasmFuncType, wasmtime_environ::ir::Signature)>,
    others: Seq<(cranelift_wasm::WasmFuncType, wasmtime_environ::ir::Signature)>,
    first: PendingInstanceView,
    second: PendingInstanceView,
)
    requires
        module.is_instance(module.entries_after(entries), first),
        module.is_instance(
            module.entries_after(
                crate::signatures::register_all(module.entries_after(entries), others),
            ),
            second,
        ),
    ensures
        first == second,
        module.entries_after(
            crate::signatures::register_all(module.entries_after(entries), others),
        ) == crate::signatures::register_all(module.entries_after(entries), others),
{
    let signatures = crate::signatures::module_signatures(module.module);
    let between = crate::signatures::register_all(module.entries_after(entries), others);
    crate::signatures::law_registering_again_changes_nothing(entries, signatures, others);
    crate::signatures::law_indices_outlast_other_modules(
        module.entries_after(entries),
        first.signatures,
        signatures,
        others,
    );
    crate::signatures::law_indices_are_unique(
        between,
        first.signatures,
        second.signatures,
        signatures,
    );
}

/// Modules that are made of one binary for one target share their signatures: an instance of one
/// has the shared indices that an instance of the other has, and leaves the registry as it is,
/// however the two were compiled and whatever was registered in between.
pub proof fn law_modules_of_one_binary_share_signatures(
    compilers: (Compiler, Compiler),
    data: Seq<u8>,
    translated: (TranslatedModule<'_>, TranslatedModule<'_>),
    modules: (CompiledModuleView, CompiledModuleView),
    entries: Seq<(cranelift_wasm::WasmFuncType, wasmtime_environ::ir::Signature)>,
    others: Seq<(cranelift_wasm::WasmFuncType, wasmtime_environ::ir::Signature)>,
    first: PendingInstanceView,
    second: PendingInstanceView,
)
    requires
        compilers.0.frontend_config == compilers.1.frontend_config,
        is_setup_result(Ok(translated.0), compilers.0, data),
        is_setup_result(Ok(translated.1), compilers.1, data),
        modules.0.module == crate::frontend::translation_module(translated.0.translation),
        modules.1.module == crate::frontend::translation_module(translated.1.translation),
        modules.0.is_instance(modules.0.entries_after(entries), first),
        modules.1.is_instance(
            modules.1.entries_after(
                crate::signatures::register_all(modules.0.entries_after(entries), others),
            ),
            second,
        ),
    ensures
        first.signatures == second.signatures,
        modules.1.entries_after(
            crate::signatures::register_all(modules.0.entries_after(entries), others),
        ) == crate::signatures::register_all(modules.0.entries_after(entries), others),
{
    let signatures = crate::signatures::module_signatures(modules.0.module);
    let between = crate::signatures::register_all(modules.0.entries_after(entries), others);
    assert(signatures == crate::signatures::module_signatures(modules.1.module)) by {
        assert(crate::frontend::translation_contents(translated.0.translation)
            == crate::frontend::translation_contents(translated.1.translation));
    }
    crate::signatures::law_registering_again_changes_nothing(entries, signatures, others);
    crate::signatures::law_indices_outlast_other_modules(
        modules.0.entries_after(entries),
        first.signatures,
        signatures,
        others,
    );
    crate::signatures::law_indices_are_unique(
        between,
        first.signatures,
        second.signatures,
        signatures,
    );
}

/// A setup error says of what kind it is, and a validation error all that the validator said.
pub proof fn law_setup_error_is_told(error: SetupError, r: String)
    requires
        call_ensures(SetupError::message, (&error,), r),
    ensures
        match error {
            SetupError::Validate(message) => {
                &&& "Validation error: "@.is_prefix_of(r@)
                &&& r@.skip("Validation error: "@.len() as int) == message@
            },
            SetupError::Compile(_) => r@ == "WebAssembly failed to compile"@,
            SetupError::Instantiate(_) => r@ == "Instantiation failed during setup"@,
            SetupError::DebugInfo(_) => r@ == "Debug information error"@,
        },
{
    if let SetupError::Validate(message) = error {
        assert(r@.skip("Validation error: "@.len() as int) =~= message@);
    }
}

/// Errors of the steps are kept as they are, each under its kind.
pub proof fn law_errors_are_kept(
    compile: CompileError,
    instantiation: InstantiationError,
    debug_info: anyhow::Error,
    frontend: FrontendError,
    results: (SetupError, SetupError, SetupError, SetupError),
)
    requires
        call_ensures(<SetupError as From<CompileError>>::from, (compile,), results.0),
        call_ensures(<SetupError as From<InstantiationError>>::from, (instantiation,), results.1),
        call_ensures(<SetupError as From<anyhow::Error>>::from, (debug_info,), results.2),
        call_ensures(<SetupError as From<FrontendError>>::from, (frontend,), results.3),
    ensures
        results.0 == SetupError::Compile(compile),
        results.1 == SetupError::Instantiate(instantiation),
        results.2 == SetupError::DebugInfo(debug_info),
        frontend matches FrontendError::Wasm(error) ==> results.3 == SetupError::Compile(
            CompileError::Wasm(error),
        ),
        frontend matches FrontendError::DebugInfo(error) ==> results.3 == SetupError::DebugInfo(
            error,
        ),
{
}

/// A binary that is not refused becomes what translation makes of it. Debug information is there
/// exactly if the tunables ask for it, whatever else they say.
pub proof fn law_binary_becomes_its_translation(
    compiler: Compiler,
    data: &[u8],
    checked: Result<(), crate::error::WasmError>,
    typed: bool,
    r: Result<TranslatedModule<'_>, SetupError>,
)
    requires
        call_ensures(
            crate::support::check_binary,
            (compiler.tunables.static_memory_bound, data),
            checked,
        ),
        call_ensures(crate::support::check_function_types, (data,), typed),
        call_ensures(CompiledModule::new, (&compiler, data), r),
    ensures
        r matches Ok(translated) ==> (translated.debug_data is Some
            <==> compiler.tunables.debug_info),
        checked matches Err(reason) ==> {
            &&& r matches Err(SetupError::Compile(CompileError::Wasm(error)))
            &&& error@ == reason@
        },
        checked is Ok ==> match crate::frontend::translation_outcome(
            compiler.frontend_config,
            data@,
        ) {
            Err(reason) => {
                &&& r matches Err(SetupError::Compile(CompileError::Wasm(error)))
                &&& error@ == reason
            },
            Ok(contents) => if compiler.tunables.debug_info && !typed {
                &&& r matches Err(SetupError::Compile(CompileError::Wasm(error)))
                &&& error matches crate::error::WasmError::Unsupported(reason)
                &&& reason@ == "function body without a type"@
            } else if compiler.tunables.debug_info && !crate::frontend::debug_info_readable(data@) {
                r matches Err(SetupError::DebugInfo(_))
            } else {
                &&& r matches Ok(translated)
                &&& translated.debug_data matches Some(found) ==> crate::frontend::is_debug_info_of(
                    found,
                    data@,
                )
                &&& crate::frontend::is_translation_from(
                    compiler.frontend_config,
                    compiler.tunables,
                    data@,
                    translated.translation,
                )
                &&& crate::signatures::module_signatures(
                    crate::frontend::translation_module(translated.translation),
                ) == contents.signatures
                &&& crate::frontend::translation_initializers(translated.translation)
                    == contents.data_initializers
            },
        },
{
}

/// Compiling succeeds exactly if the compiler did, and otherwise fails with the compiler's error.
pub proof fn law_compiler_decides<'data>(
    translated: TranslatedModule<'data>,
    compilation: Result<Compilation, SetupError>,
    r: Result<UnlinkedModule<'data>, SetupError>,
)
    requires
        call_ensures(UnlinkedModule::new, (translated, compilation), r),
    ensures
        r is Ok <==> compilation is Ok,
        r matches Err(error) ==> compilation == Err::<Compilation, SetupError>(error),
        r matches Ok(unlinked) ==> {
            &&& compilation == Ok::<Compilation, SetupError>(unlinked.compilation)
            &&& unlinked.module == crate::frontend::translation_module(translated.translation)
            &&& unlinked.data_initializers.len() == crate::frontend::translation_initializers(
                translated.translation,
            ).len()
            &&& forall|i: int|
                0 <= i < unlinked.data_initializers.len() ==> {
                    let segment = crate::frontend::translation_initializers(
                        translated.translation,
                    )[i];
                    &&& (#[trigger] unlinked.data_initializers[i]).location == segment.location
                    &&& unlinked.data_initializers[i].data@ == segment.data
                }
        },
{
    if let Ok(unlinked) = r {
        let segments = crate::frontend::translation_initializers(translated.translation);
        let views = crate::initializer::borrowed_views(unlinked.data_initializers@);
        assert(views.len() == segments.len());
        assert forall|i: int| 0 <= i < unlinked.data_initializers.len() implies {
            &&& (#[trigger] unlinked.data_initializers[i]).location == segments[i].location
            &&& unlinked.data_initializers[i].data@ == segments[i].data
        } by {
            assert(views[i] == unlinked.data_initializers[i]@);
        }
    }
}

/// A compiled module holds what the compiler made, with a debug image or without: each function has
/// its body, its traps and its address map, each signature its trampoline, and the code the ranges
/// that were made executable. The module and the data segments are those of the translation.
pub proof fn law_compiled_module_holds_the_compilation<'data>(
    translated: TranslatedModule<'data>,
    compilation: Compilation,
    unlinked: UnlinkedModule<'data>,
    linked: LinkedModule<'data>,
    ranges: Vec<(usize, usize)>,
    code_memory: CodeMemory,
    published: PublishedModule,
    compiled: CompiledModule,
)
    requires
        call_ensures(
            UnlinkedModule::new,
            (translated, Ok::<Compilation, SetupError>(compilation)),
            Ok::<UnlinkedModule<'data>, SetupError>(unlinked),
        ),
        call_ensures(UnlinkedModule::linked, (unlinked,), linked),
        call_ensures(CodeMemory::new, (ranges,), code_memory),
        call_ensures(LinkedModule::published, (linked, code_memory), published),
        call_ensures(PublishedModule::profiled, (published,), compiled),
    ensures
        compiled@.module == crate::frontend::translation_module(translated.translation),
        compiled@.data_initializers == crate::frontend::translation_initializers(
            translated.translation,
        ),
        compiled@.finished_functions == compilation.finished_functions@,
        compiled@.trampolines == compilation.trampolines@,
        compiled@.traps == compilation.traps@,
        compiled@.address_transform == compilation.address_transform@,
        compiled@.code.published == ranges@,
        compiled@.code.image is Some <==> compilation.dbg_image is Some,
        compilation.dbg_image matches Some(image) ==> compiled@.code.image == Some(image@),
{
}

/// The profiler is told of the module, the function bodies and the image that the compiler made.
pub proof fn law_profiler_is_told_of_the_compilation<'data>(
    unlinked: UnlinkedModule<'data>,
    linked: LinkedModule<'data>,
    code_memory: CodeMemory,
    published: PublishedModule,
    module: &Module,
    bodies: &Vec<(usize, usize)>,
    image: Option<&[u8]>,
)
    requires
        call_ensures(UnlinkedModule::linked, (unlinked,), linked),
        call_ensures(LinkedModule::published, (linked, code_memory), published),
        call_ensures(PublishedModule::module, (&published,), module),
        call_ensures(PublishedModule::finished_functions, (&published,), bodies),
        call_ensures(PublishedModule::dbg_image, (&published,), image),
    ensures
        *module == unlinked.module,
        bodies@ == unlinked.compilation.finished_functions@,
        image is Some <==> unlinked.compilation.dbg_image is Some,
        image is Some ==> image->0@ == unlinked.compilation.dbg_image->0@,
{
}

/// What a compiled module shows is what the compiler made, function by function and segment by
/// segment, and the ranges that were made executable, in order.
pub proof fn law_compiled_module_shows_the_compilation<'data>(
    unlinked: UnlinkedModule<'data>,
    linked: LinkedModule<'data>,
    ranges: Vec<(usize, usize)>,
    code_memory: CodeMemory,
    published: PublishedModule,
    compiled: CompiledModule,
    module: &Arc<Module>,
    functions: &FinishedFunctions,
    traps: &Traps,
    address_transform: &ModuleAddressMap,
    code_ranges: Vec<(usize, usize)>,
    initializers: Vec<DataInitializer<'_>>,
    code: &Arc<ModuleCode>,
)
    requires
        call_ensures(UnlinkedModule::linked, (unlinked,), linked),
        call_ensures(CodeMemory::new, (ranges,), code_memory),
        call_ensures(LinkedModule::published, (linked, code_memory), published),
        call_ensures(PublishedModule::profiled, (published,), compiled),
        call_ensures(CompiledModule::module, (&compiled,), module),
        call_ensures(CompiledModule::finished_functions, (&compiled,), functions),
        call_ensures(CompiledModule::traps, (&compiled,), traps),
        call_ensures(CompiledModule::address_transform, (&compiled,), address_transform),
        call_ensures(CompiledModule::jit_code_ranges, (&compiled,), code_ranges),
        call_ensures(CompiledModule::data_initializers, (&compiled,), initializers),
        call_ensures(CompiledModule::code, (&compiled,), code),
    ensures
        **module == unlinked.module,
        functions@.len() == unlinked.compilation.finished_functions.len(),
        forall|i: int|
            0 <= i < functions@.len() ==> #[trigger] functions@[i]
                == unlinked.compilation.finished_functions[i],
        traps@.len() == unlinked.compilation.traps@.len(),
        forall|i: int|
            0 <= i < traps@.len() ==> #[trigger] traps@[i] == unlinked.compilation.traps@[i],
        address_transform@.len() == unlinked.compilation.address_transform@.len(),
        forall|i: int|
            0 <= i < address_transform@.len() ==> #[trigger] address_transform@[i]
                == unlinked.compilation.address_transform@[i],
        code_ranges.len() == ranges.len(),
        forall|i: int| 0 <= i < ranges.len() ==> #[trigger] code_ranges[i] == ranges[i],
        code@.published == ranges@,
        code@.image is Some <==> unlinked.compilation.dbg_image is Some,
        code@.image is Some ==> code@.image->0 == unlinked.compilation.dbg_image->0@,
        initializers.len() == unlinked.data_initializers.len(),
        forall|i: int|
            0 <= i < initializers.len() ==> {
                &&& (#[trigger] initializers[i]).location == unlinked.data_initializers[i].location
                &&& initializers[i].data@ == unlinked.data_initializers[i].data@
            },
{
    let lent = crate::initializer::borrowed_views(initializers@);
    let given = crate::initializer::borrowed_views(unlinked.data_initializers@);
    assert(lent == given);
    assert(lent.len() == initializers.len());
    assert(given.len() == unlinked.data_initializers.len());
    assert forall|i: int| 0 <= i < initializers.len() implies {
        &&& (#[trigger] initializers[i]).location == unlinked.data_initializers[i].location
        &&& initializers[i].data@ == unlinked.data_initializers[i].data@
    } by {
        assert(lent[i] == initializers[i]@);
        assert(given[i] == unlinked.data_initializers[i]@);
    }
}

/// The ranges of code memory are those that it was made of, in order.
pub proof fn law_code_memory_keeps_its_ranges(
    ranges: Vec<(usize, usize)>,
    code_memory: CodeMemory,
    r: Vec<(usize, usize)>,
)
    requires
        call_ensures(CodeMemory::new, (ranges,), code_memory),
        call_ensures(CodeMemory::published_ranges, (&code_memory,), r),
    ensures
        r.len() == ranges.len(),
        forall|i: int| 0 <= i < ranges.len() ==> #[trigger] r[i] == ranges[i],
{
}

/// Defined function `i` of an instance has the body of function `i` of the module, however many
/// functions there are; and the instance has the module and the code of what it is an instance of.
pub proof fn law_instance_has_the_functions_of_the_module(
    compiled: &CompiledModule,
    registry: &mut SignatureRegistry,
    pending: PendingInstance,
    functions: &FinishedFunctions,
    module: &Arc<Module>,
    code: &Arc<ModuleCode>,
)
    requires
        call_ensures(CompiledModule::instantiate, (compiled, registry), pending) || call_ensures(
            CompiledModule::try_instantiate,
            (compiled, registry),
            Some(pending),
        ),
        call_ensures(CompiledModule::finished_functions, (compiled,), functions),
        call_ensures(CompiledModule::module, (compiled,), module),
        call_ensures(CompiledModule::code, (compiled,), code),
    ensures
        pending.finished_functions@.len() == compiled@.finished_functions.len(),
        pending.finished_functions@.len() == functions@.len(),
        forall|i: int|
            0 <= i < functions@.len() ==> {
                &&& #[trigger] pending.finished_functions@[i] == compiled@.finished_functions[i]
                &&& pending.finished_functions@[i] == functions@[i]
            },
        *pending.module == compiled@.module,
        *pending.module == **module,
        pending.code@.published == compiled@.code.published,
        pending.code@.image == compiled@.code.image,
        pending.code@ == code@,
{
}

/// Signature `i` of an instance has the index at which its type stands in the registry, and under
/// the index of a signature that has a trampoline the trampoline of the last such signature is
/// found, and nothing under any other index. Nothing in the registry is removed or moved, and what
/// is new there is a signature of the module.
pub proof fn law_instance_has_the_signatures_of_the_module(
    compiled: &CompiledModule,
    registry: &mut SignatureRegistry,
    pending: PendingInstance,
)
    requires
        call_ensures(CompiledModule::instantiate, (compiled, registry), pending) || call_ensures(
            CompiledModule::try_instantiate,
            (compiled, registry),
            Some(pending),
        ),
        compiled@.trampolines.len() <= crate::signatures::module_signatures(
            compiled@.module,
        ).len(),
    ensures
        ({
            let signatures = crate::signatures::module_signatures(compiled@.module);
            let trampolines = compiled@.trampolines;
            let indices = pending.signatures@;
            let before = crate::signatures::registry_entries(*old(registry));
            let after = crate::signatures::registry_entries(*final(registry));
            &&& indices.len() == signatures.len()
            &&& forall|i: int|
                0 <= i < signatures.len() ==> {
                    &&& crate::signatures::index_number(#[trigger] indices[i]) < after.len()
                    &&& after[crate::signatures::index_number(indices[i]) as int].0
                        == signatures[i].0
                }
            &&& forall|i: int, j: int|
                0 <= i < signatures.len() && 0 <= j < signatures.len() ==> (#[trigger] indices[i]
                    == #[trigger] indices[j] <==> signatures[i].0 == signatures[j].0)
            &&& forall|i: int|
                0 <= i < trampolines.len() ==> pending.trampolines@.dom().contains(
                    #[trigger] indices[i],
                )
            &&& forall|i: int|
                0 <= i < trampolines.len() && (forall|j: int|
                    i < j < trampolines.len() ==> #[trigger] indices[j] != indices[i])
                    ==> pending.trampolines@[#[trigger] indices[i]] == trampolines[i]
            &&& forall|key: VMSharedSignatureIndex| #[trigger]
                pending.trampolines@.dom().contains(key) ==> exists|i: int|
                    0 <= i < trampolines.len() && #[trigger] indices[i] == key
            &&& before.len() <= after.len() <= before.len() + signatures.len()
            &&& forall|k: int| 0 <= k < before.len() ==> #[trigger] after[k] == before[k]
            &&& forall|k: int|
                before.len() <= k < after.len() ==> signatures.contains(#[trigger] after[k])
            &&& forall|j: int, k: int|
                0 <= j < k < after.len() && before.len() <= k ==> (#[trigger] after[j]).0 != (
                #[trigger] after[k]).0
        }),
{
    let signatures = crate::signatures::module_signatures(compiled@.module);
    let before = crate::signatures::registry_entries(*old(registry));
    let after = crate::signatures::registry_entries(*final(registry));
    crate::signatures::lemma_indices_in_order(before, signatures, pending.signatures@);
    crate::signatures::lemma_trampolines_by_index(pending.signatures@, compiled@.trampolines);
    assert forall|k: int| before.len() <= k < after.len() implies signatures.contains(
        #[trigger] after[k],
    ) by {
        let i = crate::signatures::lemma_new_entry(before, signatures, pending.signatures@, k);
        assert(signatures[i] == after[k]);
    }
}

/// An instance is made unless there are more trampolines than signatures or not enough indices, and
/// there are enough at least where each signature can have one of its own.
pub proof fn law_instance_is_made_where_there_is_room(
    compiled: &CompiledModule,
    registry: &mut SignatureRegistry,
    r: Option<PendingInstance>,
)
    requires
        call_ensures(CompiledModule::try_instantiate, (compiled, registry), r),
    ensures
        ({
            let signatures = crate::signatures::module_signatures(compiled@.module);
            let before = crate::signatures::registry_entries(*old(registry));
            let after = crate::signatures::registry_entries(*final(registry));
            &&& compiled@.trampolines.len() <= signatures.len() && before.len() + signatures.len()
                <= u32::MAX ==> r is Some
            &&& compiled@.trampolines.len() > signatures.len() ==> r is None && *final(registry)
                == *old(registry)
            &&& r is None && compiled@.trampolines.len() <= signatures.len() ==> after.len()
                >= u32::MAX
            &&& r is Some && signatures.len() > 0 ==> after.len() <= u32::MAX
            &&& before.is_prefix_of(after)
            &&& forall|k: int|
                before.len() <= k < after.len() ==> signatures.contains(#[trigger] after[k])
        }),
{
    let signatures = crate::signatures::module_signatures(compiled@.module);
    let before = crate::signatures::registry_entries(*old(registry));
    let after = crate::signatures::registry_entries(*final(registry));
    crate::signatures::lemma_register_all_appends(before, signatures);
    if r is None && compiled@.trampolines.len() <= signatures.len() {
        crate::signatures::lemma_partly_registered(before, after, signatures);
    }
    if let Some(pending) = r {
        assert forall|k: int| before.len() <= k < after.len() implies signatures.contains(
            #[trigger] after[k],
        ) by {
            let i = crate::signatures::lemma_new_entry(before, signatures, pending.signatures@, k);
            assert(signatures[i] == after[k]);
        }
    }
}

/// What making an instance enters anew in the registry is a signature of the module, with its
/// native signature, and comes after the entries of all signatures before it.
pub proof fn law_instance_enters_signatures_in_order(
    compiled: &CompiledModule,
    registry: &mut SignatureRegistry,
    pending: PendingInstance,
    k: int,
) -> (i: int)
    requires
        call_ensures(CompiledModule::instantiate, (compiled, registry), pending) || call_ensures(
            CompiledModule::try_instantiate,
            (compiled, registry),
            Some(pending),
        ),
        crate::signatures::registry_entries(*old(registry)).len() <= k
            < crate::signatures::registry_entries(*final(registry)).len(),
    ensures
        0 <= i < crate::signatures::module_signatures(compiled@.module).len(),
        crate::signatures::registry_entries(*final(registry))[k]
            == crate::signatures::module_signatures(compiled@.module)[i],
        crate::signatures::index_number(pending.signatures@[i]) == k,
        forall|j: int|
            0 <= j < i ==> crate::signatures::index_number(#[trigger] pending.signatures@[j]) < k,
{
    let signatures = crate::signatures::module_signatures(compiled@.module);
    let before = crate::signatures::registry_entries(*old(registry));
    crate::signatures::lemma_indices_in_order(before, signatures, pending.signatures@);
    crate::signatures::lemma_new_entry(before, signatures, pending.signatures@, k)
}

/// Imports that were resolved are those of the instance, and an error in resolving them is passed
/// on; nothing else of the instance changes.
pub proof fn law_resolver_decides(
    pending: PendingInstance,
    imports: Result<Imports, InstantiationError>,
    r: Result<InstanceParts, InstantiationError>,
)
    requires
        call_ensures(PendingInstance::resolved, (pending, imports), r),
    ensures
        r is Ok <==> imports is Ok,
        r matches Ok(parts) ==> {
            &&& imports == Ok::<Imports, InstantiationError>(parts.imports)
            &&& parts.pending == pending
        },
        r matches Err(error) ==> imports == Err::<Imports, InstantiationError>(error),
{
}

/// What is written to the module of a compiled module is all that changes in it.
pub proof fn law_only_the_module_is_written(
    compiled: &mut CompiledModule,
    r: Option<&mut Module>,
)
    requires
        call_ensures(CompiledModule::module_mut, (compiled,), r),
    ensures
        r matches Some(module) ==> {
            &&& *module == old(compiled)@.module
            &&& final(compiled)@.module == *final(module)
        },
        r is None ==> final(compiled)@.module == old(compiled)@.module,
        final(compiled)@.code == old(compiled)@.code,
        final(compiled)@.finished_functions == old(compiled)@.finished_functions,
        final(compiled)@.trampolines == old(compiled)@.trampolines,
        final(compiled)@.data_initializers == old(compiled)@.data_initializers,
        final(compiled)@.traps == old(compiled)@.traps,
        final(compiled)@.address_transform == old(compiled)@.address_transform,
{
}

/// Every data buffer can be handed in, whatever it holds. An instance can be made where each
/// signature can have an index of its own and there are no more trampolines than signatures;
/// whether it can is not asked when trying.
pub proof fn law_setting_up_is_possible(
    compiler: Compiler,
    data: &[u8],
    compiled: &CompiledModule,
    registry: &mut SignatureRegistry,
)
    ensures
        call_requires(CompiledModule::new, (&compiler, data)),
        call_requires(CompiledModule::try_instantiate, (compiled, registry)),
        compiled@.trampolines.len() <= crate::signatures::module_signatures(compiled@.module).len()
            && crate::signatures::registry_entries(*old(registry)).len()
            + crate::signatures::module_signatures(compiled@.module).len() <= u32::MAX
            ==> call_requires(CompiledModule::instantiate, (compiled, registry)),
{
    crate::signatures::lemma_register_all_appends(
        crate::signatures::registry_entries(*old(registry)),
        crate::signatures::module_signatures(compiled@.module),
    );
}

} // verus!
