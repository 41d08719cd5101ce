//! Compiling, linking and instantiating a module where the imports are resolved when the module is
//! compiled, so that a compiled module can be instantiated at once.
//!
//! `RawCompiledModule::new` translates a binary. The driver then compiles the translation, links
//! the code and publishes it, in this order, and reports each step: the stages `AllocatedModule`
//! and `LinkedModule` lead to a `RawCompiledModule`. That one is instantiated directly, or becomes
//! a `CompiledModule`, which can be instantiated any number of times.

use crate::entity::{FunctionEntries, SharedSignatures};
use crate::error::{prefixed, CompileError, InstantiationError, LinkError};
use crate::frontend::{
    split_translation, translate_module, Compiler, FrontendError, TranslatedModule,
};
use crate::image::register_image;
use crate::initializer::{
    lend_initializers, own_initializers, DataInitializer, InitializerView, OwnedDataInitializer,
};
use crate::signatures::{register_signatures, try_register_signatures};
use std::fmt::Write;
use std::rc::Rc;
use vstd::prelude::*;
use wasmtime_environ::Module;
use wasmtime_runtime::{
    GdbJitImageRegistration, Imports, SignatureRegistry, VMSharedSignatureIndex,
};

verus! {

/// `wasmtime_runtime::Imports::clone`, which copies the resolved pointers.
pub assume_specification[ <Imports as Clone>::clone ](imports: &Imports) -> (r: Imports)
    ensures
        r == *imports,
;

/// An error condition while setting up a wasm instance, be it validation, compilation, or
/// instantiation.
#[derive(Debug)]
pub enum SetupError {
    /// The module did not pass validation.
    Validate(String),
    /// A wasm translation error occurred.
    Compile(CompileError),
    /// Some runtime resource was unavailable or insufficient, or the start function trapped.
    Instantiate(InstantiationError),
    /// Debug information generation error occurred.
    DebugInfo(anyhow::Error),
}

/// Formats an `anyhow::Error` with `std::fmt::Write::write_fmt`, which calls the `Display` of the
/// error that it wraps. Nothing is said of the text, nor of whether formatting succeeds: both are
/// up to that error.
#[verifier::external_body]
fn format_error(error: &anyhow::Error) -> (r: Option<String>) {
    let mut text = String::new();
    match write!(text, "{}", error) {
        Ok(()) => Some(text),
        Err(_) => None,
    }
}

/// The message of a debug information error, from its formatted text where there is one.
pub fn debug_info_message(text: Option<String>) -> (r: String)
    ensures
        r@ == "Debug information error: "@ + (match text {
            Some(text) => text@,
            None => Seq::empty(),
        }),
{
    match text {
        Some(text) => prefixed("Debug information error: ", text.as_str()),
        None => {
            let r = "Debug information error: ".to_owned();
            assert(r@ =~= "Debug information error: "@ + Seq::<char>::empty());
            r
        },
    }
}

impl SetupError {
    /// Whether `message` may return this text. The text of debug information errors ends with what
    /// the error says of itself.
    pub open spec fn is_text(self, text: Seq<char>) -> bool {
        match self {
            SetupError::Validate(message) => text == "Validation error: "@ + message@,
            SetupError::Compile(error) => text == "WebAssembly compilation error: "@ + error.text(),
            SetupError::Instantiate(error) => text == "Instantiation error: "@ + error.text(),
            SetupError::DebugInfo(_) => "Debug information error: "@.is_prefix_of(text),
        }
    }

    /// What went wrong, in words.
    pub fn message(&self) -> (r: String)
        ensures
            self.is_text(r@),
    {
        match self {
            SetupError::Validate(message) => prefixed("Validation error: ", message.as_str()),
            SetupError::Compile(error) => prefixed(
                "WebAssembly compilation error: ",
                error.message().as_str(),
            ),
            SetupError::Instantiate(error) => prefixed(
                "Instantiation error: ",
                error.message().as_str(),
            ),
            SetupError::DebugInfo(error) => debug_info_message(format_error(error)),
        }
    }
}

impl From<FrontendError> for SetupError {
    fn from(error: FrontendError) -> (r: Self) {
        match error {
            FrontendError::Wasm(error) => SetupError::Compile(CompileError::Wasm(error)),
            FrontendError::DebugInfo(error) => SetupError::DebugInfo(error),
        }
    }
}

impl vstd::std_specs::convert::FromSpecImpl<FrontendError> for SetupError {
    open spec fn obeys_from_spec() -> bool {
        true
    }

    open spec fn from_spec(error: FrontendError) -> Self {
        match error {
            FrontendError::Wasm(error) => SetupError::Compile(CompileError::Wasm(error)),
            FrontendError::DebugInfo(error) => SetupError::DebugInfo(error),
        }
    }
}

/// What the compiler makes of a translation.
pub struct Allocation {
    /// The address and length of the body of each defined function.
    pub allocated_functions: Vec<(usize, usize)>,
    /// The image for the debugger, where one was made.
    pub dbg_image: Option<Vec<u8>>,
}

/// A module that has been compiled but not linked: next, the driver links it.
pub struct AllocatedModule<'data> {
    /// The module.
    pub module: Module,
    /// The data initializers, which refer to the binary.
    pub data_initializers: Vec<DataInitializer<'data>>,
    /// What the compiler made of the module.
    pub allocation: Allocation,
}

/// A module that has been linked, with its functions gathered and its signatures registered: next,
/// the driver makes its code executable.
pub struct LinkedModule<'data> {
    module: Module,
    finished_functions: FunctionEntries,
    imports: Imports,
    data_initializers: Vec<DataInitializer<'data>>,
    signatures: SharedSignatures,
    dbg_image: Option<Vec<u8>>,
}

/// This is similar to `CompiledModule`, but references the data initializers from the wasm buffer
/// rather than holding its own copy.
pub struct RawCompiledModule<'data> {
    module: Module,
    finished_functions: FunctionEntries,
    imports: Imports,
    data_initializers: Vec<DataInitializer<'data>>,
    signatures: SharedSignatures,
    dbg_jit_registration: Option<GdbJitImageRegistration>,
}

/// A compiled wasm module, ready to be instantiated.
pub struct CompiledModule {
    module: Rc<Module>,
    finished_functions: FunctionEntries,
    imports: Imports,
    data_initializers: Vec<OwnedDataInitializer>,
    signatures: SharedSignatures,
    dbg_jit_registration: Option<Rc<GdbJitImageRegistration>>,
}

/// What an instance is made of.
pub struct InstanceRequest<'a> {
    /// The module.
    pub module: Rc<Module>,
    /// The addresses of the defined functions.
    pub finished_functions: FunctionEntries,
    /// The resolved imports.
    pub imports: Imports,
    /// The initializers of the linear memories.
    pub data_initializers: Vec<DataInitializer<'a>>,
    /// The shared indices of the signatures.
    pub signatures: SharedSignatures,
    /// The image that the debugger knows of, where there is one.
    pub dbg_jit_registration: Option<Rc<GdbJitImageRegistration>>,
}

/// What a module is made of once it is linked, and what an instance of it is made of.
pub struct ModuleView {
    pub module: Module,
    pub finished_functions: Seq<usize>,
    pub imports: Imports,
    pub data_initializers: Seq<InitializerView>,
    pub signatures: Seq<VMSharedSignatureIndex>,
    pub image: Option<Seq<u8>>,
}

/// The image of a shared registration, where there is one.
pub open spec fn shared_image_of(registration: Option<Rc<GdbJitImageRegistration>>) -> Option<
    Seq<u8>,
> {
    match registration {
        Some(registration) => Some(crate::image::registered_image(*registration)),
        None => None,
    }
}

impl<'data> View for LinkedModule<'data> {
    type V = ModuleView;

    closed spec fn view(&self) -> ModuleView {
        ModuleView {
            module: self.module,
            finished_functions: self.finished_functions@,
            imports: self.imports,
            data_initializers: crate::initializer::borrowed_views(self.data_initializers@),
            signatures: self.signatures@,
            image: crate::image::image_bytes(self.dbg_image),
        }
    }
}

impl<'data> View for RawCompiledModule<'data> {
    type V = ModuleView;

    closed spec fn view(&self) -> ModuleView {
        ModuleView {
            module: self.module,
            finished_functions: self.finished_functions@,
            imports: self.imports,
            data_initializers: crate::initializer::borrowed_views(self.data_initializers@),
            signatures: self.signatures@,
            image: crate::image::image_of(self.dbg_jit_registration),
        }
    }
}

impl View for CompiledModule {
    type V = ModuleView;

    closed spec fn view(&self) -> ModuleView {
        ModuleView {
            module: *self.module,
            finished_functions: self.finished_functions@,
            imports: self.imports,
            data_initializers: crate::initializer::owned_views(self.data_initializers@),
            signatures: self.signatures@,
            image: shared_image_of(self.dbg_jit_registration),
        }
    }
}

impl<'a> View for InstanceRequest<'a> {
    type V = ModuleView;

    open spec fn view(&self) -> ModuleView {
        ModuleView {
            module: *self.module,
            finished_functions: self.finished_functions@,
            imports: self.imports,
            data_initializers: crate::initializer::borrowed_views(self.data_initializers@),
            signatures: self.signatures@,
            image: shared_image_of(self.dbg_jit_registration),
        }
    }
}

/// The start addresses of function bodies.
pub open spec fn body_starts(bodies: Seq<(usize, usize)>) -> Seq<usize> {
    bodies.map_values(|body: (usize, usize)| body.0)
}

/// Gathers the start addresses of the function bodies, in order.
fn gather_starts(bodies: &Vec<(usize, usize)>) -> (r: Vec<usize>)
    ensures
        r@ == body_starts(bodies@),
{
    let mut starts: Vec<usize> = Vec::new();
    for i in 0..bodies.len()
        invariant
            starts.len() == i,
            forall|j: int| 0 <= j < i ==> #[trigger] starts@[j] == bodies@[j].0,
    {
        starts.push(bodies[i].0);
    }
    assert(starts@ =~= body_starts(bodies@));
    starts
}

/// Whether this is what becomes of a binary that can be translated: its translation, with debug
/// information exactly if that is asked for, or the first error.
pub open spec fn is_setup_result(
    result: Result<TranslatedModule<'_>, SetupError>,
    compiler: Compiler,
    data: Seq<u8>,
    debug_info: bool,
) -> bool {
    match result {
        Ok(translated) => crate::frontend::is_frontend_result(
            Ok(translated),
            compiler,
            data,
            debug_info,
        ),
        Err(SetupError::Compile(CompileError::Wasm(error))) => crate::frontend::is_frontend_result(
            Err(FrontendError::Wasm(error)),
            compiler,
            data,
            debug_info,
        ),
        Err(SetupError::DebugInfo(error)) => crate::frontend::is_frontend_result(
            Err(FrontendError::DebugInfo(error)),
            compiler,
            data,
            debug_info,
        ),
        Err(_) => false,
    }
}

impl<'data> AllocatedModule<'data> {
    /// Takes the outcome of compiling a translated module. A failure to compile is passed on.
    pub fn new(
        translated: TranslatedModule<'data>,
        allocation: Result<Allocation, SetupError>,
    ) -> (r: Result<Self, SetupError>)
        ensures
            match allocation {
                Ok(allocation) => {
                    &&& r matches Ok(allocated)
                    &&& allocated.module == crate::frontend::translation_module(
                        translated.translation,
                    )
                    &&& crate::initializer::borrowed_views(allocated.data_initializers@)
                        == crate::frontend::translation_initializers(translated.translation)
                    &&& allocated.allocation == allocation
                },
                Err(error) => r == Err::<Self, SetupError>(error),
            },
    {
        match allocation {
            Ok(allocation) => {
                let (module, data_initializers) = split_translation(translated.translation);
                Ok(AllocatedModule { module, data_initializers, allocation })
            },
            Err(error) => Err(error),
        }
    }

    /// Whether `linked` is this module with its imports, and with the shared indices of its
    /// signatures in a registry with these entries.
    pub open spec fn is_linked(
        self,
        imports: Imports,
        entries: Seq<(cranelift_wasm::WasmFuncType, wasmtime_environ::ir::Signature)>,
        linked: ModuleView,
    ) -> bool {
        &&& linked.module == self.module
        &&& linked.finished_functions == body_starts(self.allocation.allocated_functions@)
        &&& linked.imports == imports
        &&& linked.data_initializers == crate::initializer::borrowed_views(self.data_initializers@)
        &&& crate::signatures::are_indices_of(
            entries,
            linked.signatures,
            crate::signatures::module_signatures(self.module),
        )
        &&& linked.image == crate::image::image_bytes(self.allocation.dbg_image)
    }

    /// Takes the outcome of linking. Where it succeeded, gathers the addresses of the functions
    /// and registers the signatures; where it failed, registers nothing.
    pub fn linked(
        self,
        imports: Result<Imports, LinkError>,
        signature_registry: &mut SignatureRegistry,
    ) -> (r: Result<LinkedModule<'data>, SetupError>)
        requires
            imports is Ok ==> crate::signatures::fits(
                crate::signatures::registry_entries(*old(signature_registry)),
                crate::signatures::module_signatures(self.module),
            ),
        ensures
            match imports {
                Ok(imports) => {
                    &&& r matches Ok(linked)
                    &&& crate::signatures::registry_entries(*final(signature_registry))
                        == crate::signatures::register_all(
                        crate::signatures::registry_entries(*old(signature_registry)),
                        crate::signatures::module_signatures(self.module),
                    )
                    &&& self.is_linked(
                        imports,
                        crate::signatures::registry_entries(*final(signature_registry)),
                        linked@,
                    )
                },
                Err(error) => {
                    &&& r == Err::<LinkedModule<'data>, SetupError>(
                        SetupError::Instantiate(InstantiationError::Link(error)),
                    )
                    &&& *final(signature_registry) == *old(signature_registry)
                },
            },
    {
        match imports {
            Ok(imports) => {
                let signatures = register_signatures(&self.module, signature_registry);
                Ok(self.with_signatures(imports, signatures))
            },
            Err(error) => Err(SetupError::Instantiate(InstantiationError::Link(error))),
        }
    }

    /// Does what `linked` does, unless linking succeeded and the registry runs out of indices.
    pub fn try_linked(
        self,
        imports: Result<Imports, LinkError>,
        signature_registry: &mut SignatureRegistry,
    ) -> (r: Option<Result<LinkedModule<'data>, SetupError>>)
        ensures
            r is None <==> {
                &&& imports is Ok
                &&& !crate::signatures::fits(
                    crate::signatures::registry_entries(*old(signature_registry)),
                    crate::signatures::module_signatures(self.module),
                )
            },
            match (r, imports) {
                (None, _) => crate::signatures::is_partly_registered(
                    crate::signatures::registry_entries(*old(signature_registry)),
                    crate::signatures::registry_entries(*final(signature_registry)),
                    crate::signatures::module_signatures(self.module),
                ),
                (Some(result), Ok(imports)) => {
                    &&& result matches Ok(linked)
                    &&& crate::signatures::registry_entries(*final(signature_registry))
                        == crate::signatures::register_all(
                        crate::signatures::registry_entries(*old(signature_registry)),
                        crate::signatures::module_signatures(self.module),
                    )
                    &&& self.is_linked(
                        imports,
                        crate::signatures::registry_entries(*final(signature_registry)),
                        linked@,
                    )
                },
                (Some(result), Err(error)) => {
                    &&& result == Err::<LinkedModule<'data>, SetupError>(
                        SetupError::Instantiate(InstantiationError::Link(error)),
                    )
                    &&& *final(signature_registry) == *old(signature_registry)
                },
            },
    {
        match imports {
            Ok(imports) => match try_register_signatures(&self.module, signature_registry) {
                Some(signatures) => Some(Ok(self.with_signatures(imports, signatures))),
                None => None,
            },
            Err(error) => Some(Err(SetupError::Instantiate(InstantiationError::Link(error)))),
        }
    }

    /// Gathers the addresses of the functions, where the signatures have these shared indices.
    fn with_signatures(
        self,
        imports: Imports,
        signatures: Vec<VMSharedSignatureIndex>,
    ) -> (r: LinkedModule<'data>)
        ensures
            r@.module == self.module,
            r@.finished_functions == body_starts(self.allocation.allocated_functions@),
            r@.imports == imports,
            r@.data_initializers == crate::initializer::borrowed_views(self.data_initializers@),
            r@.signatures == signatures@,
            r@.image == crate::image::image_bytes(self.allocation.dbg_image),
    {
        let finished_functions = FunctionEntries::from_values(
            gather_starts(&self.allocation.allocated_functions),
        );
        LinkedModule {
            module: self.module,
            finished_functions,
            imports,
            data_initializers: self.data_initializers,
            signatures: SharedSignatures::from_values(signatures),
            dbg_image: self.allocation.dbg_image,
        }
    }
}

impl<'data> LinkedModule<'data> {
    /// Takes note that the code has been made executable, and registers the image with the
    /// debugger.
    pub fn published(self) -> (r: RawCompiledModule<'data>)
        ensures
            r@ == self@,
    {
        RawCompiledModule {
            module: self.module,
            finished_functions: self.finished_functions,
            imports: self.imports,
            data_initializers: self.data_initializers,
            signatures: self.signatures,
            dbg_jit_registration: register_image(self.dbg_image),
        }
    }
}

impl<'data> RawCompiledModule<'data> {
    /// Translates the wasm module in `data`: next, the driver compiles the translation. A data
    /// buffer that holds no module that can be translated is refused.
    pub fn new(compiler: &Compiler, data: &'data [u8], debug_info: bool) -> (r: Result<
        TranslatedModule<'data>,
        SetupError,
    >)
        ensures
            match crate::support::refusal(compiler.tunables.static_memory_bound, data@) {
                None => is_setup_result(r, *compiler, data@, debug_info),
                Some(reason) => {
                    &&& r matches Err(SetupError::Compile(CompileError::Wasm(error)))
                    &&& error@ == reason
                },
            },
    {
        match translate_module(compiler, data, debug_info) {
            Ok(translated) => Ok(translated),
            Err(error) => Err(SetupError::from(error)),
        }
    }
}

impl CompiledModule {
    /// Turns what setting up a module came to into a `CompiledModule`, which may then be
    /// instantiated.
    pub fn new(raw: Result<RawCompiledModule<'_>, SetupError>) -> (r: Result<Self, SetupError>)
        ensures
            match raw {
                Ok(raw) => r matches Ok(compiled) && compiled@ == raw@,
                Err(error) => r == Err::<Self, SetupError>(error),
            },
    {
        match raw {
            Ok(raw) => {
                let data_initializers = own_initializers(&raw.data_initializers);
                Ok(
                    Self::from_parts(
                        raw.module,
                        raw.finished_functions,
                        raw.imports,
                        data_initializers,
                        raw.signatures.copy(),
                        raw.dbg_jit_registration,
                    ),
                )
            },
            Err(error) => Err(error),
        }
    }

    /// Construct a `CompiledModule` from component parts.
    pub fn from_parts(
        module: Module,
        finished_functions: FunctionEntries,
        imports: Imports,
        data_initializers: Vec<OwnedDataInitializer>,
        signatures: SharedSignatures,
        dbg_jit_registration: Option<GdbJitImageRegistration>,
    ) -> (r: Self)
        ensures
            r@ == (ModuleView {
                module,
                finished_functions: finished_functions@,
                imports,
                data_initializers: crate::initializer::owned_views(data_initializers@),
                signatures: signatures@,
                image: crate::image::image_of(dbg_jit_registration),
            }),
    {
        CompiledModule {
            module: Rc::new(module),
            finished_functions,
            imports,
            data_initializers,
            signatures,
            dbg_jit_registration: match dbg_jit_registration {
                Some(registration) => Some(Rc::new(registration)),
                None => None,
            },
        }
    }

    /// Gathers what an instance of this `CompiledModule` is made of.
    ///
    /// Note that if only one instance of this module is needed, it may be more efficient to call
    /// the top-level `instantiate`, since that avoids copying the data initializers.
    pub fn instantiate(&self) -> (r: InstanceRequest<'_>)
        ensures
            r@ == self@,
    {
        InstanceRequest {
            module: self.module.clone(),
            finished_functions: self.finished_functions.copy(),
            imports: self.imports.clone(),
            data_initializers: lend_initializers(&self.data_initializers),
            signatures: self.signatures.copy(),
            dbg_jit_registration: match &self.dbg_jit_registration {
                Some(registration) => Some(registration.clone()),
                None => None,
            },
        }
    }
}

/// Gathers what a new wasm instance is made of, from what setting up its module came to.
///
/// This is equivalent to creating a `CompiledModule` and calling `instantiate()` on it, but avoids
/// creating an intermediate copy of the data initializers.
pub fn instantiate<'data>(raw: Result<RawCompiledModule<'data>, SetupError>) -> (r: Result<
    InstanceRequest<'data>,
    SetupError,
>)
    ensures
        match raw {
            Ok(raw) => r matches Ok(request) && request@ == raw@,
            Err(error) => r == Err::<InstanceRequest<'data>, SetupError>(error),
        },
{
    match raw {
        Ok(raw) => Ok(
            InstanceRequest {
                module: Rc::new(raw.module),
                finished_functions: raw.finished_functions,
                imports: raw.imports,
                data_initializers: raw.data_initializers,
                signatures: raw.signatures,
                dbg_jit_registration: match raw.dbg_jit_registration {
                    Some(registration) => Some(Rc::new(registration)),
                    None => None,
                },
            },
        ),
        Err(error) => Err(error),
    }
}

/// Takes the outcome of making the instance.
pub fn instantiated<H>(handle: Result<H, InstantiationError>) -> (r: Result<H, SetupError>)
    ensures
        match handle {
            Ok(handle) => r == Ok::<H, SetupError>(handle),
            Err(error) => r == Err::<H, SetupError>(SetupError::Instantiate(error)),
        },
{
    match handle {
        Ok(handle) => Ok(handle),
        Err(error) => Err(SetupError::Instantiate(error)),
    }
}

/// An instance made directly is made of the same as one made by way of a `CompiledModule`: where
/// `CompiledModule::new` turned `raw` into `compiled`, its `instantiate` gave `request`, and
/// `instantiate` gave `direct`, the two requests agree.
pub proof fn law_direct_instance_is_that_of_compiled_module(
    raw: RawCompiledModule<'_>,
    compiled: CompiledModule,
    request: InstanceRequest<'_>,
    direct: InstanceRequest<'_>,
)
    requires
        compiled@ == raw@,
        request@ == compiled@,
        direct@ == raw@,
    ensures
        request@ == direct@,
{
}

/// A linked module, and with it an instance of it made either way, has the data segments and the
/// signatures of the binary.
pub proof fn law_instance_has_the_data_of_the_binary(
    compiler: Compiler,
    data: Seq<u8>,
    debug_info: bool,
    translated: TranslatedModule<'_>,
    allocated: AllocatedModule<'_>,
    imports: Imports,
    entries: Seq<(cranelift_wasm::WasmFuncType, wasmtime_environ::ir::Signature)>,
    raw: ModuleView,
)
    requires
        is_setup_result(Ok(translated), compiler, data, debug_info),
        allocated.module == crate::frontend::translation_module(translated.translation),
        crate::initializer::borrowed_views(allocated.data_initializers@)
            == crate::frontend::translation_initializers(translated.translation),
        allocated.is_linked(imports, entries, raw),
    ensures
        crate::frontend::translation_outcome(compiler.frontend_config, data) == Ok::<
            crate::frontend::TranslationView,
            crate::error::WasmErrorView,
        >(
            crate::frontend::TranslationView {
                signatures: crate::signatures::module_signatures(raw.module),
                data_initializers: raw.data_initializers,
            },
        ),
{
}

/// A setup error says of what kind it is, and then all that is known of it.
pub proof fn law_setup_error_is_told_in_full(error: SetupError, r: String)
    requires
        call_ensures(SetupError::message, (&error,), r),
    ensures
        match error {
            SetupError::Validate(message) => r@ == "Validation error: "@ + message@,
            SetupError::Compile(error) => {
                &&& "WebAssembly compilation error: "@.is_prefix_of(r@)
                &&& forall|inner: String| #[trigger]
                    call_ensures(CompileError::message, (&error,), inner) ==> r@.skip(
                        "WebAssembly compilation error: "@.len() as int,
                    ) == inner@
            },
            SetupError::Instantiate(error) => {
                &&& "Instantiation error: "@.is_prefix_of(r@)
                &&& forall|inner: String| #[trigger]
                    call_ensures(InstantiationError::message, (&error,), inner) ==> r@.skip(
                        "Instantiation error: "@.len() as int,
                    ) == inner@
            },
            SetupError::DebugInfo(_) => "Debug information error: "@.is_prefix_of(r@),
        },
{
    match error {
        SetupError::Compile(error) => {
            assert(r@.skip("WebAssembly compilation error: "@.len() as int) =~= error.text());
        },
        SetupError::Instantiate(error) => {
            assert(r@.skip("Instantiation error: "@.len() as int) =~= error.text());
        },
        _ => {},
    }
}

/// The message of a debug information error is its text after a prefix, or the prefix alone.
pub proof fn law_debug_info_message_is_told_in_full(text: Option<String>, r: String)
    requires
        call_ensures(debug_info_message, (text,), r),
    ensures
        "Debug information error: "@.is_prefix_of(r@),
        text matches Some(text) ==> r@.skip("Debug information error: "@.len() as int) == text@,
        text is None ==> r@ == "Debug information error: "@,
{
    match text {
        Some(text) => {
            assert(r@.skip("Debug information error: "@.len() as int) =~= text@);
        },
        None => {
            assert(r@ =~= "Debug information error: "@);
        },
    }
}

/// Errors before compilation are kept as they are, each under its kind.
pub proof fn law_errors_are_kept(error: FrontendError, r: SetupError)
    requires
        call_ensures(<SetupError as From<FrontendError>>::from, (error,), r),
    ensures
        error matches FrontendError::Wasm(reason) ==> r == SetupError::Compile(
            CompileError::Wasm(reason),
        ),
        error matches FrontendError::DebugInfo(reason) ==> r == SetupError::DebugInfo(reason),
{
}

/// A binary that is not refused becomes what translation makes of it. Debug information is there
/// exactly if the flag asks for it, whatever the tunables say.
pub proof fn law_binary_becomes_its_translation(
    compiler: Compiler,
    data: &[u8],
    debug_info: bool,
    checked: Result<(), crate::error::WasmError>,
    typed: bool,
    r: Result<TranslatedModule<'_>, SetupError>,
)
    requires
        call_ensures(
            crate::support::check_binary,
            (compiler.tunables.static_memory_bound, data),
            checked,
        ),
        call_ensures(crate::support::check_function_types, (data,), typed),
        call_ensures(RawCompiledModule::new, (&compiler, data, debug_info), r),
    ensures
        r matches Ok(translated) ==> (translated.debug_data is Some <==> debug_info),
        checked matches Err(reason) ==> {
            &&& r matches Err(SetupError::Compile(CompileError::Wasm(error)))
            &&& error@ == reason@
        },
        checked is Ok ==> match crate::frontend::translation_outcome(
            compiler.frontend_config,
            data@,
        ) {
            Err(reason) => {
                &&& r matches Err(SetupError::Compile(CompileError::Wasm(error)))
                &&& error@ == reason
            },
            Ok(contents) => if debug_info && !typed {
                &&& r matches Err(SetupError::Compile(CompileError::Wasm(error)))
                &&& error matches crate::error::WasmError::Unsupported(reason)
                &&& reason@ == "function body without a type"@
            } else if debug_info && !crate::frontend::debug_info_readable(data@) {
                r matches Err(SetupError::DebugInfo(_))
            } else {
                &&& r matches Ok(translated)
                &&& translated.debug_data matches Some(found) ==> crate::frontend::is_debug_info_of(
                    found,
                    data@,
                )
                &&& crate::frontend::is_translation_from(
                    compiler.frontend_config,
                    compiler.tunables,
                    data@,
                    translated.translation,
                )
                &&& crate::signatures::module_signatures(
                    crate::frontend::translation_module(translated.translation),
                ) == contents.signatures
                &&& crate::frontend::translation_initializers(translated.translation)
                    == contents.data_initializers
            },
        },
{
}

/// Compiling succeeds exactly if the compiler did, and otherwise fails with the compiler's error.
pub proof fn law_compiler_decides<'data>(
    translated: TranslatedModule<'data>,
    allocation: Result<Allocation, SetupError>,
    r: Result<AllocatedModule<'data>, SetupError>,
)
    requires
        call_ensures(AllocatedModule::new, (translated, allocation), r),
    ensures
        r is Ok <==> allocation is Ok,
        r matches Err(error) ==> allocation == Err::<Allocation, SetupError>(error),
        r matches Ok(allocated) ==> {
            &&& allocation == Ok::<Allocation, SetupError>(allocated.allocation)
            &&& allocated.module == crate::frontend::translation_module(translated.translation)
            &&& allocated.data_initializers.len() == crate::frontend::translation_initializers(
                translated.translation,
            ).len()
            &&& forall|i: int|
                0 <= i < allocated.data_initializers.len() ==> {
                    let segment = crate::frontend::translation_initializers(
                        translated.translation,
                    )[i];
                    &&& (#[trigger] allocated.data_initializers[i]).location == segment.location
                    &&& allocated.data_initializers[i].data@ == segment.data
                }
        },
{
    if let Ok(allocated) = r {
        let segments = crate::frontend::translation_initializers(translated.translation);
        let views = crate::initializer::borrowed_views(allocated.data_initializers@);
        assert(views.len() == segments.len());
        assert forall|i: int| 0 <= i < allocated.data_initializers.len() implies {
            &&& (#[trigger] allocated.data_initializers[i]).location == segments[i].location
            &&& allocated.data_initializers[i].data@ == segments[i].data
        } by {
            assert(views[i] == allocated.data_initializers[i]@);
        }
    }
}

/// Linking succeeds exactly if the imports were resolved; otherwise the link error is passed on and
/// the registry stays as it is.
pub proof fn law_linker_decides<'data>(
    allocated: AllocatedModule<'data>,
    imports: Result<Imports, LinkError>,
    registry: &mut SignatureRegistry,
    r: Result<LinkedModule<'data>, SetupError>,
)
    requires
        call_ensures(AllocatedModule::linked, (allocated, imports, registry), r) || call_ensures(
            AllocatedModule::try_linked,
            (allocated, imports, registry),
            Some(r),
        ),
    ensures
        r is Ok <==> imports is Ok,
        imports matches Err(error) ==> {
            &&& r == Err::<LinkedModule<'data>, SetupError>(
                SetupError::Instantiate(InstantiationError::Link(error)),
            )
            &&& *final(registry) == *old(registry)
        },
{
}

/// A linked module has as many functions as were allocated, and each starts where the compiler put
/// it, however long it is. All else in it is that of the compiled module and the resolved imports.
pub proof fn law_linked_functions_start_where_they_were_put<'data>(
    allocated: AllocatedModule<'data>,
    imports: Imports,
    registry: &mut SignatureRegistry,
    linked: LinkedModule<'data>,
)
    requires
        call_ensures(
            AllocatedModule::linked,
            (allocated, Ok::<Imports, LinkError>(imports), registry),
            Ok::<LinkedModule<'data>, SetupError>(linked),
        ) || call_ensures(
            AllocatedModule::try_linked,
            (allocated, Ok::<Imports, LinkError>(imports), registry),
            Some(Ok::<LinkedModule<'data>, SetupError>(linked)),
        ),
    ensures
        linked@.finished_functions.len() == allocated.allocation.allocated_functions.len(),
        forall|i: int|
            0 <= i < linked@.finished_functions.len() ==> #[trigger] linked@.finished_functions[i]
                == allocated.allocation.allocated_functions[i].0,
        linked@.module == allocated.module,
        linked@.imports == imports,
        linked@.image is Some <==> allocated.allocation.dbg_image is Some,
        linked@.image is Some ==> linked@.image->0 == allocated.allocation.dbg_image->0@,
        linked@.data_initializers.len() == allocated.data_initializers.len(),
        forall|i: int|
            0 <= i < linked@.data_initializers.len() ==> {
                &&& (#[trigger] linked@.data_initializers[i]).location
                    == allocated.data_initializers[i].location
                &&& linked@.data_initializers[i].data == allocated.data_initializers[i].data@
            },
{
    let bodies = allocated.allocation.allocated_functions@;
    let views = crate::initializer::borrowed_views(allocated.data_initializers@);
    assert(linked@.finished_functions == body_starts(bodies));
    assert forall|i: int| 0 <= i < linked@.data_initializers.len() implies {
        &&& (#[trigger] linked@.data_initializers[i]).location
            == allocated.data_initializers[i].location
        &&& linked@.data_initializers[i].data == allocated.data_initializers[i].data@
    } by {
        assert(views[i] == allocated.data_initializers[i]@);
    }
}

/// Signature `i` of a linked module has the index at which its type stands in the registry. Nothing
/// in the registry is removed or moved, and what is new there is a signature of the module of a
/// type that no earlier entry has.
pub proof fn law_linked_module_has_registered_signatures<'data>(
    allocated: AllocatedModule<'data>,
    imports: Imports,
    registry: &mut SignatureRegistry,
    linked: LinkedModule<'data>,
)
    requires
        call_ensures(
            AllocatedModule::linked,
            (allocated, Ok::<Imports, LinkError>(imports), registry),
            Ok::<LinkedModule<'data>, SetupError>(linked),
        ) || call_ensures(
            AllocatedModule::try_linked,
            (allocated, Ok::<Imports, LinkError>(imports), registry),
            Some(Ok::<LinkedModule<'data>, SetupError>(linked)),
        ),
    ensures
        ({
            let signatures = crate::signatures::module_signatures(allocated.module);
            let indices = linked@.signatures;
            let before = crate::signatures::registry_entries(*old(registry));
            let after = crate::signatures::registry_entries(*final(registry));
            &&& indices.len() == signatures.len()
            &&& forall|i: int|
                0 <= i < signatures.len() ==> {
                    &&& crate::signatures::index_number(#[trigger] indices[i]) < after.len()
                    &&& after[crate::signatures::index_number(indices[i]) as int].0
                        == signatures[i].0
                }
            &&& forall|i: int, j: int|
                0 <= i < signatures.len() && 0 <= j < signatures.len() ==> (#[trigger] indices[i]
                    == #[trigger] indices[j] <==> signatures[i].0 == signatures[j].0)
            &&& before.len() <= after.len() <= before.len() + signatures.len()
            &&& forall|k: int| 0 <= k < before.len() ==> #[trigger] after[k] == before[k]
            &&& forall|j: int, k: int|
                0 <= j < k < after.len() && before.len() <= k ==> (#[trigger] after[j]).0 != (
                #[trigger] after[k]).0
        }),
{
    crate::signatures::lemma_indices_in_order(
        crate::signatures::registry_entries(*old(registry)),
        crate::signatures::module_signatures(allocated.module),
        linked@.signatures,
    );
}

/// What linking enters anew in the registry is a signature of the module, with its native
/// signature, and comes after the entries of all signatures before it.
pub proof fn law_linking_enters_signatures_in_order<'data>(
    allocated: AllocatedModule<'data>,
    imports: Imports,
    registry: &mut SignatureRegistry,
    linked: LinkedModule<'data>,
    k: int,
) -> (i: int)
    requires
        call_ensures(
            AllocatedModule::linked,
            (allocated, Ok::<Imports, LinkError>(imports), registry),
            Ok::<LinkedModule<'data>, SetupError>(linked),
        ) || call_ensures(
            AllocatedModule::try_linked,
            (allocated, Ok::<Imports, LinkError>(imports), registry),
            Some(Ok::<LinkedModule<'data>, SetupError>(linked)),
        ),
        crate::signatures::registry_entries(*old(registry)).len() <= k
            < crate::signatures::registry_entries(*final(registry)).len(),
    ensures
        0 <= i < crate::signatures::module_signatures(allocated.module).len(),
        crate::signatures::registry_entries(*final(registry))[k]
            == crate::signatures::module_signatures(allocated.module)[i],
        crate::signatures::index_number(linked@.signatures[i]) == k,
        forall|j: int|
            0 <= j < i ==> crate::signatures::index_number(#[trigger] linked@.signatures[j]) < k,
{
    let signatures = crate::signatures::module_signatures(allocated.module);
    let before = crate::signatures::registry_entries(*old(registry));
    crate::signatures::lemma_indices_in_order(before, signatures, linked@.signatures);
    crate::signatures::lemma_new_entry(before, signatures, linked@.signatures, k)
}

/// Linking is given up only where the imports were resolved and there are not enough indices, and
/// there are enough at least where each signature can have one of its own.
pub proof fn law_linking_is_given_up_only_without_indices<'data>(
    allocated: AllocatedModule<'data>,
    imports: Result<Imports, LinkError>,
    registry: &mut SignatureRegistry,
    r: Option<Result<LinkedModule<'data>, SetupError>>,
)
    requires
        call_ensures(AllocatedModule::try_linked, (allocated, imports, registry), r),
    ensures
        ({
            let signatures = crate::signatures::module_signatures(allocated.module);
            let before = crate::signatures::registry_entries(*old(registry));
            let after = crate::signatures::registry_entries(*final(registry));
            &&& imports is Err ==> r is Some
            &&& before.len() + signatures.len() <= u32::MAX ==> r is Some
            &&& r is None ==> {
                &&& imports is Ok
                &&& after.len() >= u32::MAX
                &&& before.is_prefix_of(after)
                &&& forall|k: int|
                    before.len() <= k < after.len() ==> signatures.contains(#[trigger] after[k])
            }
            &&& r is Some && imports is Ok && signatures.len() > 0 ==> after.len() <= u32::MAX
        }),
{
    let signatures = crate::signatures::module_signatures(allocated.module);
    let before = crate::signatures::registry_entries(*old(registry));
    let after = crate::signatures::registry_entries(*final(registry));
    crate::signatures::lemma_register_all_appends(before, signatures);
    if r is None {
        crate::signatures::lemma_partly_registered(before, after, signatures);
    }
}

/// An instance is made of what was linked, be it made directly or by way of a compiled module,
/// which can be instantiated again and again: each function starts where the compiler put it, each
/// initializer writes what it did, and the module, the imports, the signatures and the image are
/// those of the linked module.
pub proof fn law_instance_is_made_of_what_was_linked<'data>(
    allocated: AllocatedModule<'data>,
    imports: Imports,
    registry: &mut SignatureRegistry,
    linked: LinkedModule<'data>,
    raw: RawCompiledModule<'data>,
    compiled: CompiledModule,
    request: InstanceRequest<'_>,
)
    requires
        call_ensures(
            AllocatedModule::linked,
            (allocated, Ok::<Imports, LinkError>(imports), registry),
            Ok::<LinkedModule<'data>, SetupError>(linked),
        ) || call_ensures(
            AllocatedModule::try_linked,
            (allocated, Ok::<Imports, LinkError>(imports), registry),
            Some(Ok::<LinkedModule<'data>, SetupError>(linked)),
        ),
        call_ensures(LinkedModule::published, (linked,), raw),
        (call_ensures(
            CompiledModule::new,
            (Ok::<RawCompiledModule<'data>, SetupError>(raw),),
            Ok::<CompiledModule, SetupError>(compiled),
        ) && call_ensures(CompiledModule::instantiate, (&compiled,), request)) || call_ensures(
            instantiate,
            (Ok::<RawCompiledModule<'data>, SetupError>(raw),),
            Ok::<InstanceRequest<'_>, SetupError>(request),
        ),
    ensures
        *request.module == allocated.module,
        request.imports == imports,
        request.finished_functions@.len() == allocated.allocation.allocated_functions.len(),
        forall|i: int|
            0 <= i < request.finished_functions@.len() ==> #[trigger] request.finished_functions@[i]
                == allocated.allocation.allocated_functions[i].0,
        request.signatures@ == linked@.signatures,
        request.dbg_jit_registration is Some <==> allocated.allocation.dbg_image is Some,
        request.dbg_jit_registration matches Some(registration)
            ==> crate::image::registered_image(*registration)
            == allocated.allocation.dbg_image->0@,
        request.data_initializers.len() == allocated.data_initializers.len(),
        forall|i: int|
            0 <= i < request.data_initializers.len() ==> {
                &&& (#[trigger] request.data_initializers[i]).location
                    == allocated.data_initializers[i].location
                &&& request.data_initializers[i].data@ == allocated.data_initializers[i].data@
            },
{
    law_linked_functions_start_where_they_were_put(allocated, imports, registry, linked);
    let views = crate::initializer::borrowed_views(request.data_initializers@);
    assert(request@ == linked@);
    assert(request@.data_initializers == views);
    assert forall|i: int| 0 <= i < request.data_initializers.len() implies {
        &&& (#[trigger] request.data_initializers[i]).location
            == allocated.data_initializers[i].location
        &&& request.data_initializers[i].data@ == allocated.data_initializers[i].data@
    } by {
        assert(views[i] == request.data_initializers[i]@);
        assert(linked@.data_initializers[i] == views[i]);
    }
}

/// A module that could not be set up gives neither a compiled module nor an instance, but its
/// error; one that could be set up gives both.
pub proof fn law_setup_errors_are_passed_on<'data>(
    raw: Result<RawCompiledModule<'data>, SetupError>,
    compiled: Result<CompiledModule, SetupError>,
    request: Result<InstanceRequest<'data>, SetupError>,
)
    requires
        call_ensures(CompiledModule::new, (raw,), compiled),
        call_ensures(instantiate, (raw,), request),
    ensures
        compiled is Ok <==> raw is Ok,
        request is Ok <==> raw is Ok,
        raw matches Err(error) ==> {
            &&& compiled == Err::<CompiledModule, SetupError>(error)
            &&& request == Err::<InstanceRequest<'data>, SetupError>(error)
        },
{
}

/// A compiled module made of parts gives instances of these parts.
pub proof fn law_instance_is_made_of_the_parts(
    module: Module,
    finished_functions: FunctionEntries,
    imports: Imports,
    data_initializers: Vec<OwnedDataInitializer>,
    signatures: SharedSignatures,
    dbg_jit_registration: Option<GdbJitImageRegistration>,
    compiled: CompiledModule,
    request: InstanceRequest<'_>,
)
    requires
        call_ensures(
            CompiledModule::from_parts,
            (
                module,
                finished_functions,
                imports,
                data_initializers,
                signatures,
                dbg_jit_registration,
            ),
            compiled,
        ),
        call_ensures(CompiledModule::instantiate, (&compiled,), request),
    ensures
        *request.module == module,
        request.finished_functions@ == finished_functions@,
        request.imports == imports,
        request.signatures@ == signatures@,
        request.dbg_jit_registration is Some <==> dbg_jit_registration is Some,
        request.dbg_jit_registration matches Some(registration)
            ==> crate::image::registered_image(*registration) == crate::image::registered_image(
            dbg_jit_registration->0,
        ),
        request.data_initializers.len() == data_initializers.len(),
        forall|i: int|
            0 <= i < data_initializers.len() ==> (#[trigger] request.data_initializers[i])@
                == data_initializers[i]@,
{
    let lent = crate::initializer::borrowed_views(request.data_initializers@);
    let owned = crate::initializer::owned_views(data_initializers@);
    assert(request@.data_initializers == owned);
    assert(lent == owned);
    assert(lent.len() == request.data_initializers.len());
    assert(owned.len() == data_initializers.len());
    assert forall|i: int| 0 <= i < data_initializers.len() implies (
    #[trigger] request.data_initializers[i])@ == data_initializers[i]@ by {
        assert(lent[i] == request.data_initializers[i]@);
        assert(owned[i] == data_initializers[i]@);
    }
}

/// The instance that was made is handed on, or the error in making it.
pub proof fn law_instance_is_handed_on<H>(
    handle: Result<H, InstantiationError>,
    r: Result<H, SetupError>,
)
    requires
        call_ensures(instantiated::<H>, (handle,), r),
    ensures
        r is Ok <==> handle is Ok,
        r matches Ok(instance) ==> handle == Ok::<H, InstantiationError>(instance),
        handle matches Err(error) ==> r == Err::<H, SetupError>(SetupError::Instantiate(error)),
{
}

/// Every data buffer can be handed in, whatever it holds. A module can be linked where each
/// signature can have an index of its own, and where the imports were not resolved; whether it can
/// is not asked when trying.
pub proof fn law_setting_up_is_possible<'data>(
    compiler: Compiler,
    data: &[u8],
    debug_info: bool,
    allocated: AllocatedModule<'data>,
    imports: Result<Imports, LinkError>,
    registry: &mut SignatureRegistry,
)
    ensures
        call_requires(RawCompiledModule::new, (&compiler, data, debug_info)),
        call_requires(AllocatedModule::try_linked, (allocated, imports, registry)),
        imports is Err || crate::signatures::registry_entries(*old(registry)).len()
            + crate::signatures::module_signatures(allocated.module).len() <= u32::MAX
            ==> call_requires(AllocatedModule::linked, (allocated, imports, registry)),
{
    crate::signatures::lemma_register_all_appends(
        crate::signatures::registry_entries(*old(registry)),
        crate::signatures::module_signatures(allocated.module),
    );
}

} // verus!
