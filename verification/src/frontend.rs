//! From a WebAssembly binary to its translation and its debug information.

use crate::error::{WasmError, WasmErrorView};
use crate::initializer::{DataInitializer, DataInitializerLocation, InitializerView};
use crate::support::{check_binary, check_function_types};
use cranelift_wasm::WasmFuncType;
use vstd::prelude::*;
use wasmtime_debug::DebugInfoData;
use wasmtime_environ::ir::Signature;
use wasmtime_environ::isa::{CallConv, TargetFrontendConfig};
use wasmtime_environ::Tunables as TargetTunables;
use wasmtime_environ::{Module, ModuleEnvironment, ModuleTranslation};

verus! {

/// `wasmtime_environ::isa::CallConv`, the calling convention of native code.
#[verifier::external_type_specification]
#[verifier::external_body]
pub struct ExCallConv(CallConv);

/// `wasmtime_environ::isa::TargetFrontendConfig`, what translation knows of the target.
#[verifier::external_type_specification]
#[verifier::external_body]
pub struct ExTargetFrontendConfig(TargetFrontendConfig);

/// `wasmtime_environ::Tunables`.
#[verifier::external_type_specification]
#[verifier::external_body]
pub struct ExTargetTunables(TargetTunables);

/// `wasmtime_environ::ModuleTranslation`, a module whose function bodies are not yet compiled.
#[verifier::external_type_specification]
#[verifier::external_body]
pub struct ExModuleTranslation<'data>(ModuleTranslation<'data>);

/// `wasmtime_debug::DebugInfoData`, the debug information found in a binary.
#[verifier::external_type_specification]
#[verifier::external_body]
pub struct ExDebugInfoData<'data>(DebugInfoData<'data>);

/// `anyhow::Error`, the reason why debug information could not be read.
#[verifier::external_type_specification]
#[verifier::external_body]
pub struct ExAnyhowError(anyhow::Error);

/// The size of a pointer of the target.
#[derive(Clone, Copy, Debug, PartialEq, Eq, Structural)]
pub enum PointerWidth {
    U32,
    U64,
}

/// What translation has to know of the target.
#[derive(Clone, Copy)]
pub struct FrontendConfig {
    /// The calling convention of WebAssembly functions.
    pub default_call_conv: CallConv,
    /// The size of a pointer.
    pub pointer_width: PointerWidth,
}

/// Tunable parameters for WebAssembly compilation.
#[derive(Clone, Copy, Debug, PartialEq, Eq, Structural)]
pub struct Tunables {
    /// For static heaps, the size in wasm pages of the heap protected by bounds checking.
    pub static_memory_bound: u32,
    /// The size in bytes of the offset guard for static heaps.
    pub static_memory_offset_guard_size: u64,
    /// The size in bytes of the offset guard for dynamic heaps.
    pub dynamic_memory_offset_guard_size: u64,
    /// Whether or not to generate DWARF debug information.
    pub debug_info: bool,
    /// Whether or not to enable the ability to interrupt wasm code dynamically.
    pub interruptable: bool,
}

/// The settings of a compiler that translation depends on.
#[derive(Clone, Copy)]
pub struct Compiler {
    pub frontend_config: FrontendConfig,
    pub tunables: Tunables,
}

/// What translating a binary yields.
pub struct TranslationView {
    /// The signatures that the binary declares, in order.
    pub signatures: Seq<(WasmFuncType, Signature)>,
    /// The active data segments of the binary, in order.
    pub data_initializers: Seq<InitializerView>,
}

/// The settings that a `TargetFrontendConfig` holds.
pub uninterp spec fn config_values(config: TargetFrontendConfig) -> FrontendConfig;

/// The settings that a `wasmtime_environ::Tunables` holds.
pub uninterp spec fn tunables_values(tunables: TargetTunables) -> Tunables;

/// What translating a binary for a target yields, or the error.
pub uninterp spec fn translation_outcome(config: FrontendConfig, data: Seq<u8>) -> Result<
    TranslationView,
    WasmErrorView,
>;

/// Whether translating this binary with these settings may yield this translation.
pub uninterp spec fn is_translation_from(
    config: FrontendConfig,
    tunables: Tunables,
    data: Seq<u8>,
    translation: ModuleTranslation<'_>,
) -> bool;

/// The module that a translation describes: its field `module`.
pub uninterp spec fn translation_module(translation: ModuleTranslation<'_>) -> Module;

/// The initializers that a translation holds: its field `data_initializers`.
pub uninterp spec fn translation_initializers(translation: ModuleTranslation<'_>) -> Seq<
    InitializerView,
>;

/// Whether the debug information of a binary can be read.
pub uninterp spec fn debug_info_readable(data: Seq<u8>) -> bool;

/// Whether this is the debug information of a binary.
pub uninterp spec fn is_debug_info_of(debug_data: DebugInfoData<'_>, data: Seq<u8>) -> bool;

/// Builds a `wasmtime_environ::isa::TargetFrontendConfig`.
#[verifier::external_body]
fn target_config(config: &FrontendConfig) -> (r: TargetFrontendConfig)
    ensures
        config_values(r) == *config,
{
    TargetFrontendConfig {
        default_call_conv: config.default_call_conv,
        pointer_width: match config.pointer_width {
            PointerWidth::U32 => target_lexicon::PointerWidth::U32,
            PointerWidth::U64 => target_lexicon::PointerWidth::U64,
        },
    }
}

/// Builds a `wasmtime_environ::Tunables`.
#[verifier::external_body]
fn target_tunables(tunables: &Tunables) -> (r: TargetTunables)
    ensures
        tunables_values(r) == *tunables,
{
    TargetTunables {
        static_memory_bound: tunables.static_memory_bound,
        static_memory_offset_guard_size: tunables.static_memory_offset_guard_size,
        dynamic_memory_offset_guard_size: tunables.dynamic_memory_offset_guard_size,
        debug_info: tunables.debug_info,
        interruptable: tunables.interruptable,
    }
}

/// Calls `wasmtime_environ::ModuleEnvironment::translate`. It panics on entries of a type section
/// that are not function types or cannot be read, and on parameters and results of types that no
/// value has; on imports without a field name; on what belongs to module linking; on unknown
/// sections; and on memories larger than the static bound whose maximum is within it. With debug
/// assertions it also panics on the index `u32::MAX`, on imports after definitions of the same
/// kind, on a second start section, and on passive segments with the number of one in an earlier
/// section.
///
/// Whether it succeeds, with which signatures and data initializers, or with which error, is a
/// function of the target and the binary. Of all else in the translation nothing is said but that
/// it is one of this binary with these settings.
#[verifier::external_body]
fn translate<'data>(
    config: TargetFrontendConfig,
    tunables: &TargetTunables,
    data: &'data [u8],
) -> (r: Result<ModuleTranslation<'data>, WasmError>)
    requires
        crate::support::is_translatable(
            tunables_values(*tunables).static_memory_bound,
            data@,
        ),
    ensures
        match r {
            Ok(translation) => {
                &&& translation_outcome(config_values(config), data@) == Ok::<
                    TranslationView,
                    WasmErrorView,
                >(translation_contents(translation))
                &&& is_translation_from(
                    config_values(config),
                    tunables_values(*tunables),
                    data@,
                    translation,
                )
            },
            Err(error) => translation_outcome(config_values(config), data@) == Err::<
                TranslationView,
                WasmErrorView,
            >(error@),
        },
{
    ModuleEnvironment::new(config, tunables).translate(data).map_err(|error| match error {
        cranelift_wasm::WasmError::InvalidWebAssembly { message, offset } =>
            WasmError::InvalidWebAssembly { message, offset },
        cranelift_wasm::WasmError::Unsupported(message) => WasmError::Unsupported(message),
        cranelift_wasm::WasmError::ImplLimitExceeded => WasmError::ImplLimitExceeded,
        cranelift_wasm::WasmError::User(message) => WasmError::User(message),
    })
}

/// Takes the fields `module` and `data_initializers` out of a
/// `wasmtime_environ::ModuleTranslation`.
#[verifier::external_body]
pub(crate) fn split_translation<'data>(translation: ModuleTranslation<'data>) -> (r: (
    Module,
    Vec<DataInitializer<'data>>,
))
    ensures
        r.0 == translation_module(translation),
        crate::initializer::borrowed_views(r.1@) == translation_initializers(translation),
{
    let initializers = translation.data_initializers.into_iter().map(|init| DataInitializer {
        location: DataInitializerLocation {
            memory_index: init.location.memory_index.as_u32(),
            base: init.location.base.map(|base| base.as_u32()),
            offset: init.location.offset,
        },
        data: init.data,
    }).collect();
    (translation.module, initializers)
}

/// Calls `wasmtime_debug::read_debuginfo`. It panics on types that are not function types or cannot
/// be read, and on functions with a body whose type is not there. Whether it succeeds is a function
/// of the binary. Nothing is said of the debug information but what binary it is of.
#[verifier::external_body]
fn read_debug_info<'data>(data: &'data [u8]) -> (r: Result<DebugInfoData<'data>, anyhow::Error>)
    requires
        usize::BITS == 64,
        crate::support::has_function_types(data@),
    ensures
        r is Ok <==> debug_info_readable(data@),
        r matches Ok(debug_data) ==> is_debug_info_of(debug_data, data@),
{
    wasmtime_debug::read_debuginfo(data)
}

/// The part of a translation that its outcome speaks of.
pub open spec fn translation_contents(translation: ModuleTranslation<'_>) -> TranslationView {
    TranslationView {
        signatures: crate::signatures::module_signatures(translation_module(translation)),
        data_initializers: translation_initializers(translation),
    }
}

/// A translated module, ready to be compiled.
pub struct TranslatedModule<'data> {
    /// The translation.
    pub translation: ModuleTranslation<'data>,
    /// The debug information of the binary, where it was asked for.
    pub debug_data: Option<DebugInfoData<'data>>,
}

/// An error before compilation.
#[derive(Debug)]
pub enum FrontendError {
    /// The binary could not be translated.
    Wasm(WasmError),
    /// Its debug information could not be read.
    DebugInfo(anyhow::Error),
}

/// Whether a translated module is made of this binary with these settings.
pub open spec fn is_translation_of(
    translated: TranslatedModule<'_>,
    compiler: Compiler,
    data: Seq<u8>,
    debug_info: bool,
) -> bool {
    &&& is_translation_from(
        compiler.frontend_config,
        compiler.tunables,
        data,
        translated.translation,
    )
    &&& translation_outcome(compiler.frontend_config, data) == Ok::<TranslationView, WasmErrorView>(
        translation_contents(translated.translation),
    )
    &&& translated.debug_data is Some <==> debug_info
    &&& translated.debug_data matches Some(debug_data) ==> is_debug_info_of(debug_data, data)
}

/// Whether this is what becomes of a binary that can be translated: its translation, with debug
/// information exactly if that is asked for, or the first error. Debug information is not read
/// where a function has a body and no type.
pub open spec fn is_frontend_result(
    result: Result<TranslatedModule<'_>, FrontendError>,
    compiler: Compiler,
    data: Seq<u8>,
    debug_info: bool,
) -> bool {
    match result {
        Ok(translated) => {
            &&& is_translation_of(translated, compiler, data, debug_info)
            &&& debug_info ==> crate::support::has_function_types(data) && debug_info_readable(data)
        },
        Err(FrontendError::Wasm(error)) => match translation_outcome(
            compiler.frontend_config,
            data,
        ) {
            Ok(_) => {
                &&& debug_info
                &&& !crate::support::has_function_types(data)
                &&& error@ == WasmErrorView::Unsupported("function body without a type"@)
            },
            Err(reason) => error@ == reason,
        },
        Err(FrontendError::DebugInfo(_)) => {
            &&& translation_outcome(compiler.frontend_config, data) is Ok
            &&& debug_info
            &&& crate::support::has_function_types(data)
            &&& !debug_info_readable(data)
        },
    }
}

/// What a translation and the debug information, where it was read, add up to.
pub fn combine<'data>(
    translation: Result<ModuleTranslation<'data>, WasmError>,
    debug_data: Option<Result<DebugInfoData<'data>, anyhow::Error>>,
) -> (r: Result<TranslatedModule<'data>, FrontendError>)
    ensures
        match (translation, debug_data) {
            (Err(error), _) => r == Err::<TranslatedModule<'data>, FrontendError>(
                FrontendError::Wasm(error),
            ),
            (Ok(translation), None) => r == Ok::<TranslatedModule<'data>, FrontendError>(
                TranslatedModule { translation, debug_data: None },
            ),
            (Ok(translation), Some(Ok(data))) => r == Ok::<TranslatedModule<'data>, FrontendError>(
                TranslatedModule { translation, debug_data: Some(data) },
            ),
            (Ok(_), Some(Err(error))) => r == Err::<TranslatedModule<'data>, FrontendError>(
                FrontendError::DebugInfo(error),
            ),
        },
{
    match translation {
        Ok(translation) => match debug_data {
            Some(Ok(data)) => Ok(TranslatedModule { translation, debug_data: Some(data) }),
            Some(Err(error)) => Err(FrontendError::DebugInfo(error)),
            None => Ok(TranslatedModule { translation, debug_data: None }),
        },
        Err(error) => Err(FrontendError::Wasm(error)),
    }
}

/// Translates a binary and, where it is asked for, reads its debug information. A binary that does
/// not translate is not looked at for debug information.
pub fn translate_module<'data>(
    compiler: &Compiler,
    data: &'data [u8],
    debug_info: bool,
) -> (r: Result<TranslatedModule<'data>, FrontendError>)
    ensures
        match crate::support::refusal(compiler.tunables.static_memory_bound, data@) {
            None => is_frontend_result(r, *compiler, data@, debug_info),
            Some(reason) => r matches Err(FrontendError::Wasm(error)) && error@ == reason,
        },
{
    match check_binary(compiler.tunables.static_memory_bound, data) {
        Ok(_) => {},
        Err(error) => {
            return Err(FrontendError::Wasm(error));
        },
    }
    let config = target_config(&compiler.frontend_config);
    let tunables = target_tunables(&compiler.tunables);
    let translation = translate(config, &tunables, data);
    let debug_data = if debug_info && translation.is_ok() {
        if !check_function_types(data) {
            return Err(
                FrontendError::Wasm(
                    WasmError::Unsupported("function body without a type".to_owned()),
                ),
            );
        }
        Some(read_debug_info(data))
    } else {
        None
    };
    combine(translation, debug_data)
}

/// A translation is passed on with the debug information that was read, if any; an error in either
/// is passed on, that of translation first.
pub proof fn law_first_error_is_passed_on<'data>(
    translation: Result<ModuleTranslation<'data>, WasmError>,
    debug_data: Option<Result<DebugInfoData<'data>, anyhow::Error>>,
    r: Result<TranslatedModule<'data>, FrontendError>,
)
    requires
        call_ensures(combine, (translation, debug_data), r),
    ensures
        r is Ok <==> translation is Ok && !(debug_data matches Some(Err(_))),
        r matches Ok(translated) ==> {
            &&& translation == Ok::<ModuleTranslation<'data>, WasmError>(translated.translation)
            &&& translated.debug_data is Some <==> debug_data is Some
            &&& translated.debug_data matches Some(found) ==> debug_data == Some(
                Ok::<DebugInfoData<'data>, anyhow::Error>(found),
            )
        },
        r matches Err(FrontendError::Wasm(error)) ==> translation == Err::<
            ModuleTranslation<'data>,
            WasmError,
        >(error),
        r matches Err(FrontendError::DebugInfo(error)) ==> debug_data == Some(
            Err::<DebugInfoData<'data>, anyhow::Error>(error),
        ),
        translation is Err ==> r matches Err(FrontendError::Wasm(_)),
{
}

/// A binary that is not refused becomes what translation makes of it. Debug information is there
/// exactly if it was asked for. Where it was, it decides over success only once translation
/// succeeded; where it was not, it decides over nothing.
pub proof fn law_binary_becomes_its_translation(
    compiler: Compiler,
    data: &[u8],
    debug_info: bool,
    checked: Result<(), WasmError>,
    typed: bool,
    r: Result<TranslatedModule<'_>, FrontendError>,
)
    requires
        call_ensures(check_binary, (compiler.tunables.static_memory_bound, data), checked),
        call_ensures(check_function_types, (data,), typed),
        call_ensures(translate_module, (&compiler, data, debug_info), r),
    ensures
        checked matches Err(reason) ==> {
            &&& r matches Err(FrontendError::Wasm(error))
            &&& error@ == reason@
        },
        checked is Ok ==> match translation_outcome(compiler.frontend_config, data@) {
            Err(reason) => {
                &&& r matches Err(FrontendError::Wasm(error))
                &&& error@ == reason
            },
            Ok(contents) => if debug_info && !typed {
                &&& r matches Err(FrontendError::Wasm(WasmError::Unsupported(reason)))
                &&& reason@ == "function body without a type"@
            } else if debug_info && !debug_info_readable(data@) {
                r matches Err(FrontendError::DebugInfo(_))
            } else {
                &&& r matches Ok(translated)
                &&& translated.debug_data is Some <==> debug_info
                &&& translated.debug_data matches Some(found) ==> is_debug_info_of(found, data@)
                &&& is_translation_from(
                    compiler.frontend_config,
                    compiler.tunables,
                    data@,
                    translated.translation,
                )
                &&& crate::signatures::module_signatures(translation_module(translated.translation))
                    == contents.signatures
                &&& translation_initializers(translated.translation) == contents.data_initializers
            },
        },
{
}

/// Every data buffer can be handed in, whatever it holds, with any settings.
pub proof fn law_any_data_can_be_handed_in(compiler: Compiler, data: &[u8], debug_info: bool)
    ensures
        call_requires(translate_module, (&compiler, data, debug_info)),
        call_requires(check_binary, (compiler.tunables.static_memory_bound, data)),
{
}

} // verus!
