use module_setup::entity::{FunctionEntries, SharedSignatures};
use module_setup::error::{CompileError, InstantiationError, LinkError, WasmError};
use module_setup::frontend::{Compiler, FrontendConfig, PointerWidth, Tunables};
use module_setup::initializer::{DataInitializer, DataInitializerLocation, OwnedDataInitializer};
use module_setup::linked::{
    debug_info_message, instantiate, instantiated, Allocation, AllocatedModule, CompiledModule, RawCompiledModule,
    SetupError,
};
use wasmtime_environ::isa::CallConv;
use wasmtime_environ::Module;
use wasmtime_runtime::{
    GdbJitImageRegistration, Imports, SignatureRegistry, Trap, VMSharedSignatureIndex,
};

fn compiler() -> Compiler {
    Compiler {
        frontend_config: FrontendConfig {
            default_call_conv: CallConv::SystemV,
            pointer_width: PointerWidth::U64,
        },
        tunables: Tunables {
            static_memory_bound: 0x1_0000,
            static_memory_offset_guard_size: 0x8000_0000,
            dynamic_memory_offset_guard_size: 0x1_0000,
            debug_info: false,
            interruptable: true,
        },
    }
}

/// Two signatures of the same type, a memory and an active data segment.
const SAMPLE: [u8; 34] = [
    0x00, 0x61, 0x73, 0x6d, 0x01, 0x00, 0x00, 0x00, 1, 7, 2, 0x60, 0, 0, 0x60, 0, 0, 5, 3, 1, 0, 1,
    11, 10, 1, 0, 0x41, 3, 0x0b, 4, 5, 6, 7, 8,
];

fn allocation(dbg_image: Option<Vec<u8>>) -> Allocation {
    Allocation {
        allocated_functions: vec![(0x400, 7), (0x500, 9)],
        dbg_image,
    }
}

fn allocated(dbg_image: Option<Vec<u8>>) -> AllocatedModule<'static> {
    let translated = match RawCompiledModule::new(&compiler(), &SAMPLE, false) {
        Ok(translated) => translated,
        Err(error) => panic!("{:?}", error),
    };
    match AllocatedModule::new(translated, Ok(allocation(dbg_image))) {
        Ok(allocated) => allocated,
        Err(error) => panic!("{:?}", error),
    }
}

fn raw(dbg_image: Option<Vec<u8>>) -> RawCompiledModule<'static> {
    let mut registry = SignatureRegistry::default();
    match allocated(dbg_image).linked(Ok(Imports::none()), &mut registry) {
        Ok(linked) => linked.published(),
        Err(error) => panic!("{:?}", error),
    }
}

fn index(number: u32) -> VMSharedSignatureIndex {
    VMSharedSignatureIndex::new(number)
}

#[test]
fn direct_instance_is_made_of_the_raw_module() {
    let request = match instantiate(Ok(raw(Some(vec![1, 2])))) {
        Ok(request) => request,
        Err(error) => panic!("{:?}", error),
    };
    assert_eq!(request.module.local.signatures.len(), 2);
    assert_eq!(request.finished_functions.values(), vec![0x400, 0x500]);
    assert_eq!(request.imports.functions.len(), 0);
    assert_eq!(request.data_initializers.len(), 1);
    assert_eq!(
        request.data_initializers[0].location,
        DataInitializerLocation { memory_index: 0, base: None, offset: 3 }
    );
    assert_eq!(request.data_initializers[0].data, &[5, 6, 7, 8]);
    assert_eq!(request.signatures.values(), vec![index(0), index(0)]);
    assert_eq!(request.dbg_jit_registration.unwrap().file(), &[1, 2]);
}

#[test]
fn direct_instance_is_that_of_the_compiled_module() {
    let direct = match instantiate(Ok(raw(Some(vec![9])))) {
        Ok(request) => request,
        Err(error) => panic!("{:?}", error),
    };
    let compiled = match CompiledModule::new(Ok(raw(Some(vec![9])))) {
        Ok(compiled) => compiled,
        Err(error) => panic!("{:?}", error),
    };
    for _ in 0..2 {
        let request = compiled.instantiate();
        assert_eq!(request.module.local.signatures, direct.module.local.signatures);
        assert_eq!(request.finished_functions.values(), direct.finished_functions.values());
        assert_eq!(request.signatures.values(), direct.signatures.values());
        assert_eq!(request.data_initializers.len(), direct.data_initializers.len());
        assert_eq!(request.data_initializers[0].location, direct.data_initializers[0].location);
        assert_eq!(request.data_initializers[0].data, direct.data_initializers[0].data);
        let image = request.dbg_jit_registration.unwrap();
        assert_eq!(image.file(), direct.dbg_jit_registration.as_ref().unwrap().file());
    }
}

#[test]
fn no_image_no_registration() {
    let request = match instantiate(Ok(raw(None))) {
        Ok(request) => request,
        Err(error) => panic!("{:?}", error),
    };
    assert!(request.dbg_jit_registration.is_none());
}

#[test]
fn parts_make_a_compiled_module() {
    let location = DataInitializerLocation { memory_index: 1, base: Some(2), offset: 4 };
    let owned = OwnedDataInitializer::new(&DataInitializer { location, data: &[3, 1, 4] });
    let compiled = CompiledModule::from_parts(
        Module::new(),
        FunctionEntries::from_values(vec![10, 20, 30]),
        Imports::none(),
        vec![owned],
        SharedSignatures::from_values(vec![index(5), index(4)]),
        Some(GdbJitImageRegistration::register(vec![0xee])),
    );
    let request = compiled.instantiate();
    assert_eq!(request.finished_functions.values(), vec![10, 20, 30]);
    assert_eq!(request.signatures.values(), vec![index(5), index(4)]);
    assert_eq!(request.data_initializers.len(), 1);
    assert_eq!(request.data_initializers[0].location, location);
    assert_eq!(request.data_initializers[0].data, &[3, 1, 4]);
    assert_eq!(request.dbg_jit_registration.as_ref().unwrap().file(), &[0xee]);
}

#[test]
fn link_error_registers_nothing() {
    let mut registry = SignatureRegistry::default();
    match allocated(None).linked(Err(LinkError("missing".to_string())), &mut registry) {
        Err(SetupError::Instantiate(InstantiationError::Link(LinkError(message)))) => {
            assert_eq!(message, "missing");
        }
        _ => panic!("linked"),
    }
    assert!(registry.lookup_wasm(index(0)).is_none());
    match allocated(None).try_linked(Err(LinkError("again".to_string())), &mut registry) {
        Some(Err(SetupError::Instantiate(InstantiationError::Link(LinkError(message))))) => {
            assert_eq!(message, "again");
        }
        _ => panic!("linked"),
    }
    assert!(matches!(
        allocated(None).try_linked(Ok(Imports::none()), &mut registry),
        Some(Ok(_))
    ));
    assert!(registry.lookup_wasm(index(0)).is_some());
    assert!(registry.lookup_wasm(index(1)).is_none());
}

#[test]
fn earlier_errors_pass_through() {
    match CompiledModule::new(Err(SetupError::Validate("v".to_string()))) {
        Err(SetupError::Validate(message)) => assert_eq!(message, "v"),
        _ => panic!("compiled"),
    }
    match instantiate(Err(SetupError::Compile(CompileError::Codegen("c".to_string())))) {
        Err(SetupError::Compile(CompileError::Codegen(message))) => assert_eq!(message, "c"),
        _ => panic!("instantiated"),
    }
    let translated = match RawCompiledModule::new(&compiler(), &SAMPLE, false) {
        Ok(translated) => translated,
        Err(error) => panic!("{:?}", error),
    };
    assert!(translated.translation.tunables.interruptable);
    assert!(matches!(
        AllocatedModule::new(
            translated,
            Err(SetupError::Compile(CompileError::DebugInfoNotSupported)),
        ),
        Err(SetupError::Compile(CompileError::DebugInfoNotSupported))
    ));
}

#[test]
fn failure_of_the_runtime_is_an_instantiation_error() {
    assert!(matches!(instantiated(Ok(3u8)), Ok(3)));
    let failed: Result<u8, SetupError> = instantiated(Err(InstantiationError::Resource("r".to_string())));
    match failed {
        Err(SetupError::Instantiate(InstantiationError::Resource(message))) => assert_eq!(message, "r"),
        _ => panic!("instantiated"),
    }
}

#[test]
fn debug_information_is_read_as_the_flag_says() {
    let translated = RawCompiledModule::new(&compiler(), &SAMPLE, false);
    assert!(translated.unwrap_or_else(|e| panic!("{:?}", e)).debug_data.is_none());
    let translated = RawCompiledModule::new(&compiler(), &SAMPLE, true);
    assert!(translated.unwrap_or_else(|e| panic!("{:?}", e)).debug_data.is_some());
    let mut with_types = vec![0x00, 0x61, 0x73, 0x6d, 0x01, 0x00, 0x00, 0x00, 0, 13, 12];
    with_types.extend_from_slice(b".debug_types");
    match RawCompiledModule::new(&compiler(), &with_types, true) {
        Err(SetupError::DebugInfo(error)) => assert_eq!(
            SetupError::DebugInfo(error).message(),
            "Debug information error: Unexpected .debug_types"
        ),
        _ => panic!("read"),
    }
}

#[test]
fn binaries_are_checked() {
    assert!(matches!(
        RawCompiledModule::new(&compiler(), &SAMPLE[..20], false),
        Err(SetupError::Compile(CompileError::Wasm(WasmError::InvalidWebAssembly { .. })))
    ));
    let shared_memory = [0x00, 0x61, 0x73, 0x6d, 0x01, 0x00, 0x00, 0x00, 5, 4, 1, 3, 1, 1];
    match RawCompiledModule::new(&compiler(), &shared_memory, false) {
        Err(SetupError::Compile(CompileError::Wasm(WasmError::Unsupported(message)))) => {
            assert_eq!(message, "shared memories");
        }
        _ => panic!("translated"),
    }
}

#[test]
fn failures_to_compile_are_passed_on() {
    let failures = vec![
        SetupError::Instantiate(InstantiationError::Resource("no memory".to_string())),
        SetupError::DebugInfo(anyhow::Error::msg("bad line table")),
    ];
    for failure in failures {
        let expected = failure.message();
        let translated = RawCompiledModule::new(&compiler(), &SAMPLE, false);
        let translated = translated.unwrap_or_else(|e| panic!("{:?}", e));
        match AllocatedModule::new(translated, Err(failure)) {
            Err(error) => assert_eq!(error.message(), expected),
            Ok(_) => panic!("compiled"),
        }
    }
}

#[derive(Debug)]
struct Mute;

impl std::fmt::Display for Mute {
    fn fmt(&self, _: &mut std::fmt::Formatter<'_>) -> std::fmt::Result {
        Err(std::fmt::Error)
    }
}

#[test]
fn debug_information_errors_may_be_mute() {
    assert_eq!(
        SetupError::DebugInfo(anyhow::Error::msg(Mute)).message(),
        "Debug information error: "
    );
    assert_eq!(debug_info_message(None), "Debug information error: ");
    assert_eq!(debug_info_message(Some("q".to_string())), "Debug information error: q");
}

#[test]
fn linked_setup_errors_say_what_went_wrong() {
    assert_eq!(SetupError::Validate("x".to_string()).message(), "Validation error: x");
    assert_eq!(
        SetupError::Compile(CompileError::Codegen("y".to_string())).message(),
        "WebAssembly compilation error: Compilation error: y"
    );
    assert_eq!(
        SetupError::Instantiate(InstantiationError::Trap(Trap::oom())).message(),
        "Instantiation error: Trap occurred during instantiation"
    );
    assert_eq!(
        SetupError::DebugInfo(anyhow::Error::msg("z")).message(),
        "Debug information error: z"
    );
}
