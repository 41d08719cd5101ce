use cranelift_wasm::{WasmFuncType, WasmType};
use module_setup::entity::{ModuleAddressMap, Traps};
use module_setup::error::{CompileError, InstantiationError, LinkError, WasmError};
use module_setup::frontend::{Compiler, FrontendConfig, PointerWidth, TranslatedModule, Tunables};
use module_setup::initializer::DataInitializerLocation;
use module_setup::jit::{
    CodeMemory, Compilation, CompiledModule, PublishedModule, SetupError, UnlinkedModule,
};
use wasmtime_environ::ir::{SourceLoc, TrapCode};
use wasmtime_environ::isa::{CallConv, TargetFrontendConfig};
use wasmtime_environ::{FunctionAddressMap, ModuleEnvironment, TrapInformation};
use wasmtime_runtime::{Imports, SignatureRegistry, Trap, VMSharedSignatureIndex};

fn compiler(debug_info: bool) -> Compiler {
    Compiler {
        frontend_config: FrontendConfig {
            default_call_conv: CallConv::SystemV,
            pointer_width: PointerWidth::U64,
        },
        tunables: Tunables {
            static_memory_bound: 0x1_0000,
            static_memory_offset_guard_size: 0x8000_0000,
            dynamic_memory_offset_guard_size: 0x1_0000,
            debug_info,
            interruptable: false,
        },
    }
}

fn binary(sections: &[(u8, &[u8])]) -> Vec<u8> {
    let mut bytes = vec![0x00, 0x61, 0x73, 0x6d, 0x01, 0x00, 0x00, 0x00];
    for (id, body) in sections {
        bytes.push(*id);
        bytes.push(body.len() as u8);
        bytes.extend_from_slice(body);
    }
    bytes
}

fn custom(name: &str, body: &[u8]) -> Vec<u8> {
    let mut bytes = vec![name.len() as u8];
    bytes.extend_from_slice(name.as_bytes());
    bytes.extend_from_slice(body);
    bytes
}

/// Three signatures, of which the first and the last have the same type, an imported global, a
/// memory, two active data segments and a passive one.
fn sample() -> Vec<u8> {
    binary(&[
        (1, &[3, 0x60, 0, 0, 0x60, 1, 0x7f, 0, 0x60, 0, 0]),
        (2, &[1, 1, b'm', 1, b'g', 3, 0x7f, 0]),
        (5, &[1, 0, 1]),
        (
            11,
            &[
                3, 0, 0x41, 8, 0x0b, 2, b'h', b'i', 1, 1, 9, 0, 0x23, 0, 0x0b, 3, 1, 2, 3,
            ],
        ),
    ])
}

fn compilation(trampolines: Vec<usize>, dbg_image: Option<Vec<u8>>) -> Compilation {
    Compilation {
        finished_functions: vec![(0x1000, 16), (0x1010, 32)],
        trampolines,
        traps: Traps::from_values(vec![
            vec![],
            vec![TrapInformation {
                code_offset: 4,
                source_loc: SourceLoc::new(9),
                trap_code: TrapCode::StackOverflow,
            }],
        ]),
        address_transform: ModuleAddressMap::from_values(vec![FunctionAddressMap {
            instructions: vec![],
            start_srcloc: SourceLoc::new(1),
            end_srcloc: SourceLoc::new(2),
            body_offset: 3,
            body_len: 4,
        }]),
        dbg_image,
    }
}

fn published(
    translated: TranslatedModule<'_>,
    compilation: Compilation,
    ranges: Vec<(usize, usize)>,
) -> PublishedModule {
    let unlinked = match UnlinkedModule::new(translated, Ok(compilation)) {
        Ok(unlinked) => unlinked,
        Err(error) => panic!("{:?}", error),
    };
    unlinked.linked().published(CodeMemory::new(ranges))
}

fn sample_module(trampolines: Vec<usize>) -> CompiledModule {
    let data = sample();
    let translated = CompiledModule::new(&compiler(false), &data).unwrap_or_else(|e| panic!("{:?}", e));
    published(translated, compilation(trampolines, None), vec![(0x1000, 0x2000)]).profiled()
}

fn index(number: u32) -> VMSharedSignatureIndex {
    VMSharedSignatureIndex::new(number)
}

#[test]
fn translation_finds_the_active_data_segments() {
    let data = sample();
    let translated = match CompiledModule::new(&compiler(false), &data) {
        Ok(translated) => translated,
        Err(error) => panic!("{:?}", error),
    };
    assert!(translated.debug_data.is_none());
    assert_eq!(translated.translation.tunables.static_memory_bound, 0x1_0000);
    assert_eq!(translated.translation.tunables.static_memory_offset_guard_size, 0x8000_0000);
    assert_eq!(translated.translation.tunables.dynamic_memory_offset_guard_size, 0x1_0000);
    assert!(!translated.translation.tunables.debug_info);
    assert!(!translated.translation.tunables.interruptable);
    assert_eq!(translated.translation.target_config.pointer_bytes(), 8);
    assert_eq!(translated.translation.target_config.default_call_conv, CallConv::SystemV);
    let unlinked = match UnlinkedModule::new(translated, Ok(compilation(vec![], None))) {
        Ok(unlinked) => unlinked,
        Err(error) => panic!("{:?}", error),
    };
    assert_eq!(unlinked.module.local.signatures.len(), 3);
    assert_eq!(unlinked.data_initializers.len(), 2);
    assert_eq!(
        unlinked.data_initializers[0].location,
        DataInitializerLocation { memory_index: 0, base: None, offset: 8 }
    );
    assert_eq!(unlinked.data_initializers[0].data, b"hi");
    assert_eq!(
        unlinked.data_initializers[1].location,
        DataInitializerLocation { memory_index: 0, base: Some(0), offset: 0 }
    );
    assert_eq!(unlinked.data_initializers[1].data, &[1, 2, 3]);
}

#[test]
fn pointer_width_reaches_the_translation() {
    let mut settings = compiler(false);
    settings.frontend_config.pointer_width = PointerWidth::U32;
    settings.frontend_config.default_call_conv = CallConv::Fast;
    settings.tunables.static_memory_bound = 7;
    let data = sample();
    let translated = CompiledModule::new(&settings, &data).unwrap_or_else(|e| panic!("{:?}", e));
    assert_eq!(translated.translation.target_config.pointer_bytes(), 4);
    assert_eq!(translated.translation.target_config.default_call_conv, CallConv::Fast);
    assert_eq!(translated.translation.tunables.static_memory_bound, 7);
}

#[test]
fn compiled_module_owns_its_data() {
    let module = {
        let data = sample();
        let translated = CompiledModule::new(&compiler(false), &data).unwrap_or_else(|e| panic!("{:?}", e));
        published(translated, compilation(vec![0xa0], None), vec![(1, 2), (3, 4)]).profiled()
    };
    let initializers = module.data_initializers();
    assert_eq!(initializers.len(), 2);
    assert_eq!(
        initializers[0].location,
        DataInitializerLocation { memory_index: 0, base: None, offset: 8 }
    );
    assert_eq!(initializers[0].data, b"hi");
    assert_eq!(
        initializers[1].location,
        DataInitializerLocation { memory_index: 0, base: Some(0), offset: 0 }
    );
    assert_eq!(initializers[1].data, &[1, 2, 3]);
    assert_eq!(module.jit_code_ranges(), vec![(1, 2), (3, 4)]);
    assert_eq!(module.finished_functions().values(), vec![(0x1000, 16), (0x1010, 32)]);
    let traps = module.traps().values();
    assert_eq!(traps.len(), 2);
    assert!(traps[0].is_empty());
    assert_eq!(traps[1][0].code_offset, 4);
    assert_eq!(module.address_transform().values().len(), 1);
    assert_eq!(module.address_transform().values()[0].body_len, 4);
    assert_eq!(module.module().local.signatures.len(), 3);
}

#[test]
fn module_without_sections_has_nothing() {
    let data = binary(&[]);
    let translated = CompiledModule::new(&compiler(false), &data).unwrap_or_else(|e| panic!("{:?}", e));
    let module = published(translated, compilation(vec![], None), vec![]).profiled();
    assert!(module.data_initializers().is_empty());
    assert!(module.jit_code_ranges().is_empty());
    let mut registry = SignatureRegistry::default();
    let pending = module.instantiate(&mut registry);
    assert!(pending.signatures.values().is_empty());
    assert!(pending.trampolines.is_empty());
}

#[test]
fn signatures_of_the_same_type_share_an_index() {
    let module = sample_module(vec![0xa0, 0xb0, 0xc0]);
    let mut registry = SignatureRegistry::default();
    let pending = module.instantiate(&mut registry);
    assert_eq!(pending.signatures.values(), vec![index(0), index(1), index(0)]);
    assert_eq!(registry.lookup_wasm(index(0)).map(|t| t.params.len()), Some(0));
    assert_eq!(registry.lookup_wasm(index(1)).map(|t| t.params.len()), Some(1));
    assert!(registry.lookup_wasm(index(2)).is_none());
}

#[test]
fn later_trampoline_of_a_shared_index_is_kept() {
    let module = sample_module(vec![0xa0, 0xb0, 0xc0]);
    let mut registry = SignatureRegistry::default();
    let pending = module.instantiate(&mut registry);
    assert_eq!(pending.trampolines.len(), 2);
    assert_eq!(pending.trampolines.get(&index(0)), Some(&0xc0));
    assert_eq!(pending.trampolines.get(&index(1)), Some(&0xb0));
}

#[test]
fn signatures_without_trampoline_are_registered_all_the_same() {
    let module = sample_module(vec![0xa0]);
    let mut registry = SignatureRegistry::default();
    let pending = module.instantiate(&mut registry);
    assert_eq!(pending.signatures.values().len(), 3);
    assert_eq!(pending.trampolines.len(), 1);
    assert_eq!(pending.trampolines.get(&index(0)), Some(&0xa0));
}

#[test]
fn instances_agree() {
    let module = sample_module(vec![0xa0, 0xb0, 0xc0]);
    let mut registry = SignatureRegistry::default();
    let other = WasmFuncType {
        params: Box::new([WasmType::F64]),
        returns: Box::new([]),
    };
    let native = module.module().local.signatures.values().next().unwrap().1.clone();
    assert_eq!(registry.register(other.clone(), native.clone()), index(0));
    let first = module.instantiate(&mut registry);
    assert_eq!(first.signatures.values(), vec![index(1), index(2), index(1)]);
    let another = WasmFuncType {
        params: Box::new([WasmType::F32]),
        returns: Box::new([]),
    };
    assert_eq!(registry.register(another, native), index(3));
    let second = module.instantiate(&mut registry);
    assert_eq!(second.signatures.values(), first.signatures.values());
    assert_eq!(second.trampolines, first.trampolines);
    assert_eq!(second.finished_functions.values(), first.finished_functions.values());
    assert!(registry.lookup_wasm(index(4)).is_none());
}

#[test]
fn surplus_trampolines_are_refused() {
    let module = sample_module(vec![1, 2, 3, 4]);
    let mut registry = SignatureRegistry::default();
    assert!(module.try_instantiate(&mut registry).is_none());
    assert!(registry.lookup_wasm(index(0)).is_none());
    let module = sample_module(vec![1, 2, 3]);
    let pending = module.try_instantiate(&mut registry).unwrap();
    assert_eq!(pending.trampolines.get(&index(0)), Some(&3));
}

#[test]
fn failing_imports_fail_the_instance() {
    let module = sample_module(vec![]);
    let mut registry = SignatureRegistry::default();
    let pending = module.instantiate(&mut registry);
    match pending.resolved(Err(InstantiationError::Link(LinkError("no m.g".to_string())))) {
        Err(InstantiationError::Link(LinkError(message))) => assert_eq!(message, "no m.g"),
        _ => panic!("linked"),
    }
    let pending = module.instantiate(&mut registry);
    let parts = match pending.resolved(Ok(Imports::none())) {
        Ok(parts) => parts,
        Err(error) => panic!("{:?}", error),
    };
    assert_eq!(parts.imports.functions.len(), 0);
    assert_eq!(parts.pending.finished_functions.values(), vec![(0x1000, 16), (0x1010, 32)]);
}

#[test]
fn module_can_be_changed_unless_shared() {
    let mut module = sample_module(vec![]);
    match module.module_mut() {
        Some(inner) => inner.name = Some("sample".to_string()),
        None => panic!("shared"),
    }
    assert_eq!(module.module().name, Some("sample".to_string()));
    let shared = module.module().clone();
    assert!(module.module_mut().is_none());
    assert_eq!(shared.name, Some("sample".to_string()));
}

#[test]
fn image_is_shown_to_the_profiler() {
    let data = sample();
    let translated = CompiledModule::new(&compiler(false), &data).unwrap_or_else(|e| panic!("{:?}", e));
    let stage = published(translated, compilation(vec![], Some(vec![7, 8, 9])), vec![]);
    assert_eq!(stage.dbg_image(), Some(&[7u8, 8, 9][..]));
    assert_eq!(stage.module().local.signatures.len(), 3);
    assert_eq!(stage.finished_functions(), &vec![(0x1000, 16), (0x1010, 32)]);
    let module = stage.profiled();
    assert!(module.jit_code_ranges().is_empty());
    assert_eq!(std::sync::Arc::strong_count(module.code()), 1);
}

#[test]
fn debug_information_is_read_where_asked_for() {
    let data = sample();
    let translated = CompiledModule::new(&compiler(true), &data).unwrap_or_else(|e| panic!("{:?}", e));
    let debug_data = translated.debug_data.unwrap();
    assert_eq!(debug_data.wasm_file.imported_func_count, 0);
    let body = custom(".debug_types", &[]);
    let data = binary(&[(0, &body)]);
    assert!(CompiledModule::new(&compiler(false), &data).is_ok());
    match CompiledModule::new(&compiler(true), &data) {
        Err(SetupError::DebugInfo(error)) => {
            assert_eq!(error.to_string(), "Unexpected .debug_types");
        }
        _ => panic!("read"),
    }
}

#[test]
fn translation_errors_are_compile_errors() {
    let shared_memory = binary(&[(5, &[1, 3, 1, 1])]);
    match CompiledModule::new(&compiler(true), &shared_memory) {
        Err(SetupError::Compile(CompileError::Wasm(WasmError::Unsupported(message)))) => {
            assert_eq!(message, "shared memories");
        }
        _ => panic!("translated"),
    }
    let body = custom("webidl-bindings", &[]);
    match CompiledModule::new(&compiler(false), &binary(&[(0, &body)])) {
        Err(SetupError::Compile(CompileError::Wasm(WasmError::Unsupported(_)))) => {}
        _ => panic!("translated"),
    }
}

/// The message and the offset with which a binary is refused as invalid.
fn refused(data: &[u8]) -> (String, usize) {
    match CompiledModule::new(&compiler(true), data) {
        Err(SetupError::Compile(CompileError::Wasm(WasmError::InvalidWebAssembly {
            message,
            offset,
        }))) => (message, offset),
        _ => panic!("accepted"),
    }
}

/// The message with which a binary is refused as unsupported.
fn unsupported(data: &[u8]) -> String {
    match CompiledModule::new(&compiler(true), data) {
        Err(SetupError::Compile(CompileError::Wasm(WasmError::Unsupported(message)))) => message,
        _ => panic!("accepted"),
    }
}

/// What translation itself makes of a binary.
fn outcome(data: &[u8]) -> Result<(), cranelift_wasm::WasmError> {
    let config = TargetFrontendConfig {
        default_call_conv: CallConv::SystemV,
        pointer_width: target_lexicon::PointerWidth::U64,
    };
    let tunables = wasmtime_environ::Tunables::default();
    ModuleEnvironment::new(config, &tunables).translate(data).map(|_| ())
}

/// A binary with a section of each kind.
fn full() -> Vec<u8> {
    binary(&[
        (1, &[2, 0x60, 0, 0, 0x60, 1, 0x7f, 1, 0x7c]),
        (2, &[4, 1, b'a', 1, b'f', 0, 0, 1, b'a', 1, b't', 1, 0x70, 0, 1, 1, b'a', 1, b'm', 2, 1, 1, 2,
            1, b'a', 1, b'g', 3, 0x7f, 0]),
        (3, &[2, 0, 1]),
        (4, &[1, 0x70, 0, 3]),
        (6, &[2, 0x7f, 0, 0x23, 0, 0x0b, 0x70, 0, 0xd2, 1, 0x0b]),
        (7, &[1, 1, b'e', 0, 1]),
        (8, &[1]),
        (9, &[2, 0, 0x41, 0, 0x0b, 1, 1, 1, 0, 1, 2]),
        (12, &[2]),
        (10, &[2, 2, 0, 0x0b, 6, 1, 1, 0x7f, 0x44, 0x0b, 0x0b]),
        (11, &[2, 0, 0x41, 3, 0x0b, 1, 9, 1, 1, 8]),
        (0, &[4, b'n', b'a', b'm', b'e', 1, 4, 1, 0, 1, b'f']),
    ])
}

#[test]
fn malformed_binaries_are_refused() {
    let mut bad_version = binary(&[]);
    bad_version[4] = 2;
    assert_eq!(refused(&bad_version), ("Bad version number".to_string(), 4));
    assert_eq!(refused(b"not wasm"), ("Bad magic number".to_string(), 0));
    let bad_import = binary(&[(2, &[1, 1, b'm', 1, b'g', 9, 0x7f, 0])]);
    match outcome(&bad_import) {
        Err(cranelift_wasm::WasmError::InvalidWebAssembly { message, offset }) => {
            assert_eq!(refused(&bad_import), (message, offset));
        }
        _ => panic!("translated"),
    }
}

#[test]
fn truncated_binaries_are_refused_as_by_translation() {
    for whole in [sample(), full()] {
        for len in 0..whole.len() {
            let data = &whole[..len];
            match outcome(data) {
                Ok(_) => assert!(CompiledModule::new(&compiler(false), data).is_ok()),
                Err(cranelift_wasm::WasmError::InvalidWebAssembly { message, offset }) => {
                    assert_eq!(refused(data), (message, offset));
                }
                Err(error) => panic!("{:?}", error),
            }
        }
    }
}

#[test]
fn any_changed_byte_is_survived() {
    for whole in [sample(), full()] {
        assert!(CompiledModule::new(&compiler(true), &whole).is_ok());
        for i in 0..whole.len() {
            for byte in 0..=255u8 {
                let mut data = whole.clone();
                data[i] = byte;
                let accepted = CompiledModule::new(&compiler(false), &data).is_ok();
                assert!(accepted || CompiledModule::new(&compiler(true), &data).is_err());
            }
        }
    }
}

#[test]
fn binaries_that_translate_need_not_be_valid() {
    let unknown_export = binary(&[(7, &[2, 1, b'f', 0, 9, 1, b'f', 2, 7])]);
    assert!(CompiledModule::new(&compiler(true), &unknown_export).is_ok());
    let out_of_order = binary(&[(5, &[1, 0, 1]), (1, &[1, 0x60, 0, 0]), (4, &[1, 0x70, 0, 1])]);
    assert!(CompiledModule::new(&compiler(true), &out_of_order).is_ok());
    let late_import = binary(&[(5, &[1, 0, 1]), (2, &[1, 1, b'm', 1, b'g', 3, 0x7f, 0])]);
    assert!(CompiledModule::new(&compiler(true), &late_import).is_ok());
    let reference = binary(&[
        (1, &[1, 0x60, 0, 0]),
        (3, &[1, 0]),
        (5, &[1, 0, 1]),
        (10, &[1, 2, 0, 0x0b]),
        (11, &[1, 0, 0xd2, 0, 0x0b, 0]),
    ]);
    assert_eq!(
        unsupported(&reference),
        "unsupported init expr in data section: RefFunc { function_index: 0 }"
    );
}

#[test]
fn unsupported_binaries_are_refused() {
    let large_memory = binary(&[(5, &[1, 0, 0x81, 0x80, 0x04])]);
    assert_eq!(unsupported(&large_memory), "unsupported memory");
    let mut settings = compiler(false);
    settings.tunables.static_memory_bound = 0xffff;
    assert!(CompiledModule::new(&settings, &large_memory).is_ok());
    let inverted = binary(&[(5, &[1, 1, 9, 8])]);
    assert!(CompiledModule::new(&compiler(false), &inverted).is_ok());
    settings.tunables.static_memory_bound = 8;
    assert!(CompiledModule::new(&settings, &inverted).is_err());
    assert_eq!(unsupported(&binary(&[(1, &[1, 0x60, 1, 0x40, 0])])), "unsupported type");
    let bare_import = binary(&[(2, &[1, 1, b'm', 1, 0xc0, 3, 0x7f, 0])]);
    assert_eq!(unsupported(&bare_import), "import without a field name");
    let late_import = binary(&[(5, &[1, 0, 1]), (2, &[1, 1, b'm', 1, b'n', 2, 0, 1])]);
    assert_eq!(unsupported(&late_import), "unsupported import");
    assert_eq!(unsupported(&binary(&[(2, &[1, 1, b'm', 1, b'n', 5, 0])])), "unsupported import");
    let last = [1, 0xff, 0xff, 0xff, 0xff, 0x0f];
    assert_eq!(unsupported(&binary(&[(3, &last)])), "unsupported function");
    let global = [1, 0x7f, 0, 0x23, 0xff, 0xff, 0xff, 0xff, 0x0f, 0x0b];
    assert_eq!(unsupported(&binary(&[(6, &global)])), "unsupported global");
    assert_eq!(unsupported(&binary(&[(7, &[1, 1, b'x', 5, 0])])), "unsupported export");
    let start = [0xff, 0xff, 0xff, 0xff, 0x0f];
    assert_eq!(unsupported(&binary(&[(8, &start)])), "unsupported start section");
    assert_eq!(unsupported(&binary(&[(8, &[0]), (8, &[0])])), "unsupported start section");
    let passive = binary(&[(9, &[1, 1, 0, 0]), (9, &[1, 1, 0, 0])]);
    assert_eq!(unsupported(&passive), "unsupported element segment");
    let late = binary(&[(9, &[2, 1, 0, 0, 0, 0x41, 0, 0x0b, 0]), (9, &[2, 3, 0, 0, 1, 0, 0])]);
    assert!(CompiledModule::new(&compiler(true), &late).is_ok());
    let later = binary(&[(9, &[1, 1, 0, 0]), (9, &[0]), (9, &[2, 3, 0, 0, 1, 0, 0])]);
    assert!(CompiledModule::new(&compiler(true), &later).is_ok());
    let items = [1, 0, 0x41, 0, 0x0b, 1, 0xff, 0xff, 0xff, 0xff, 0x0f];
    assert_eq!(unsupported(&binary(&[(9, &items)])), "unsupported element segment");
    let table = [1, 2, 0xff, 0xff, 0xff, 0xff, 0x0f, 0x41, 0, 0x0b, 0, 0];
    assert_eq!(unsupported(&binary(&[(9, &table)])), "unsupported element segment");
    let offset = [1, 0, 0x23, 0xff, 0xff, 0xff, 0xff, 0x0f, 0x0b, 0];
    assert_eq!(unsupported(&binary(&[(11, &offset)])), "unsupported data segment");
    let passive = binary(&[(11, &[1, 1, 0]), (11, &[1, 1, 0])]);
    assert_eq!(unsupported(&passive), "unsupported data segment");
    let late = binary(&[(11, &[1, 0, 0x41, 0, 0x0b, 0]), (11, &[1, 1, 0])]);
    assert!(CompiledModule::new(&compiler(true), &late).is_ok());
    assert_eq!(unsupported(&binary(&[(100, &[0])])), "module linking not implemented yet");
    assert_eq!(unsupported(&binary(&[(99, &[0])])), "unknown section");
}

#[test]
fn earlier_errors_of_translation_come_first() {
    let shared = (5u8, &[1u8, 3, 1, 1][..]);
    let unknown = (99u8, &[0u8][..]);
    assert_eq!(unsupported(&binary(&[shared, unknown])), "shared memories");
    assert_eq!(unsupported(&binary(&[unknown, shared])), "unknown section");
    let mut truncated = binary(&[shared]);
    truncated.extend_from_slice(&[1, 9, 1]);
    assert_eq!(unsupported(&truncated), "shared memories");
    let body = custom("wasm-interface-types", &[]);
    assert!(unsupported(&binary(&[(0, &body), unknown])).starts_with("Support for interface types"));
    let global = (6u8, &[1u8, 0x7f, 0, 0x01, 0x0b][..]);
    assert_eq!(
        unsupported(&binary(&[global, unknown])),
        "unsupported init expr in global section: Nop"
    );
    let elements = (9u8, &[1u8, 5, 0x6f, 0][..]);
    assert_eq!(
        unsupported(&binary(&[elements, unknown])),
        "unsupported table element type: ExternRef"
    );
    let table = (4u8, &[1u8, 0x40, 0, 1][..]);
    assert_eq!(refused(&binary(&[table, unknown])).0, "unexpected value type");
    let short = (3u8, &[2u8, 0][..]);
    assert_eq!(refused(&binary(&[short, unknown])).0, "Unexpected EOF");
}

#[test]
fn debug_sections_do_not_matter_where_not_asked_for() {
    let plain = binary(&[(12, &[12])]);
    let body = custom(".debug_x", &[]);
    let appended = binary(&[(12, &[12]), (0, &body)]);
    let types = custom(".debug_types", &[1, 2, 3]);
    let inserted = binary(&[(0, &types), (12, &[12])]);
    for data in [&plain, &appended, &inserted] {
        match CompiledModule::new(&compiler(false), data) {
            Ok(translated) => assert!(translated.debug_data.is_none()),
            Err(error) => panic!("{:?}", error),
        }
    }
    let refused_plain = binary(&[(6, &[1, 0x7f, 0, 0x23, 0xff, 0xff, 0xff, 0xff, 0x0f, 0x0b])]);
    let refused_debug = binary(&[
        (0, &types),
        (6, &[1, 0x7f, 0, 0x23, 0xff, 0xff, 0xff, 0xff, 0x0f, 0x0b]),
    ]);
    assert_eq!(unsupported(&refused_plain), unsupported(&refused_debug));
}

#[test]
fn function_bodies_are_left_to_the_compiler() {
    let data = binary(&[
        (1, &[1, 0x60, 0, 0]),
        (3, &[1, 0]),
        (10, &[1, 3, 0, 0xff, 0xff]),
    ]);
    let translated = CompiledModule::new(&compiler(true), &data).unwrap_or_else(|e| panic!("{:?}", e));
    assert_eq!(translated.translation.function_body_inputs.len(), 1);
    assert_eq!(
        translated.translation.function_body_inputs.values().next().unwrap().data,
        &[0, 0xff, 0xff]
    );
    assert_eq!(translated.debug_data.unwrap().wasm_file.funcs.len(), 1);
}

#[test]
fn bodies_need_types_for_debug_information() {
    let data = binary(&[(1, &[1, 0x60, 0, 0]), (3, &[1, 1]), (10, &[1, 2, 0, 0x0b])]);
    assert!(CompiledModule::new(&compiler(false), &data).is_ok());
    assert_eq!(unsupported(&data), "function body without a type");
    let without_body = binary(&[(1, &[1, 0x60, 0, 0]), (3, &[1, 1])]);
    assert!(CompiledModule::new(&compiler(true), &without_body).is_ok());
}

#[test]
fn modules_of_one_binary_share_signatures() {
    let first = sample_module(vec![0xa0, 0xb0, 0xc0]);
    let data = sample();
    let mut settings = compiler(true);
    settings.tunables.interruptable = true;
    let translated = CompiledModule::new(&settings, &data).unwrap_or_else(|e| panic!("{:?}", e));
    let second = published(translated, compilation(vec![1, 2], None), vec![]).profiled();
    let mut registry = SignatureRegistry::default();
    let one = first.instantiate(&mut registry);
    let other = second.instantiate(&mut registry);
    assert_eq!(one.signatures.values(), other.signatures.values());
    assert!(registry.lookup_wasm(index(2)).is_none());
    assert_eq!(other.trampolines.get(&index(0)), Some(&1));
}

#[test]
fn compile_error_ends_the_setup() {
    let data = sample();
    let failures = vec![
        SetupError::from(CompileError::Codegen("too large".to_string())),
        SetupError::from(InstantiationError::Resource("no memory".to_string())),
        SetupError::from(anyhow::Error::msg("bad line table")),
    ];
    for failure in failures {
        let expected = format!("{:?}", failure);
        let translated = CompiledModule::new(&compiler(false), &data).unwrap_or_else(|e| panic!("{:?}", e));
        match UnlinkedModule::new(translated, Err(failure)) {
            Err(error) => assert_eq!(format!("{:?}", error), expected),
            Ok(_) => panic!("compiled"),
        }
    }
}

#[test]
fn setup_errors_say_what_went_wrong() {
    let error = SetupError::Validate("no magic".to_string());
    assert_eq!(error.message(), "Validation error: no magic");
    let error = SetupError::from(CompileError::DebugInfoNotSupported);
    assert!(matches!(error, SetupError::Compile(CompileError::DebugInfoNotSupported)));
    assert_eq!(error.message(), "WebAssembly failed to compile");
    let error = SetupError::from(InstantiationError::Trap(Trap::oom()));
    assert!(matches!(error, SetupError::Instantiate(InstantiationError::Trap(_))));
    assert_eq!(error.message(), "Instantiation failed during setup");
    let error = SetupError::from(anyhow::Error::msg("bad"));
    assert!(matches!(error, SetupError::DebugInfo(_)));
    assert_eq!(error.message(), "Debug information error");
}

#[test]
fn compile_and_instantiation_errors_say_what_went_wrong() {
    let error = CompileError::Wasm(WasmError::InvalidWebAssembly {
        message: "x".to_string(),
        offset: 1,
    });
    assert_eq!(error.message(), "WebAssembly translation error");
    assert_eq!(CompileError::Wasm(WasmError::ImplLimitExceeded).message(), "WebAssembly translation error");
    assert_eq!(CompileError::Wasm(WasmError::User("u".to_string())).message(), "WebAssembly translation error");
    assert_eq!(CompileError::Codegen("y".to_string()).message(), "Compilation error: y");
    assert_eq!(
        CompileError::DebugInfoNotSupported.message(),
        "Debug info is not supported with this configuration"
    );
    assert_eq!(
        InstantiationError::Resource("memory".to_string()).message(),
        "Insufficient resources: memory"
    );
    assert_eq!(
        InstantiationError::Link(LinkError("z".to_string())).message(),
        "Failed to link module"
    );
    assert_eq!(InstantiationError::Trap(Trap::oom()).message(), "Trap occurred during instantiation");
}
