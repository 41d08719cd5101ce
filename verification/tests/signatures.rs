use cranelift_wasm::{WasmFuncType, WasmType};
use module_setup::entity::{
    FinishedFunctions, FunctionEntries, ModuleAddressMap, SharedSignatures, Trampolines, Traps,
};
use module_setup::error::WasmError;
use module_setup::payload::{Contents, FunctionEntry, ImportEntry, Mark, MemoryLimits};
use module_setup::support::{check_binary, Context, Entry, Verdict};
use module_setup::signatures::{
    index_trampolines, register_signatures, signature_count, try_register_signatures,
};
use wasmparser::ImportSectionEntryType;
use wasmtime_environ::ir::{Signature, SourceLoc, TrapCode};
use wasmtime_environ::isa::CallConv;
use wasmtime_environ::{FunctionAddressMap, Module, TrapInformation};
use wasmtime_runtime::{SignatureRegistry, VMSharedSignatureIndex};

fn func_type(params: &[WasmType]) -> WasmFuncType {
    WasmFuncType {
        params: params.to_vec().into_boxed_slice(),
        returns: Box::new([]),
    }
}

fn native(call_conv: CallConv) -> Signature {
    Signature {
        params: vec![],
        returns: vec![],
        call_conv,
    }
}

fn index(number: u32) -> VMSharedSignatureIndex {
    VMSharedSignatureIndex::new(number)
}

#[test]
fn registration_numbers_types_in_order() {
    let mut module = Module::new();
    for params in [&[WasmType::I32][..], &[], &[WasmType::I32], &[WasmType::I64]] {
        module.local.signatures.push((func_type(params), native(CallConv::SystemV)));
    }
    assert_eq!(signature_count(&module), 4);
    let mut registry = SignatureRegistry::default();
    let indices = register_signatures(&module, &mut registry);
    assert_eq!(indices, vec![index(0), index(1), index(0), index(2)]);
    assert_eq!(registry.lookup_wasm(index(0)), Some(func_type(&[WasmType::I32])));
    assert_eq!(registry.lookup_wasm(index(1)), Some(func_type(&[])));
    assert_eq!(registry.lookup_wasm(index(2)), Some(func_type(&[WasmType::I64])));
    assert_eq!(register_signatures(&module, &mut registry), indices);
    assert!(registry.lookup_wasm(index(3)).is_none());
}

#[test]
fn first_native_signature_of_a_type_is_kept() {
    let mut module = Module::new();
    module.local.signatures.push((func_type(&[]), native(CallConv::SystemV)));
    module.local.signatures.push((func_type(&[]), native(CallConv::Fast)));
    let mut registry = SignatureRegistry::default();
    assert_eq!(register_signatures(&module, &mut registry), vec![index(0), index(0)]);
    assert_eq!(registry.lookup_native(index(0)), Some(native(CallConv::SystemV)));
}

#[test]
fn indices_outlast_other_modules() {
    let mut first = Module::new();
    first.local.signatures.push((func_type(&[WasmType::F32]), native(CallConv::SystemV)));
    let mut second = Module::new();
    second.local.signatures.push((func_type(&[WasmType::F64]), native(CallConv::SystemV)));
    second.local.signatures.push((func_type(&[WasmType::F32]), native(CallConv::SystemV)));
    let mut registry = SignatureRegistry::default();
    assert_eq!(register_signatures(&first, &mut registry), vec![index(0)]);
    assert_eq!(register_signatures(&second, &mut registry), vec![index(1), index(0)]);
    assert_eq!(register_signatures(&first, &mut registry), vec![index(0)]);
}

#[test]
fn trying_to_register_is_registering_where_there_is_room() {
    let mut module = Module::new();
    for params in [&[WasmType::I32][..], &[], &[WasmType::I32]] {
        module.local.signatures.push((func_type(params), native(CallConv::SystemV)));
    }
    let mut registry = SignatureRegistry::default();
    let indices = try_register_signatures(&module, &mut registry);
    assert_eq!(indices, Some(vec![index(0), index(1), index(0)]));
    assert_eq!(try_register_signatures(&module, &mut registry), indices);
    assert!(registry.lookup_wasm(index(2)).is_none());
    assert_eq!(try_register_signatures(&Module::new(), &mut registry), Some(vec![]));
}

#[test]
fn trampolines_are_found_by_shared_index() {
    let indices = vec![index(4), index(2), index(4), index(7)];
    let map = index_trampolines(&indices, &vec![10, 20, 30]);
    assert_eq!(map.len(), 2);
    assert_eq!(map.get(&index(4)), Some(&30));
    assert_eq!(map.get(&index(2)), Some(&20));
    assert_eq!(map.get(&index(7)), None);
}

#[test]
fn maps_keep_their_values_in_order() {
    let signatures = SharedSignatures::from_values(vec![index(3), index(1)]);
    assert_eq!(signatures.values(), vec![index(3), index(1)]);
    assert_eq!(signatures.copy().values(), vec![index(3), index(1)]);
    assert_eq!(Trampolines::from_values(vec![5, 4]).values(), vec![5, 4]);
    let functions = FinishedFunctions::from_values(vec![(1, 2), (3, 4)]);
    assert_eq!(functions.values(), vec![(1, 2), (3, 4)]);
    assert_eq!(functions.copy().values(), vec![(1, 2), (3, 4)]);
    let entries = FunctionEntries::from_values(vec![9, 8]);
    assert_eq!(entries.values(), vec![9, 8]);
    assert_eq!(entries.copy().values(), vec![9, 8]);
}

#[test]
fn maps_of_functions_keep_their_values_in_order() {
    let trap = |code_offset: u32| TrapInformation {
        code_offset,
        source_loc: SourceLoc::new(1),
        trap_code: TrapCode::StackOverflow,
    };
    let traps = Traps::from_values(vec![vec![trap(7), trap(8)], vec![]]);
    let values = traps.values();
    assert_eq!(values.len(), 2);
    assert_eq!(values[0].iter().map(|t| t.code_offset).collect::<Vec<u32>>(), vec![7, 8]);
    assert!(values[1].is_empty());
    let map = |body_len: usize| FunctionAddressMap {
        instructions: vec![],
        start_srcloc: SourceLoc::new(1),
        end_srcloc: SourceLoc::new(2),
        body_offset: 0,
        body_len,
    };
    let maps = ModuleAddressMap::from_values(vec![map(5), map(6)]);
    assert_eq!(maps.values().iter().map(|m| m.body_len).collect::<Vec<usize>>(), vec![5, 6]);
}

#[test]
fn binaries_are_checked_before_translation() {
    assert!(check_binary(9, &[0x00, 0x61, 0x73, 0x6d, 0x01, 0x00, 0x00, 0x00]).is_ok());
    assert!(check_binary(9, b"not wasm").is_ok());
    let bare = [
        0x00, 0x61, 0x73, 0x6d, 0x01, 0x00, 0x00, 0x00, 2, 8, 1, 1, b'm', 1, 0xc0, 3, 0x7f, 0,
    ];
    match check_binary(9, &bare) {
        Err(WasmError::Unsupported(message)) => assert_eq!(message, "import without a field name"),
        _ => panic!("accepted"),
    }
}

fn contents(mark: Mark) -> Contents<'static> {
    Contents {
        mark,
        name: None,
        types: None,
        imports: None,
        functions: None,
        tables: None,
        memories: None,
        globals: None,
        exports: None,
        segments: None,
        data: None,
    }
}

fn continues(verdict: Verdict) -> bool {
    matches!(verdict, Verdict::Continue)
}

fn refuses(verdict: Verdict) -> bool {
    matches!(verdict, Verdict::Refuse(_))
}

#[test]
fn memories_are_within_the_bound_of_static_ones() {
    let judge = |bound: u32, initial: u32, maximum: Option<u32>, shared: bool| {
        MemoryLimits { initial, maximum, shared }.judge(0, &Context::new(bound))
    };
    assert!(continues(judge(10, 10, Some(10), false)));
    assert!(refuses(judge(10, 11, Some(10), false)));
    assert!(matches!(judge(10, 11, Some(10), true), Verdict::Stop));
    assert!(continues(judge(10, 12, Some(11), false)));
    assert!(continues(judge(10, 70000, None, false)));
    assert!(continues(judge(0x10000, 0x10000, None, false)));
    assert!(refuses(judge(0x10000, 0x10001, None, false)));
}

#[test]
fn payloads_change_the_context() {
    let mut functions = contents(Mark::Plain);
    functions.functions = Some(vec![Some(FunctionEntry { type_index: 3 })]);
    assert!(continues(functions.judge(&Context::new(10))));
    let after = functions.next(Context::new(10));
    assert!(after.functions && !after.tables && !after.memories && !after.globals && !after.start);
    let mut imports = contents(Mark::Plain);
    let ty = ImportSectionEntryType::Function(0);
    imports.imports = Some(vec![Some(ImportEntry { named: true, ty })]);
    assert!(continues(imports.judge(&Context::new(10))));
    assert!(refuses(imports.judge(&after)));
    assert!(imports.next(after).functions);
    let start = contents(Mark::Start(0));
    assert!(continues(start.judge(&Context::new(10))));
    assert!(refuses(start.judge(&start.next(Context::new(10)))));
    functions.functions = Some(vec![]);
    assert!(!functions.next(Context::new(10)).functions);
    functions.functions = Some(vec![None]);
    assert!(matches!(functions.judge(&Context::new(10)), Verdict::Stop));
    let mut types = contents(Mark::Plain);
    types.types = Some(vec![None]);
    assert!(refuses(types.judge(&Context::new(10))));
    let mut named = contents(Mark::Plain);
    named.name = Some("webidl-bindings".to_string());
    assert!(matches!(named.judge(&Context::new(10)), Verdict::Stop));
    named.name = Some("producers".to_string());
    assert!(continues(named.judge(&Context::new(10))));
}
