use std::sync::Arc;
use wasm_component::artifacts::describe;
use wasm_component::{
    AllCallFunc, CodeMemory, Component, ComponentError, Engine, FunctionLoc, GlobalInitializer,
    InstantiateModule, ResourcesRequired, RuntimeImportIndex, StaticModuleIndex, TrampolineIndex,
    TypeComponentIndex,
};
use wasmtime_environ::component as env;
use wasmtime_environ::{
    CompiledModuleInfo, Memory, MemoryPlan, MemoryStyle, Metadata, PrimaryMap, Table, TablePlan,
    TableStyle, WasmRefType,
};
use wasmtime_runtime::MmapVec;

fn env_loc(start: u32, length: u32) -> wasmtime_environ::FunctionLoc {
    wasmtime_environ::FunctionLoc { start, length }
}

fn env_module(
    imported_memories: usize,
    memories: &[u64],
    imported_tables: usize,
    tables: &[u32],
) -> CompiledModuleInfo {
    let mut module = wasmtime_environ::Module::new();
    module.num_imported_memories = imported_memories;
    for minimum in memories {
        module.memory_plans.push(MemoryPlan {
            memory: Memory { minimum: *minimum, maximum: None, shared: false, memory64: false },
            style: MemoryStyle::Dynamic { reserve: 0 },
            pre_guard_size: 0,
            offset_guard_size: 0,
        });
    }
    module.num_imported_tables = imported_tables;
    for minimum in tables {
        module.table_plans.push(TablePlan {
            table: Table { wasm_ty: WasmRefType::FUNCREF, minimum: *minimum, maximum: None },
            style: TableStyle::CallerChecksSignature,
        });
    }
    CompiledModuleInfo {
        module,
        funcs: PrimaryMap::new(),
        func_names: Vec::new(),
        wasm_to_native_trampolines: Vec::new(),
        meta: Metadata {
            native_debug_info_present: false,
            has_unparsed_debuginfo: false,
            code_section_offset: 0,
            has_wasm_debuginfo: false,
            dwarf: Vec::new(),
        },
    }
}

fn extract_memory() -> env::GlobalInitializer {
    env::GlobalInitializer::ExtractMemory(env::ExtractMemory {
        index: env::RuntimeMemoryIndex::from_u32(0),
        export: env::CoreExport {
            instance: env::RuntimeInstanceIndex::from_u32(0),
            item: env::ExportItem::Index(wasmtime_environ::MemoryIndex::from_u32(0)),
        },
    })
}

fn core_def() -> env::CoreDef {
    env::CoreDef::InstanceFlags(env::RuntimeComponentInstanceIndex::from_u32(0))
}

/// A record with a plan of eight steps, two trampolines, a destructor bridge
/// and two modules.
fn record() -> env::ComponentArtifacts {
    let mut component = env::Component::default();
    component.initializers = vec![
        env::GlobalInitializer::InstantiateModule(env::InstantiateModule::Static(
            wasmtime_environ::StaticModuleIndex::from_u32(1),
            Box::new([]),
        )),
        env::GlobalInitializer::LowerImport {
            index: env::LoweredIndex::from_u32(0),
            import: env::RuntimeImportIndex::from_u32(0),
        },
        extract_memory(),
        env::GlobalInitializer::ExtractRealloc(env::ExtractRealloc {
            index: env::RuntimeReallocIndex::from_u32(0),
            def: core_def(),
        }),
        env::GlobalInitializer::ExtractPostReturn(env::ExtractPostReturn {
            index: env::RuntimePostReturnIndex::from_u32(0),
            def: core_def(),
        }),
        env::GlobalInitializer::Resource(env::Resource {
            index: env::DefinedResourceIndex::from_u32(0),
            rep: wasmtime_environ::WasmValType::I32,
            dtor: None,
            instance: env::RuntimeComponentInstanceIndex::from_u32(0),
        }),
        env::GlobalInitializer::InstantiateModule(env::InstantiateModule::Static(
            wasmtime_environ::StaticModuleIndex::from_u32(0),
            Box::new([]),
        )),
        env::GlobalInitializer::InstantiateModule(env::InstantiateModule::Static(
            wasmtime_environ::StaticModuleIndex::from_u32(1),
            Box::new([]),
        )),
    ];
    let mut trampolines = PrimaryMap::new();
    trampolines.push(env::AllCallFunc {
        wasm_call: env_loc(0, 4),
        array_call: env_loc(4, 5),
        native_call: env_loc(9, 6),
    });
    trampolines.push(env::AllCallFunc {
        wasm_call: env_loc(15, 1),
        array_call: env_loc(16, 2),
        native_call: env_loc(18, 3),
    });
    let mut static_modules = PrimaryMap::new();
    static_modules.push(env_module(1, &[50, 1, 6], 0, &[]));
    static_modules.push(env_module(0, &[2], 1, &[9, 3, 4]));
    env::ComponentArtifacts {
        ty: env::TypeComponentIndex::from_u32(11),
        info: env::CompiledComponentInfo {
            component,
            trampolines,
            resource_drop_wasm_to_native_trampoline: Some(env_loc(21, 7)),
        },
        types: env::ComponentTypes::default(),
        static_modules,
    }
}

/// An image of 32 bytes of text followed by the metadata.
fn code_with(metadata: &[u8]) -> CodeMemory {
    let mut image: Vec<u8> = (0..32u8).collect();
    image.extend_from_slice(metadata);
    let mmap = MmapVec::from_slice(&image).unwrap();
    CodeMemory::new(mmap, 0..32, 32..image.len()).unwrap()
}

fn check_component(c: &Component) {
    assert_eq!(c.ty(), TypeComponentIndex(11));
    let info = c.env_component();
    assert_eq!(
        info.initializers,
        vec![
            GlobalInitializer::InstantiateModule(InstantiateModule::Static(StaticModuleIndex(1))),
            GlobalInitializer::LowerImport,
            GlobalInitializer::ExtractMemory,
            GlobalInitializer::ExtractRealloc,
            GlobalInitializer::ExtractPostReturn,
            GlobalInitializer::Resource,
            GlobalInitializer::InstantiateModule(InstantiateModule::Static(StaticModuleIndex(0))),
            GlobalInitializer::InstantiateModule(InstantiateModule::Static(StaticModuleIndex(1))),
        ]
    );
    assert_eq!(
        info.trampolines,
        vec![
            AllCallFunc {
                wasm_call: FunctionLoc { start: 0, length: 4 },
                array_call: FunctionLoc { start: 4, length: 5 },
                native_call: FunctionLoc { start: 9, length: 6 },
            },
            AllCallFunc {
                wasm_call: FunctionLoc { start: 15, length: 1 },
                array_call: FunctionLoc { start: 16, length: 2 },
                native_call: FunctionLoc { start: 18, length: 3 },
            },
        ]
    );
    assert_eq!(
        info.resource_drop_wasm_to_native_trampoline,
        Some(FunctionLoc { start: 21, length: 7 })
    );
    let first = c.static_module(StaticModuleIndex(0)).env_module();
    assert_eq!(first.num_imported_memories, 1);
    assert_eq!(first.memory_minimums, vec![50, 1, 6]);
    assert_eq!(first.num_imported_tables, 0);
    assert_eq!(first.table_minimums, Vec::<u32>::new());
    let second = c.static_module(StaticModuleIndex(1)).env_module();
    assert_eq!(second.num_imported_memories, 0);
    assert_eq!(second.memory_minimums, vec![2]);
    assert_eq!(second.num_imported_tables, 1);
    assert_eq!(second.table_minimums, vec![9, 3, 4]);
    assert_eq!(
        c.resources_required(),
        Some(ResourcesRequired {
            num_memories: 4,
            max_initial_memory_size: Some(6),
            num_tables: 4,
            max_initial_table_size: Some(4),
        })
    );
    assert_eq!(c.trampoline_ptrs(TrampolineIndex(1)).native_call, c.image_range().start + 0x12);
}

#[test]
fn describe_copies_the_record() {
    let d = describe(&record());
    assert_eq!(d.ty, TypeComponentIndex(11));
    assert_eq!(d.info.initializers.len(), 8);
    assert_eq!(d.info.trampolines.len(), 2);
    assert_eq!(d.static_modules.len(), 2);
    assert_eq!(d.static_modules[0].memory_minimums, vec![50, 1, 6]);
}

#[test]
fn describe_tells_an_imported_module() {
    let mut r = record();
    r.info.component.initializers.push(env::GlobalInitializer::InstantiateModule(
        env::InstantiateModule::Import(env::RuntimeImportIndex::from_u32(4), Default::default()),
    ));
    let d = describe(&r);
    assert_eq!(
        d.info.initializers[8],
        GlobalInitializer::InstantiateModule(InstantiateModule::Import(RuntimeImportIndex(4)))
    );
    let mut engine = Engine::new();
    let c = Component::from_parts(&mut engine, Arc::new(code_with(&[])), &r, Ok(())).unwrap();
    assert_eq!(c.resources_required(), None);
}

#[test]
fn describe_of_an_empty_record() {
    let r = env::ComponentArtifacts {
        ty: env::TypeComponentIndex::from_u32(0),
        info: env::CompiledComponentInfo {
            component: env::Component::default(),
            trampolines: PrimaryMap::new(),
            resource_drop_wasm_to_native_trampoline: None,
        },
        types: env::ComponentTypes::default(),
        static_modules: PrimaryMap::new(),
    };
    let d = describe(&r);
    assert_eq!(d.ty, TypeComponentIndex(0));
    assert!(d.info.initializers.is_empty());
    assert!(d.info.trampolines.is_empty());
    assert_eq!(d.info.resource_drop_wasm_to_native_trampoline, None);
    assert!(d.static_modules.is_empty());
}

#[test]
fn component_from_a_record_at_hand() {
    let code = Arc::new(code_with(&[]));
    let artifacts = Component::artifacts(&code, Some(record())).unwrap();
    let mut engine = Engine::new();
    let c = Component::from_parts(&mut engine, code, &artifacts, Ok(())).unwrap();
    check_component(&c);
}

#[test]
fn component_from_the_metadata_of_its_code() {
    let metadata = postcard::to_allocvec(&record()).unwrap();
    let code = Arc::new(code_with(&metadata));
    let artifacts = Component::artifacts(&code, None).unwrap();
    let mut engine = Engine::new();
    let c = Component::from_parts(&mut engine, code, &artifacts, Ok(())).unwrap();
    check_component(&c);
}

#[test]
fn metadata_that_does_not_decode_is_an_error() {
    let code = code_with(&[0xff; 3]);
    match Component::artifacts(&code, None) {
        Err(ComponentError::Decode(why)) => assert!(!why.is_empty()),
        _ => panic!("three bytes of 0xff are no record"),
    }
    let empty = code_with(&[]);
    assert!(matches!(Component::artifacts(&empty, None), Err(ComponentError::Decode(_))));
}

#[test]
fn refused_record_is_an_error() {
    let mut engine = Engine::new();
    let refused = Component::from_parts(
        &mut engine,
        Arc::new(code_with(&[])),
        &record(),
        Err("pool too small".to_string()),
    );
    match refused {
        Err(ComponentError::Incompatible(why)) => assert_eq!(why, "pool too small"),
        _ => panic!("the record was refused"),
    }
}

#[test]
fn serialize_then_deserialize_gives_the_same_component() {
    let metadata = postcard::to_allocvec(&record()).unwrap();
    let code = Arc::new(code_with(&metadata));
    let mut engine = Engine::new();
    let artifacts = Component::artifacts(&code, Some(record())).unwrap();
    let first = Component::from_parts(&mut engine, code, &artifacts, Ok(())).unwrap();

    let bytes = first.serialize().unwrap();
    let mmap = MmapVec::from_slice(&bytes).unwrap();
    let copy = Arc::new(CodeMemory::new(mmap, 0..32, 32..bytes.len()).unwrap());
    let decoded = Component::artifacts(&copy, None).unwrap();
    let second = Component::from_parts(&mut engine, copy, &decoded, Ok(())).unwrap();

    check_component(&first);
    check_component(&second);
    assert_eq!(second.ty(), first.ty());
    assert_eq!(second.env_component().initializers, first.env_component().initializers);
    assert_eq!(second.env_component().trampolines, first.env_component().trampolines);
    assert_eq!(
        second.env_component().resource_drop_wasm_to_native_trampoline,
        first.env_component().resource_drop_wasm_to_native_trampoline
    );
    assert_eq!(second.serialize().unwrap(), first.serialize().unwrap());
    assert_ne!(second.types(), first.types());
    assert_ne!(second.image_range(), first.image_range());
}
