use std::sync::Arc;
use wasm_component::{CodeMemory, Component, ComponentError, Engine, ResourcesRequired};
use wasmtime_environ::component as env;
use wasmtime_environ::component::VMComponentOffsets;
use wasmtime_environ::{
    CompiledModuleInfo, HostPtr, Memory, MemoryPlan, Metadata, PrimaryMap, Tunables,
};
use wasmtime_runtime::{
    InstanceAllocator, InstanceLimits, MmapVec, MpkEnabled, OnDemandInstanceAllocator,
    PoolingInstanceAllocator, PoolingInstanceAllocatorConfig,
};

fn tunables() -> Tunables {
    let mut tunables = Tunables::default_host();
    tunables.static_memory_bound = 1;
    tunables.static_memory_offset_guard_size = 0;
    tunables.dynamic_memory_offset_guard_size = 0;
    tunables.guard_before_linear_memory = false;
    tunables
}

fn module_with_memories(count: usize) -> CompiledModuleInfo {
    let mut module = wasmtime_environ::Module::new();
    for _ in 0..count {
        let memory = Memory { minimum: 1, maximum: Some(1), shared: false, memory64: false };
        module.memory_plans.push(MemoryPlan::for_memory(memory, &tunables()));
    }
    CompiledModuleInfo {
        module,
        funcs: PrimaryMap::new(),
        func_names: Vec::new(),
        wasm_to_native_trampolines: Vec::new(),
        meta: Metadata {
            native_debug_info_present: false,
            has_unparsed_debuginfo: false,
            code_section_offset: 0,
            has_wasm_debuginfo: false,
            dwarf: Vec::new(),
        },
    }
}

/// A record that instantiates its one module, of one memory, `instances`
/// times.
fn record(instances: usize) -> env::ComponentArtifacts {
    let mut component = env::Component::default();
    for _ in 0..instances {
        component.initializers.push(env::GlobalInitializer::InstantiateModule(
            env::InstantiateModule::Static(
                wasmtime_environ::StaticModuleIndex::from_u32(0),
                Box::new([]),
            ),
        ));
    }
    let mut static_modules = PrimaryMap::new();
    static_modules.push(module_with_memories(1));
    env::ComponentArtifacts {
        ty: env::TypeComponentIndex::from_u32(0),
        info: env::CompiledComponentInfo {
            component,
            trampolines: PrimaryMap::new(),
            resource_drop_wasm_to_native_trampoline: None,
        },
        types: env::ComponentTypes::default(),
        static_modules,
    }
}

fn verdict(allocator: &dyn InstanceAllocator, artifacts: &env::ComponentArtifacts) -> Result<(), String> {
    let component = &artifacts.info.component;
    allocator
        .validate_component(component, &VMComponentOffsets::new(HostPtr, component), &|index| {
            &artifacts.static_modules[index].module
        })
        .map_err(|e| format!("{e:#}"))
}

fn pool() -> PoolingInstanceAllocator {
    let mut config = PoolingInstanceAllocatorConfig::default();
    config.memory_protection_keys = MpkEnabled::Disable;
    config.limits = InstanceLimits {
        total_component_instances: 1,
        total_core_instances: 4,
        max_core_instances_per_component: 4,
        max_memories_per_component: 2,
        max_tables_per_component: 1,
        total_memories: 2,
        total_tables: 1,
        table_elements: 4,
        max_memories_per_module: 1,
        memory_pages: 1,
        ..InstanceLimits::default()
    };
    PoolingInstanceAllocator::new(&config, &tunables()).unwrap()
}

fn code() -> Arc<CodeMemory> {
    let mmap = MmapVec::from_slice(&[0; 8]).unwrap();
    Arc::new(CodeMemory::new(mmap, 0..8, 8..8).unwrap())
}

#[test]
fn on_demand_allocator_admits_the_component() {
    let allocator = OnDemandInstanceAllocator::default();
    let artifacts = record(3);
    let admission = verdict(&allocator, &artifacts);
    assert_eq!(admission, Ok(()));
    let mut engine = Engine::new();
    let c = Component::from_parts(&mut engine, code(), &artifacts, admission).unwrap();
    assert_eq!(
        c.resources_required(),
        Some(ResourcesRequired {
            num_memories: 3,
            max_initial_memory_size: Some(1),
            num_tables: 0,
            max_initial_table_size: None,
        })
    );
}

#[test]
fn pooling_allocator_admits_what_fits() {
    let allocator = pool();
    let artifacts = record(2);
    let admission = verdict(&allocator, &artifacts);
    assert_eq!(admission, Ok(()));
    let mut engine = Engine::new();
    let c = Component::from_parts(&mut engine, code(), &artifacts, admission).unwrap();
    assert_eq!(c.resources_required().unwrap().num_memories, 2);
}

#[test]
fn pooling_allocator_refuses_too_many_memories() {
    let allocator = pool();
    let artifacts = record(3);
    let admission = verdict(&allocator, &artifacts);
    assert!(admission.is_err());
    let said = admission.clone().unwrap_err();
    let mut engine = Engine::new();
    match Component::from_parts(&mut engine, code(), &artifacts, admission) {
        Err(ComponentError::Incompatible(why)) => assert_eq!(why, said),
        _ => panic!("three memories do not fit a pool of two"),
    }
    assert_eq!(engine.fresh_identity(), 0);
}
