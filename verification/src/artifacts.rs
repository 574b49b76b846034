//! Reading the metadata that compilation wrote: the record is decoded by
//! `postcard` into the types of `wasmtime_environ`, and what a component needs
//! of it is copied out, item by item, into a `Descriptor`.

use crate::info::GlobalInitializer::InstantiateModule as Step;
use crate::info::GlobalInitializer::{
    ExtractMemory, ExtractPostReturn, ExtractRealloc, LowerImport, Resource,
};
use crate::info::InstantiateModule::{Import, Static};
use crate::info::{
    plans_views, AllCallFunc, CompiledComponentInfo, Descriptor, DescriptorView, FunctionLoc,
    GlobalInitializer, InfoView, ModulePlans, PlansView, RuntimeImportIndex, StaticModuleIndex,
    TypeComponentIndex,
};
use vstd::prelude::*;
use wasmtime_environ::component::ComponentArtifacts;
use wasmtime_environ::component::GlobalInitializer as G;
use wasmtime_environ::component::InstantiateModule as M;

verus! {

/// `wasmtime_environ::component::ComponentArtifacts`, the record that
/// compilation writes into the metadata of the code. Nothing is known of what
/// is inside a value but what the items below say.
#[verifier::external_type_specification]
#[verifier::external_body]
pub struct ExComponentArtifacts(wasmtime_environ::component::ComponentArtifacts);

/// `postcard::Error`, what `postcard` reports when it cannot decode.
#[verifier::external_type_specification]
#[verifier::external_body]
pub struct ExPostcardError(postcard::Error);

/// The index that the record gives for the component's type: its field `ty`.
pub uninterp spec fn artifact_type_index(a: ComponentArtifacts) -> u32;

/// The instantiation plan of the record, `info.component.initializers`, each
/// step by its kind and, where a module is instantiated, by the module's index.
pub uninterp spec fn artifact_initializers(a: ComponentArtifacts) -> Seq<GlobalInitializer>;

/// The trampoline locations of the record, `info.trampolines`, in the order of
/// their keys.
pub uninterp spec fn artifact_trampolines(a: ComponentArtifacts) -> Seq<AllCallFunc>;

/// The record's `info.resource_drop_wasm_to_native_trampoline`.
pub uninterp spec fn artifact_drop_trampoline(a: ComponentArtifacts) -> Option<FunctionLoc>;

/// For each module of the record's `static_modules`, in the order of their
/// keys: its numbers of imported memories and tables, and the `minimum` of
/// each of its memory plans and table plans, in the order of their keys.
pub uninterp spec fn artifact_modules(a: ComponentArtifacts) -> Seq<PlansView>;

/// What `postcard` decodes from `bytes` as a `ComponentArtifacts`, as far as
/// a component reads it; `None` where `postcard` reports an error.
pub uninterp spec fn decoded(bytes: Seq<u8>) -> Option<DescriptorView>;

/// What a component reads of the record `a`.
pub open spec fn described(a: ComponentArtifacts) -> DescriptorView {
    DescriptorView {
        ty: TypeComponentIndex(artifact_type_index(a)),
        info: InfoView {
            initializers: artifact_initializers(a),
            trampolines: artifact_trampolines(a),
            resource_drop_wasm_to_native_trampoline: artifact_drop_trampoline(a),
        },
        static_modules: artifact_modules(a),
    }
}

/// Calls `postcard::from_bytes` for a `ComponentArtifacts`. Trusted: the
/// outcome is a function of the bytes alone, so it is what `decoded` names.
#[verifier::external_body]
pub(crate) fn decode(bytes: &[u8]) -> (r: Result<ComponentArtifacts, postcard::Error>)
    ensures
        match r {
            Ok(a) => decoded(bytes@) == Some(described(a)),
            Err(_) => decoded(bytes@).is_none(),
        },
{
    postcard::from_bytes(bytes)
}

/// Calls `to_string` on the error of `postcard`, which writes it by its
/// `Display`.
#[verifier::external_body]
pub(crate) fn error_text(e: &postcard::Error) -> (r: String) {
    e.to_string()
}

/// Reads the field `ty` of the record, by `as_u32`.
#[verifier::external_body]
fn type_index(a: &ComponentArtifacts) -> (r: u32)
    ensures
        r == artifact_type_index(*a),
{
    a.ty.as_u32()
}

/// Calls `Vec::len` on `info.component.initializers`.
#[verifier::external_body]
fn initializer_count(a: &ComponentArtifacts) -> (r: usize)
    ensures
        r == artifact_initializers(*a).len(),
{
    a.info.component.initializers.len()
}

/// Reads step `i` of `info.component.initializers`: tells the variants of
/// `GlobalInitializer` and `InstantiateModule` apart and, where a module is
/// instantiated, takes its index by `as_u32`.
#[verifier::external_body]
fn initializer_at(a: &ComponentArtifacts, i: usize) -> (r: GlobalInitializer)
    requires
        i < artifact_initializers(*a).len(),
    ensures
        r == artifact_initializers(*a)[i as int],
{
    match &a.info.component.initializers[i] {
        G::InstantiateModule(M::Static(m, _)) => Step(Static(StaticModuleIndex(m.as_u32()))),
        G::InstantiateModule(M::Import(m, _)) => Step(Import(RuntimeImportIndex(m.as_u32()))),
        G::LowerImport { .. } => LowerImport,
        G::ExtractMemory(_) => ExtractMemory,
        G::ExtractRealloc(_) => ExtractRealloc,
        G::ExtractPostReturn(_) => ExtractPostReturn,
        G::Resource(_) => Resource,
    }
}

/// Calls `PrimaryMap::len` on `info.trampolines`.
#[verifier::external_body]
fn trampoline_count(a: &ComponentArtifacts) -> (r: usize)
    ensures
        r == artifact_trampolines(*a).len(),
{
    a.info.trampolines.len()
}

/// Reads entry `i` of `info.trampolines`, through `PrimaryMap::values`, and
/// copies the `start` and `length` of its three locations.
#[verifier::external_body]
fn trampoline_at(a: &ComponentArtifacts, i: usize) -> (r: AllCallFunc)
    requires
        i < artifact_trampolines(*a).len(),
    ensures
        r == artifact_trampolines(*a)[i as int],
{
    let t = &a.info.trampolines.values().as_slice()[i];
    AllCallFunc {
        wasm_call: FunctionLoc { start: t.wasm_call.start, length: t.wasm_call.length },
        array_call: FunctionLoc { start: t.array_call.start, length: t.array_call.length },
        native_call: FunctionLoc { start: t.native_call.start, length: t.native_call.length },
    }
}

/// Reads `info.resource_drop_wasm_to_native_trampoline` and copies the
/// `start` and `length` of the location, if there is one.
#[verifier::external_body]
fn drop_trampoline(a: &ComponentArtifacts) -> (r: Option<FunctionLoc>)
    ensures
        r == artifact_drop_trampoline(*a),
{
    let loc = a.info.resource_drop_wasm_to_native_trampoline.as_ref();
    loc.map(|l| FunctionLoc { start: l.start, length: l.length })
}

/// Calls `PrimaryMap::len` on `static_modules`.
#[verifier::external_body]
fn module_count(a: &ComponentArtifacts) -> (r: usize)
    ensures
        r == artifact_modules(*a).len(),
{
    a.static_modules.len()
}

/// Reads `module.num_imported_memories` of module `m` of `static_modules`.
#[verifier::external_body]
fn imported_memory_count(a: &ComponentArtifacts, m: usize) -> (r: usize)
    requires
        m < artifact_modules(*a).len(),
    ensures
        r == artifact_modules(*a)[m as int].num_imported_memories,
{
    a.static_modules.values().as_slice()[m].module.num_imported_memories
}

/// Calls `PrimaryMap::len` on `module.memory_plans` of module `m`.
#[verifier::external_body]
fn memory_count(a: &ComponentArtifacts, m: usize) -> (r: usize)
    requires
        m < artifact_modules(*a).len(),
    ensures
        r == artifact_modules(*a)[m as int].memory_minimums.len(),
{
    a.static_modules.values().as_slice()[m].module.memory_plans.len()
}

/// Reads `memory.minimum` of plan `i` of `module.memory_plans` of module `m`.
#[verifier::external_body]
fn memory_minimum(a: &ComponentArtifacts, m: usize, i: usize) -> (r: u64)
    requires
        m < artifact_modules(*a).len(),
        i < artifact_modules(*a)[m as int].memory_minimums.len(),
    ensures
        r == artifact_modules(*a)[m as int].memory_minimums[i as int],
{
    let module = &a.static_modules.values().as_slice()[m].module;
    module.memory_plans.values().as_slice()[i].memory.minimum
}

/// Reads `module.num_imported_tables` of module `m` of `static_modules`.
#[verifier::external_body]
fn imported_table_count(a: &ComponentArtifacts, m: usize) -> (r: usize)
    requires
        m < artifact_modules(*a).len(),
    ensures
        r == artifact_modules(*a)[m as int].num_imported_tables,
{
    a.static_modules.values().as_slice()[m].module.num_imported_tables
}

/// Calls `PrimaryMap::len` on `module.table_plans` of module `m`.
#[verifier::external_body]
fn table_count(a: &ComponentArtifacts, m: usize) -> (r: usize)
    requires
        m < artifact_modules(*a).len(),
    ensures
        r == artifact_modules(*a)[m as int].table_minimums.len(),
{
    a.static_modules.values().as_slice()[m].module.table_plans.len()
}

/// Reads `table.minimum` of plan `i` of `module.table_plans` of module `m`.
#[verifier::external_body]
fn table_minimum(a: &ComponentArtifacts, m: usize, i: usize) -> (r: u32)
    requires
        m < artifact_modules(*a).len(),
        i < artifact_modules(*a)[m as int].table_minimums.len(),
    ensures
        r == artifact_modules(*a)[m as int].table_minimums[i as int],
{
    let module = &a.static_modules.values().as_slice()[m].module;
    module.table_plans.values().as_slice()[i].table.minimum
}

/// Copies the plans of module `m` out of the record.
fn module_plans(a: &ComponentArtifacts, m: usize) -> (r: ModulePlans)
    requires
        m < artifact_modules(*a).len(),
    ensures
        r@ == artifact_modules(*a)[m as int],
{
    let memories = memory_count(a, m);
    let mut memory_minimums: Vec<u64> = Vec::new();
    let mut i: usize = 0;
    while i < memories
        invariant
            m < artifact_modules(*a).len(),
            memories == artifact_modules(*a)[m as int].memory_minimums.len(),
            i <= memories,
            memory_minimums@ == artifact_modules(*a)[m as int].memory_minimums.take(i as int),
        decreases memories - i,
    {
        memory_minimums.push(memory_minimum(a, m, i));
        i = i + 1;
    }
    assert(memory_minimums@ =~= artifact_modules(*a)[m as int].memory_minimums);
    let tables = table_count(a, m);
    let mut table_minimums: Vec<u32> = Vec::new();
    let mut j: usize = 0;
    while j < tables
        invariant
            m < artifact_modules(*a).len(),
            tables == artifact_modules(*a)[m as int].table_minimums.len(),
            j <= tables,
            table_minimums@ == artifact_modules(*a)[m as int].table_minimums.take(j as int),
        decreases tables - j,
    {
        table_minimums.push(table_minimum(a, m, j));
        j = j + 1;
    }
    assert(table_minimums@ =~= artifact_modules(*a)[m as int].table_minimums);
    ModulePlans {
        num_imported_memories: imported_memory_count(a, m),
        memory_minimums,
        num_imported_tables: imported_table_count(a, m),
        table_minimums,
    }
}

/// Copies out of the record what a component reads of it.
pub fn describe(a: &ComponentArtifacts) -> (r: Descriptor)
    ensures
        r@ == described(*a),
{
    let steps = initializer_count(a);
    let mut initializers: Vec<GlobalInitializer> = Vec::new();
    let mut i: usize = 0;
    while i < steps
        invariant
            steps == artifact_initializers(*a).len(),
            i <= steps,
            initializers@ == artifact_initializers(*a).take(i as int),
        decreases steps - i,
    {
        initializers.push(initializer_at(a, i));
        i = i + 1;
    }
    assert(initializers@ =~= artifact_initializers(*a));
    let entries = trampoline_count(a);
    let mut trampolines: Vec<AllCallFunc> = Vec::new();
    let mut j: usize = 0;
    while j < entries
        invariant
            entries == artifact_trampolines(*a).len(),
            j <= entries,
            trampolines@ == artifact_trampolines(*a).take(j as int),
        decreases entries - j,
    {
        trampolines.push(trampoline_at(a, j));
        j = j + 1;
    }
    assert(trampolines@ =~= artifact_trampolines(*a));
    let modules = module_count(a);
    let mut static_modules: Vec<ModulePlans> = Vec::new();
    let mut m: usize = 0;
    while m < modules
        invariant
            modules == artifact_modules(*a).len(),
            m <= modules,
            static_modules@.len() == m,
            plans_views(static_modules@) == artifact_modules(*a).take(m as int),
        decreases modules - m,
    {
        let ghost before = static_modules@;
        let plans = module_plans(a, m);
        static_modules.push(plans);
        m = m + 1;
        assert forall|k: int| 0 <= k < m implies plans_views(static_modules@)[k]
            == artifact_modules(*a).take(m as int)[k] by {
            if k < m - 1 {
                assert(plans_views(before)[k] == artifact_modules(*a).take(m - 1)[k]);
            }
        }
    }
    assert(plans_views(static_modules@) =~= artifact_modules(*a));
    Descriptor {
        ty: TypeComponentIndex(type_index(a)),
        info: CompiledComponentInfo {
            initializers,
            trampolines,
            resource_drop_wasm_to_native_trampoline: drop_trampoline(a),
        },
        static_modules,
    }
}

} // verus!
