//! What compilation records about a component: the steps of its instantiation
//! plan and where its trampolines lie in the text of the code image.

use vstd::prelude::*;

verus! {

/// Index of a module that the component holds itself, counted from zero in the
/// order of compilation.
#[derive(Clone, Copy, Debug, PartialEq, Eq, Structural)]
pub struct StaticModuleIndex(pub u32);

/// Index of a trampoline in the component's table of trampolines.
#[derive(Clone, Copy, Debug, PartialEq, Eq, Structural)]
pub struct TrampolineIndex(pub u32);

/// Index of the component's type in the type tables of its compilation.
#[derive(Clone, Copy, Debug, PartialEq, Eq, Structural)]
pub struct TypeComponentIndex(pub u32);

/// Index of an import as flattened for instantiation.
#[derive(Clone, Copy, Debug, PartialEq, Eq, Structural)]
pub struct RuntimeImportIndex(pub u32);

/// Index of a resource of the component, imported ones first.
#[derive(Clone, Copy, Debug, PartialEq, Eq, Structural)]
pub struct ResourceIndex(pub u32);

/// Index of a resource that the component defines itself.
#[derive(Clone, Copy, Debug, PartialEq, Eq, Structural)]
pub struct DefinedResourceIndex(pub u32);

/// Where one compiled routine lies inside the text of a code image.
#[derive(Clone, Copy, Debug, PartialEq, Eq, Structural)]
pub struct FunctionLoc {
    /// Offset of the first byte, counted from the start of the text.
    pub start: u32,
    /// Number of bytes the routine takes.
    pub length: u32,
}

impl FunctionLoc {
    /// Whether the routine lies wholly inside a text of `text_len` bytes.
    pub open spec fn inside(self, text_len: nat) -> bool {
        self.start + self.length <= text_len
    }

    /// Tests whether the routine lies wholly inside a text of `text_len` bytes.
    pub fn is_inside(&self, text_len: usize) -> (ok: bool)
        ensures
            ok == self.inside(text_len as nat),
    {
        self.start as u64 + self.length as u64 <= text_len as u64
    }
}

/// The three entry points of one trampoline, one for each calling convention.
#[derive(Clone, Copy, Debug, PartialEq, Eq, Structural)]
pub struct AllCallFunc {
    /// The routine that is entered from inside compiled code.
    pub wasm_call: FunctionLoc,
    /// The routine that takes its arguments as an array of values.
    pub array_call: FunctionLoc,
    /// The routine that is entered from the host.
    pub native_call: FunctionLoc,
}

impl AllCallFunc {
    /// Whether all three routines lie inside a text of `text_len` bytes.
    pub open spec fn inside(self, text_len: nat) -> bool {
        &&& self.wasm_call.inside(text_len)
        &&& self.array_call.inside(text_len)
        &&& self.native_call.inside(text_len)
    }

    /// Tests whether all three routines lie inside a text of `text_len` bytes.
    pub fn is_inside(&self, text_len: usize) -> (ok: bool)
        ensures
            ok == self.inside(text_len as nat),
    {
        self.wasm_call.is_inside(text_len) && self.array_call.is_inside(text_len)
            && self.native_call.is_inside(text_len)
    }
}

/// The two ways in which a plan instantiates a module.
#[derive(Clone, Copy, Debug, PartialEq, Eq, Structural)]
pub enum InstantiateModule {
    /// A module that the component holds itself.
    Static(StaticModuleIndex),
    /// A module that is handed in as an import, unknown until instantiation.
    Import(RuntimeImportIndex),
}

/// One step of the instantiation plan: what kind of step it is and, where a
/// module is instantiated, which one.
#[derive(Clone, Copy, Debug, PartialEq, Eq, Structural)]
pub enum GlobalInitializer {
    /// A module is instantiated.
    InstantiateModule(InstantiateModule),
    /// An imported host function is lowered into a trampoline.
    LowerImport,
    /// A linear memory is taken from an instance.
    ExtractMemory,
    /// A `realloc` function is taken from an instance.
    ExtractRealloc,
    /// A `post-return` function is taken from an instance.
    ExtractPostReturn,
    /// A resource type that the component defines is declared.
    Resource,
}

impl GlobalInitializer {
    /// The module that this step instantiates, if it is one of the component's
    /// own.
    pub open spec fn static_module(self) -> Option<StaticModuleIndex> {
        match self {
            GlobalInitializer::InstantiateModule(InstantiateModule::Static(m)) => Some(m),
            _ => None,
        }
    }

    /// Whether this step instantiates a module that is handed in as an import.
    pub open spec fn instantiates_import(self) -> bool {
        self matches GlobalInitializer::InstantiateModule(InstantiateModule::Import(_))
    }
}

/// What a component keeps of its compilation for use at run time.
#[derive(Clone, Debug)]
pub struct CompiledComponentInfo {
    /// The instantiation plan, in the order in which it is carried out.
    pub initializers: Vec<GlobalInitializer>,
    /// Where each trampoline lies in the text, by `TrampolineIndex`.
    pub trampolines: Vec<AllCallFunc>,
    /// Where the routine lies through which compiled code reaches a host
    /// destructor, if one was compiled.
    pub resource_drop_wasm_to_native_trampoline: Option<FunctionLoc>,
}

/// A `CompiledComponentInfo` as a mathematical value.
pub struct InfoView {
    pub initializers: Seq<GlobalInitializer>,
    pub trampolines: Seq<AllCallFunc>,
    pub resource_drop_wasm_to_native_trampoline: Option<FunctionLoc>,
}

impl View for CompiledComponentInfo {
    type V = InfoView;

    open spec fn view(&self) -> InfoView {
        InfoView {
            initializers: self.initializers@,
            trampolines: self.trampolines@,
            resource_drop_wasm_to_native_trampoline: self.resource_drop_wasm_to_native_trampoline,
        }
    }
}

/// The memories and tables that one module declares, imported ones first.
#[derive(Clone, Debug)]
pub struct ModulePlans {
    /// How many of the memories are imported.
    pub num_imported_memories: usize,
    /// The initial size of each memory, in pages.
    pub memory_minimums: Vec<u64>,
    /// How many of the tables are imported.
    pub num_imported_tables: usize,
    /// The initial size of each table, in elements.
    pub table_minimums: Vec<u32>,
}

/// A `ModulePlans` as a mathematical value.
pub struct PlansView {
    pub num_imported_memories: nat,
    pub memory_minimums: Seq<u64>,
    pub num_imported_tables: nat,
    pub table_minimums: Seq<u32>,
}

impl View for ModulePlans {
    type V = PlansView;

    open spec fn view(&self) -> PlansView {
        PlansView {
            num_imported_memories: self.num_imported_memories as nat,
            memory_minimums: self.memory_minimums@,
            num_imported_tables: self.num_imported_tables as nat,
            table_minimums: self.table_minimums@,
        }
    }
}

/// The views of the plans in `plans`, in the same order.
pub open spec fn plans_views(plans: Seq<ModulePlans>) -> Seq<PlansView> {
    Seq::new(plans.len(), |i: int| plans[i]@)
}

/// What is read from the metadata of a compilation to make a component: the
/// index of its type, what it keeps for run time, and the plans of each module
/// that it holds itself, by `StaticModuleIndex`.
#[derive(Clone, Debug)]
pub struct Descriptor {
    /// Where the component's type stands in the type tables.
    pub ty: TypeComponentIndex,
    /// What the component keeps for run time.
    pub info: CompiledComponentInfo,
    /// The plans of the modules that the component holds itself.
    pub static_modules: Vec<ModulePlans>,
}

/// A `Descriptor` as a mathematical value.
pub struct DescriptorView {
    pub ty: TypeComponentIndex,
    pub info: InfoView,
    pub static_modules: Seq<PlansView>,
}

impl View for Descriptor {
    type V = DescriptorView;

    open spec fn view(&self) -> DescriptorView {
        DescriptorView {
            ty: self.ty,
            info: self.info@,
            static_modules: plans_views(self.static_modules@),
        }
    }
}

} // verus!
