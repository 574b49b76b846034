//! A compiled component that is ready to be instantiated.

use crate::artifacts::{decode, decoded, describe, described, error_text};
use crate::code::{CodeMemory, CodeObject, TypeCollection};
use crate::engine::Engine;
use crate::estimate::{
    can_estimate, estimable, estimate, imports_module, plans_of, required,
};
use crate::info::{
    plans_views, CompiledComponentInfo, Descriptor, DescriptorView, FunctionLoc, InfoView,
    ModulePlans, ResourceIndex, StaticModuleIndex, TrampolineIndex, TypeComponentIndex,
};
use crate::module::Module;
use crate::resources::ResourcesRequired;
use crate::types::{ComponentType, InstanceType, TypesId};
use std::ops::Range;
use std::sync::Arc;
use vstd::prelude::*;
use vstd::slice::slice_to_vec;
use wasmtime_environ::component::ComponentArtifacts;

verus! {

/// Why a component could not be made.
#[derive(Debug)]
pub enum ComponentError {
    /// The metadata of the code could not be decoded. Holds what the decoder
    /// said.
    Decode(String),
    /// The instance allocator cannot hold the component. Holds what the
    /// allocator said.
    Incompatible(String),
}

/// The type of a value that crosses between a component and its host.
#[derive(Clone, Copy, Debug, PartialEq, Eq, Structural)]
pub enum ValType {
    I32,
    I64,
    F32,
    F64,
    V128,
    FuncRef,
    ExternRef,
}

/// The type of a function: what it takes and what it gives back.
#[derive(Debug)]
pub struct FuncType {
    pub params: Vec<ValType>,
    pub results: Vec<ValType>,
}

/// The three entry points of one trampoline as addresses, one for each
/// calling convention.
#[derive(Clone, Copy, Debug, PartialEq, Eq, Structural)]
pub struct AllCallFuncPointers {
    /// The entry point for calls from inside compiled code.
    pub wasm_call: usize,
    /// The entry point that takes its arguments as an array of values.
    pub array_call: usize,
    /// The entry point for calls from the host.
    pub native_call: usize,
}

/// What a caller needs to call a function: its entry points as addresses, the
/// number of its type, and the address of the context it runs in.
#[derive(Clone, Copy, Debug, PartialEq, Eq, Structural)]
pub struct VMFuncRef {
    /// The entry point for calls from the host.
    pub native_call: usize,
    /// The entry point that takes its arguments as an array of values.
    pub array_call: usize,
    /// The entry point for calls from inside compiled code, where there is
    /// one.
    pub wasm_call: Option<usize>,
    /// The number of the function's type in the engine's registry.
    pub type_index: u32,
    /// The address of the context that the function runs in.
    pub vmctx: usize,
}

/// Calls `Arc::clone`. Trusted: the new pointer points to the allocation of
/// the old one, so both stand for one and the same value.
#[verifier::external_body]
fn share<T>(a: &Arc<T>) -> (r: Arc<T>)
    ensures
        r == *a,
{
    Arc::clone(a)
}

struct ComponentInner {
    ty: TypeComponentIndex,
    static_modules: Vec<Module>,
    code: Arc<CodeObject>,
    info: CompiledComponentInfo,
    realloc_func_type: FuncType,
}

/// A compiled component that is ready to be instantiated. It is a handle: a
/// clone is one more handle to the same component, not a second component.
pub struct Component {
    inner: Arc<ComponentInner>,
}

impl Clone for Component {
    /// One more handle to the same component.
    fn clone(&self) -> (r: Component)
        ensures
            r == *self,
    {
        proof {
            use_type_invariant(self);
        }
        Component { inner: share(&self.inner) }
    }
}

/// Whether each module in `modules` has `code` as its code.
pub open spec fn all_share(modules: Seq<Module>, code: CodeObject) -> bool {
    forall|i: int| 0 <= i < modules.len() ==> (#[trigger] modules[i]).code() == code
}

/// The type of the `realloc` function of a component: four 32-bit integers
/// in, one out.
pub open spec fn is_realloc_type(ty: FuncType) -> bool {
    &&& ty.params@ == seq![ValType::I32, ValType::I32, ValType::I32, ValType::I32]
    &&& ty.results@ == seq![ValType::I32]
}

impl Component {
    #[verifier::type_invariant]
    closed spec fn inv(self) -> bool {
        &&& all_share(self.inner.static_modules@, *self.inner.code)
        &&& is_realloc_type(self.inner.realloc_func_type)
    }

    /// The index of the component's type in its type tables.
    pub closed spec fn type_index(&self) -> TypeComponentIndex {
        self.inner.ty
    }

    /// What the component keeps of its compilation.
    pub closed spec fn info(&self) -> InfoView {
        self.inner.info@
    }

    /// The modules that the component holds itself, by `StaticModuleIndex`.
    pub closed spec fn static_modules(&self) -> Seq<Module> {
        self.inner.static_modules@
    }

    /// The code that the component shares with its modules.
    pub closed spec fn code(&self) -> CodeObject {
        *self.inner.code
    }

    /// The mapped image of the component's code.
    pub open spec fn memory(&self) -> CodeMemory {
        self.code().memory()
    }

    /// The identity of the component's type tables: the number under which
    /// its function types are registered.
    pub open spec fn identity(&self) -> TypesId {
        TypesId(self.code().registration().registration)
    }

    /// What the component was made from.
    pub open spec fn descriptor(&self) -> DescriptorView {
        DescriptorView {
            ty: self.type_index(),
            info: self.info(),
            static_modules: plans_of(self.static_modules()),
        }
    }

    /// Whether the routine at `loc` lies inside the text of the component.
    pub open spec fn holds(&self, loc: FunctionLoc) -> bool {
        loc.inside(self.memory().text_bytes().len())
    }

    /// The address of the first byte of the routine at `loc`.
    pub open spec fn address_of(&self, loc: FunctionLoc) -> int {
        self.memory().text_base() + loc.start
    }

    /// Whether `address` is the address of a routine of `length` bytes that
    /// lies inside the mapped image of the component and not at address zero.
    pub open spec fn in_image(&self, address: usize, length: u32) -> bool {
        &&& address != 0
        &&& self.memory().base() <= address
        &&& address + length <= self.memory().base() + self.memory().image().len()
    }

    /// The index of the component's type in its type tables.
    pub fn ty(&self) -> (r: TypeComponentIndex)
        ensures
            r == self.type_index(),
    {
        self.inner.ty
    }

    /// What the component keeps of its compilation: its instantiation plan
    /// and where its trampolines lie.
    pub fn env_component(&self) -> (r: &CompiledComponentInfo)
        ensures
            r@ == self.info(),
    {
        &self.inner.info
    }

    /// The number of modules that the component holds itself.
    pub fn num_static_modules(&self) -> (r: usize)
        ensures
            r == self.static_modules().len(),
    {
        self.inner.static_modules.len()
    }

    /// The module that the component holds under `idx`.
    pub fn static_module(&self, idx: StaticModuleIndex) -> (r: &Module)
        requires
            idx.0 < self.static_modules().len(),
        ensures
            *r == self.static_modules()[idx.0 as int],
            r.code() == self.code(),
    {
        proof {
            use_type_invariant(self);
        }
        &self.inner.static_modules[idx.0 as usize]
    }

    /// The identity of the component's type tables.
    pub fn types(&self) -> (r: TypesId)
        ensures
            r == self.identity(),
    {
        TypesId(self.inner.code.signatures().registration)
    }

    /// The registration of the component's function types.
    pub fn signatures(&self) -> (r: &TypeCollection)
        ensures
            *r == self.code().registration(),
    {
        self.inner.code.signatures()
    }

    /// The text of the component's code: the compiled routines.
    pub fn text(&self) -> (r: &[u8])
        ensures
            r@ == self.memory().text_bytes(),
    {
        self.inner.code.code_memory().text()
    }

    /// Tests whether the routine at `loc` lies inside the text.
    pub fn contains(&self, loc: &FunctionLoc) -> (r: bool)
        ensures
            r == self.holds(*loc),
    {
        loc.is_inside(self.inner.code.code_memory().text_len())
    }

    /// The address of the entry point of the routine at `loc`.
    pub fn func(&self, loc: &FunctionLoc) -> (r: usize)
        requires
            self.holds(*loc),
        ensures
            r == self.address_of(*loc),
            self.in_image(r, loc.length),
    {
        let memory = self.inner.code.code_memory();
        let base = memory.text_address();
        base + loc.start as usize
    }

    /// The three entry points of the trampoline `index`. Each is the address
    /// of a routine inside the mapped image, and none is zero.
    pub fn trampoline_ptrs(&self, index: TrampolineIndex) -> (r: AllCallFuncPointers)
        requires
            index.0 < self.info().trampolines.len(),
            self.info().trampolines[index.0 as int].inside(self.memory().text_bytes().len()),
        ensures
            r.wasm_call == self.address_of(self.info().trampolines[index.0 as int].wasm_call),
            r.array_call == self.address_of(self.info().trampolines[index.0 as int].array_call),
            r.native_call == self.address_of(self.info().trampolines[index.0 as int].native_call),
            self.in_image(r.wasm_call, self.info().trampolines[index.0 as int].wasm_call.length),
            self.in_image(r.array_call, self.info().trampolines[index.0 as int].array_call.length),
            self.in_image(
                r.native_call,
                self.info().trampolines[index.0 as int].native_call.length,
            ),
    {
        let trampoline = &self.inner.info.trampolines[index.0 as usize];
        AllCallFuncPointers {
            wasm_call: self.func(&trampoline.wasm_call),
            array_call: self.func(&trampoline.array_call),
            native_call: self.func(&trampoline.native_call),
        }
    }

    /// The code that the component shares with its modules.
    pub fn code_object(&self) -> (r: &Arc<CodeObject>)
        ensures
            **r == self.code(),
    {
        &self.inner.code
    }

    /// The bytes from which `from_parts` makes this component again: the
    /// mapped image as it is, which holds the metadata since compilation.
    pub fn serialize(&self) -> (r: Result<Vec<u8>, ComponentError>)
        ensures
            r matches Ok(bytes) && bytes@ == self.memory().image(),
    {
        Ok(slice_to_vec(self.inner.code.code_memory().mmap()))
    }

    /// What is needed to call the host destructor `dtor` of a resource: the
    /// entry points of `dtor`, and for calls from inside compiled code the
    /// routine that was compiled for that, if one was. Where none was, the
    /// destructor can only be reached from the host.
    pub fn resource_drop_func_ref(&self, dtor: &VMFuncRef) -> (r: VMFuncRef)
        requires
            dtor.wasm_call.is_none(),
            self.info().resource_drop_wasm_to_native_trampoline matches Some(loc) ==> self.holds(
                loc,
            ),
        ensures
            r.native_call == dtor.native_call,
            r.array_call == dtor.array_call,
            r.type_index == dtor.type_index,
            r.vmctx == dtor.vmctx,
            match self.info().resource_drop_wasm_to_native_trampoline {
                Some(loc) => r.wasm_call matches Some(address) && address == self.address_of(loc)
                    && self.in_image(address, loc.length),
                None => r.wasm_call.is_none(),
            },
    {
        let wasm_call = match &self.inner.info.resource_drop_wasm_to_native_trampoline {
            Some(loc) => Some(self.func(loc)),
            None => None,
        };
        VMFuncRef {
            native_call: dtor.native_call,
            array_call: dtor.array_call,
            wasm_call,
            type_index: dtor.type_index,
            vmctx: dtor.vmctx,
        }
    }

    /// Whether `resources_required` can be asked: the plan instantiates
    /// a module that is handed in as an import, or every module that it
    /// instantiates is held by the component with consistent plans and what
    /// they take together fits.
    pub open spec fn can_estimate(&self) -> bool {
        imports_module(self.info().initializers) || estimable(
            self.info().initializers,
            plans_of(self.static_modules()),
        )
    }

    /// Tests whether `resources_required` can be asked.
    pub fn is_estimable(&self) -> (ok: bool)
        ensures
            ok == self.can_estimate(),
    {
        can_estimate(&self.inner.info.initializers, &self.inner.static_modules)
    }

    /// A summary of the resources that instantiating the component will take.
    /// `None` where the component instantiates a module that is handed in as
    /// an import: what that takes cannot be known before instantiation.
    pub fn resources_required(&self) -> (r: Option<ResourcesRequired>)
        requires
            self.can_estimate(),
        ensures
            r.is_none() <==> imports_module(self.info().initializers),
            match r {
                Some(total) => Some(total@),
                None => None,
            } == required(self.info().initializers, plans_of(self.static_modules())),
    {
        estimate(&self.inner.info.initializers, &self.inner.static_modules)
    }

    /// The addresses at which the component's code is mapped.
    pub fn image_range(&self) -> (r: Range<usize>)
        ensures
            r.start == self.memory().base(),
            r.end == self.memory().base() + self.memory().image().len(),
            r.start != 0,
    {
        self.inner.code.code_memory().image_range()
    }

    /// The type of the component as it stands before instantiation: nothing
    /// has been put in place of its resources yet.
    pub fn component_type(&self) -> (r: ComponentType)
        ensures
            r.index == self.type_index(),
            r.instance.types == self.identity(),
            r.instance.uninstantiated(),
    {
        ComponentType {
            index: self.inner.ty,
            instance: InstanceType { types: self.types(), resources: Vec::new() },
        }
    }

    /// The type of the component's `realloc` function.
    pub fn realloc_func_type(&self) -> (r: &FuncType)
        ensures
            is_realloc_type(*r),
    {
        proof {
            use_type_invariant(self);
        }
        &self.inner.realloc_func_type
    }
}

/// The type of the `realloc` function of a component.
fn realloc_type() -> (r: FuncType)
    ensures
        is_realloc_type(r),
{
    let mut params: Vec<ValType> = Vec::new();
    params.push(ValType::I32);
    params.push(ValType::I32);
    params.push(ValType::I32);
    params.push(ValType::I32);
    let mut results: Vec<ValType> = Vec::new();
    results.push(ValType::I32);
    assert(params@ =~= seq![ValType::I32, ValType::I32, ValType::I32, ValType::I32]);
    assert(results@ =~= seq![ValType::I32]);
    FuncType { params, results }
}

/// Makes a module out of each of the plans, all on the code `code`.
fn make_modules(code: &Arc<CodeObject>, plans: Vec<ModulePlans>) -> (r: Vec<Module>)
    ensures
        plans_of(r@) == plans_views(plans@),
        all_share(r@, **code),
{
    let ghost all = plans@;
    let mut modules: Vec<Module> = Vec::new();
    for p in it: plans.into_iter()
        invariant
            it.seq() == all,
            modules@.len() == it.index(),
            forall|k: int| 0 <= k < modules@.len() ==> (#[trigger] modules@[k]).plans() == all[k],
            all_share(modules@, **code),
    {
        modules.push(Module::from_parts_raw(share(code), p));
    }
    assert(plans_of(modules@) =~= plans_views(all));
    modules
}

impl Component {
    /// Whether this component is the one that construction makes of the code
    /// `code_memory` and of what `descriptor` holds, on an engine that was
    /// `before` and is `after`: it has that code, that type index, that plan,
    /// those trampolines and those modules, all on the one code; its function
    /// types are registered, once, under an identity that the engine had not
    /// handed out before.
    pub open spec fn made_of(
        &self,
        code_memory: CodeMemory,
        descriptor: DescriptorView,
        before: Engine,
        after: Engine,
    ) -> bool {
        &&& self.descriptor() == descriptor
        &&& self.memory() == code_memory
        &&& all_share(self.static_modules(), self.code())
        &&& self.identity().0 as nat == before.issued()
        &&& after.issued() == before.issued() + 1
        &&& after.registered() == before.registered() + 1
    }

    /// What construction returns for the code `code_memory` and the
    /// descriptor `descriptor` once the instance allocator has given its
    /// verdict `admission`: the component, where the allocator admits it;
    /// else what the allocator said, with the engine left as it was.
    pub open spec fn constructed(
        r: Result<Component, ComponentError>,
        code_memory: CodeMemory,
        descriptor: DescriptorView,
        admission: Result<(), String>,
        before: Engine,
        after: Engine,
    ) -> bool {
        match admission {
            Ok(_) => r matches Ok(c) && c.made_of(code_memory, descriptor, before, after),
            Err(why) => r matches Err(ComponentError::Incompatible(said)) && said@ == why@
                && after == before,
        }
    }

    /// The record of a compilation: `artifacts` where it is at hand, else
    /// what the metadata section of `code_memory` decodes to.
    pub fn artifacts(code_memory: &CodeMemory, artifacts: Option<ComponentArtifacts>) -> (r: Result<
        ComponentArtifacts,
        ComponentError,
    >)
        ensures
            match artifacts {
                Some(a) => r matches Ok(b) && b == a,
                None => match decoded(code_memory.info_bytes()) {
                    Some(d) => r matches Ok(b) && described(b) == d,
                    None => r matches Err(ComponentError::Decode(_)),
                },
            },
    {
        match artifacts {
            Some(a) => Ok(a),
            None => match decode(code_memory.wasmtime_info()) {
                Ok(a) => Ok(a),
                Err(e) => Err(ComponentError::Decode(error_text(&e))),
            },
        }
    }

    /// Makes a component of mapped code and of what a descriptor holds, once
    /// the instance allocator has given its verdict on the component and its
    /// modules.
    pub fn assemble(
        engine: &mut Engine,
        code_memory: Arc<CodeMemory>,
        descriptor: Descriptor,
        admission: Result<(), String>,
    ) -> (r: Result<Component, ComponentError>)
        requires
            admission.is_ok() ==> !old(engine).exhausted(),
        ensures
            Self::constructed(
                r,
                *code_memory,
                descriptor@,
                admission,
                *old(engine),
                *final(engine),
            ),
    {
        if let Err(why) = admission {
            return Err(ComponentError::Incompatible(why));
        }
        let Descriptor { ty, info, static_modules } = descriptor;
        let signatures = engine.register_signatures();
        let code = Arc::new(CodeObject::new(code_memory, signatures));
        let static_modules = make_modules(&code, static_modules);
        let realloc_func_type = realloc_type();
        Ok(
            Component {
                inner: Arc::new(
                    ComponentInner { ty, static_modules, code, info, realloc_func_type },
                ),
            },
        )
    }

    /// The final step of making a component: of mapped code, of the record
    /// of its compilation, and of the verdict of the instance allocator on
    /// that record.
    pub fn from_parts(
        engine: &mut Engine,
        code_memory: Arc<CodeMemory>,
        artifacts: &ComponentArtifacts,
        admission: Result<(), String>,
    ) -> (r: Result<Component, ComponentError>)
        requires
            admission.is_ok() ==> !old(engine).exhausted(),
        ensures
            Self::constructed(
                r,
                *code_memory,
                described(*artifacts),
                admission,
                *old(engine),
                *final(engine),
            ),
    {
        Self::assemble(engine, code_memory, describe(artifacts), admission)
    }
}

/// Two components that are made on one engine, one after the other, have
/// different identities, so before instantiation no resource of the one has
/// the type of a resource of the other: not even where both were made of the
/// same code and the same descriptor.
pub proof fn lemma_constructions_differ(
    first: Component,
    second: Component,
    first_code: CodeMemory,
    first_descriptor: DescriptorView,
    second_code: CodeMemory,
    second_descriptor: DescriptorView,
    before_first: Engine,
    after_first: Engine,
    before_second: Engine,
    after_second: Engine,
    first_type: InstanceType,
    second_type: InstanceType,
    i: ResourceIndex,
    j: ResourceIndex,
)
    requires
        first.made_of(first_code, first_descriptor, before_first, after_first),
        second.made_of(second_code, second_descriptor, before_second, after_second),
        after_first.issued() <= before_second.issued(),
        first_type.types == first.identity(),
        first_type.uninstantiated(),
        second_type.types == second.identity(),
        second_type.uninstantiated(),
    ensures
        first.identity() != second.identity(),
        first_type.resolve(i) != second_type.resolve(j),
{
}

/// A component is made again from what `serialize` gives: where the image of
/// a component holds the metadata that the component was made of, a second
/// component that is made by decoding a copy of that image, with the metadata
/// section in the same place, has the same type index, the same plan, the
/// same trampolines and modules with the same plans.
pub proof fn lemma_round_trip(
    first: Component,
    copy: CodeMemory,
    second: Component,
    before: Engine,
    after: Engine,
)
    requires
        decoded(first.memory().info_bytes()) == Some(first.descriptor()),
        copy.image() == first.memory().image(),
        copy.info_range() == first.memory().info_range(),
        decoded(copy.info_bytes()) matches Some(d) && second.made_of(copy, d, before, after),
    ensures
        second.descriptor() == first.descriptor(),
        second.type_index() == first.type_index(),
{
}

} // verus!
