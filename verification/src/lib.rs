//! A compiled, not yet instantiated component: what it is made of, the
//! resources its instantiation will take, where its entry points lie in the
//! mapped code, and when two of its resource types are the same type.

pub mod artifacts;
pub mod code;
pub mod component;
pub mod engine;
pub mod estimate;
pub mod info;
pub mod module;
pub mod resources;
pub mod types;

pub use crate::code::{CodeMemory, CodeObject, TypeCollection};
pub use crate::component::{
    AllCallFuncPointers, Component, ComponentError, FuncType, VMFuncRef, ValType,
};
pub use crate::engine::Engine;
pub use crate::info::{
    AllCallFunc, CompiledComponentInfo, DefinedResourceIndex, Descriptor, FunctionLoc,
    GlobalInitializer, InstantiateModule, ModulePlans, ResourceIndex, RuntimeImportIndex,
    StaticModuleIndex, TrampolineIndex, TypeComponentIndex,
};
pub use crate::module::Module;
pub use crate::resources::ResourcesRequired;
pub use crate::types::{ComponentType, InstanceId, InstanceType, ResourceType, TypesId};
