//! When two resource types are the same type. A resource type is told apart
//! by where it was made, never by what it looks like.

use crate::info::{DefinedResourceIndex, ResourceIndex, TypeComponentIndex};
use vstd::prelude::*;

verus! {

/// The identity of the type tables of one component. Each construction of a
/// component takes a new one.
#[derive(Clone, Copy, Debug, PartialEq, Eq, Structural)]
pub struct TypesId(pub u64);

/// The identity of one instantiation of a component.
#[derive(Clone, Copy, Debug, PartialEq, Eq, Structural)]
pub struct InstanceId(pub u64);

/// A resource type. Two of them are the same type if and only if they are
/// equal as values.
#[derive(Clone, Copy, Debug, PartialEq, Eq, Structural)]
pub enum ResourceType {
    /// A type that the host defines, with the number that the host gave it.
    Host(u64),
    /// A type that a component defines, as one of its instances has it.
    Guest { instance: InstanceId, id: DefinedResourceIndex },
    /// A type as a component declares it before it is instantiated.
    Uninstantiated { component: TypesId, index: ResourceIndex },
}

impl ResourceType {
    /// The type that the host defines under the number `id`.
    pub fn host(id: u64) -> (r: ResourceType)
        ensures
            r == ResourceType::Host(id),
    {
        ResourceType::Host(id)
    }

    /// The type that the instance `instance` has for the resource `id` that
    /// its component defines.
    pub fn guest(instance: InstanceId, id: DefinedResourceIndex) -> (r: ResourceType)
        ensures
            r == (ResourceType::Guest { instance, id }),
    {
        ResourceType::Guest { instance, id }
    }

    /// The type that the component with the type tables `component` declares
    /// for its resource `index`.
    pub fn uninstantiated(component: TypesId, index: ResourceIndex) -> (r: ResourceType)
        ensures
            r == (ResourceType::Uninstantiated { component, index }),
    {
        ResourceType::Uninstantiated { component, index }
    }
}

/// What is needed to say which type a resource of a component has: the
/// identity of the component's type tables, and the types that instantiation
/// has put in place of its resources, by `ResourceIndex`. Before instantiation
/// that table is empty.
#[derive(Clone, Debug)]
pub struct InstanceType {
    /// The identity of the component's type tables.
    pub types: TypesId,
    /// The types that stand in for the component's resources.
    pub resources: Vec<ResourceType>,
}

impl InstanceType {
    /// The type of the resource `index`: what the table holds for it, and the
    /// component's own declared type where the table holds nothing.
    pub open spec fn resolve(&self, index: ResourceIndex) -> ResourceType {
        if index.0 < self.resources@.len() {
            self.resources@[index.0 as int]
        } else {
            ResourceType::Uninstantiated { component: self.types, index }
        }
    }

    /// Whether instantiation has put nothing in place yet.
    pub open spec fn uninstantiated(&self) -> bool {
        self.resources@.len() == 0
    }

    /// The type of the resource `index`.
    pub fn resource_type(&self, index: ResourceIndex) -> (r: ResourceType)
        ensures
            r == self.resolve(index),
    {
        if (index.0 as usize) < self.resources.len() {
            self.resources[index.0 as usize]
        } else {
            ResourceType::uninstantiated(self.types, index)
        }
    }
}

/// The type of a component as it can be asked for before instantiation.
#[derive(Clone, Debug)]
pub struct ComponentType {
    /// Where the component's type stands in its type tables.
    pub index: TypeComponentIndex,
    /// What tells the types of its resources.
    pub instance: InstanceType,
}

/// Before instantiation, a resource of one component and a resource of
/// another never have the same type, whatever their indices are.
pub proof fn lemma_components_declare_distinct_types(
    a: InstanceType,
    b: InstanceType,
    i: ResourceIndex,
    j: ResourceIndex,
)
    requires
        a.uninstantiated(),
        b.uninstantiated(),
        a.types != b.types,
    ensures
        a.resolve(i) != b.resolve(j),
{
}

/// Two declarations that name the same resource have the same type, whatever
/// the table holds: an export that hands an import on has the type of that
/// import.
pub proof fn lemma_reexport_has_type_of_import(
    context: InstanceType,
    import: ResourceIndex,
    export: ResourceIndex,
)
    requires
        import == export,
    ensures
        context.resolve(import) == context.resolve(export),
{
}

/// Before instantiation, declarations that name different resources of one
/// component have different types.
pub proof fn lemma_distinct_resources_have_distinct_types(
    context: InstanceType,
    i: ResourceIndex,
    j: ResourceIndex,
)
    requires
        context.uninstantiated(),
        i != j,
    ensures
        context.resolve(i) != context.resolve(j),
{
}

/// A resource that a component defines has a different type in each of two
/// instances, and in neither the type that any resource has before
/// instantiation.
pub proof fn lemma_instances_define_distinct_types(
    declared: InstanceType,
    first: InstanceType,
    second: InstanceType,
    resource: ResourceIndex,
    x: InstanceId,
    y: InstanceId,
    defined: DefinedResourceIndex,
    any: ResourceIndex,
)
    requires
        declared.uninstantiated(),
        x != y,
        resource.0 < first.resources@.len(),
        resource.0 < second.resources@.len(),
        first.resources@[resource.0 as int] == (ResourceType::Guest { instance: x, id: defined }),
        second.resources@[resource.0 as int] == (ResourceType::Guest { instance: y, id: defined }),
    ensures
        first.resolve(resource) != second.resolve(resource),
        first.resolve(resource) != declared.resolve(any),
        second.resolve(resource) != declared.resolve(any),
{
}

} // verus!
