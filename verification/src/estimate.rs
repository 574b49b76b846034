//! How much an instantiation of a component will take, told from its plan
//! alone.

use crate::info::{GlobalInitializer, InstantiateModule, PlansView};
use crate::module::Module;
use crate::resources::{
    lemma_combine_grows, lemma_within_transitive, Demand, ResourcesRequired,
};
use vstd::prelude::*;

verus! {

/// Whether some step of the plan instantiates a module that is handed in as
/// an import.
pub open spec fn imports_module(plan: Seq<GlobalInitializer>) -> bool {
    exists|i: int| 0 <= i < plan.len() && #[trigger] plan[i].instantiates_import()
}

/// What the steps of the plan that instantiate one of the component's own
/// modules take together: the demands of those modules, one for each such
/// step, combined.
pub open spec fn static_demand(plan: Seq<GlobalInitializer>, modules: Seq<PlansView>) -> Demand
    decreases plan.len(),
{
    if plan.len() == 0 {
        Demand::empty()
    } else {
        let before = static_demand(plan.drop_last(), modules);
        match plan.last().static_module() {
            Some(m) => before.combine(modules[m.0 as int].demand()),
            None => before,
        }
    }
}

/// Whether every module that the plan instantiates as one of the component's
/// own is among `modules` and has consistent plans.
pub open spec fn modules_known(plan: Seq<GlobalInitializer>, modules: Seq<PlansView>) -> bool {
    forall|i: int|
        0 <= i < plan.len() ==> (#[trigger] plan[i].static_module() matches Some(m) ==> m.0
            < modules.len() && modules[m.0 as int].consistent())
}

/// Whether the demand of the plan can be computed and written down: its
/// modules are known and what they take together fits.
pub open spec fn estimable(plan: Seq<GlobalInitializer>, modules: Seq<PlansView>) -> bool {
    modules_known(plan, modules) && static_demand(plan, modules).fits()
}

/// What is known before instantiation of the resources that the plan will
/// take: nothing, where a module that is handed in as an import is
/// instantiated; otherwise the demand of the component's own modules.
pub open spec fn required(plan: Seq<GlobalInitializer>, modules: Seq<PlansView>) -> Option<Demand> {
    if imports_module(plan) {
        None
    } else {
        Some(static_demand(plan, modules))
    }
}

/// The plans of the modules in `modules`, in the same order.
pub open spec fn plans_of(modules: Seq<Module>) -> Seq<PlansView> {
    Seq::new(modules.len(), |i: int| modules[i].plans()@)
}

/// What a part of the plan takes is within what the whole plan takes.
pub proof fn lemma_static_demand_grows(
    plan: Seq<GlobalInitializer>,
    modules: Seq<PlansView>,
    i: int,
)
    requires
        0 <= i <= plan.len(),
    ensures
        static_demand(plan.take(i), modules).within(static_demand(plan, modules)),
    decreases plan.len() - i,
{
    if i == plan.len() {
        assert(plan.take(i) =~= plan);
    } else {
        lemma_static_demand_grows(plan, modules, i + 1);
        let next = plan.take(i + 1);
        assert(next.drop_last() =~= plan.take(i));
        let here = static_demand(plan.take(i), modules);
        if let Some(m) = next.last().static_module() {
            lemma_combine_grows(here, modules[m.0 as int].demand());
        }
        lemma_within_transitive(
            here,
            static_demand(next, modules),
            static_demand(plan, modules),
        );
    }
}

/// A plan of steps that instantiate nothing takes nothing, and a step that
/// instantiates one of the component's own modules adds the demand of that
/// module to what the steps before it take.
pub proof fn lemma_static_demand_step(
    plan: Seq<GlobalInitializer>,
    modules: Seq<PlansView>,
    step: GlobalInitializer,
)
    ensures
        static_demand(Seq::empty(), modules) == Demand::empty(),
        static_demand(plan.push(step), modules) == match step.static_module() {
            Some(m) => static_demand(plan, modules).combine(modules[m.0 as int].demand()),
            None => static_demand(plan, modules),
        },
{
    assert(plan.push(step).drop_last() =~= plan);
}

/// Tests whether some step of the plan instantiates a module that is handed
/// in as an import.
pub fn instantiates_import(plan: &Vec<GlobalInitializer>) -> (r: bool)
    ensures
        r == imports_module(plan@),
{
    let mut i: usize = 0;
    while i < plan.len()
        invariant
            i <= plan@.len(),
            forall|k: int| 0 <= k < i ==> !(#[trigger] plan@[k].instantiates_import()),
        decreases plan@.len() - i,
    {
        match plan[i] {
            GlobalInitializer::InstantiateModule(InstantiateModule::Import(_)) => {
                assert(plan@[i as int].instantiates_import());
                return true;
            },
            _ => {},
        }
        i = i + 1;
    }
    false
}

/// The resources that instantiating a component with the plan `plan` and the
/// modules `modules` will take, as far as they can be told beforehand: `None`
/// where the plan instantiates a module that is handed in as an import,
/// however many of the component's own modules it instantiates besides;
/// otherwise what those take together.
pub fn estimate(plan: &Vec<GlobalInitializer>, modules: &Vec<Module>) -> (r: Option<
    ResourcesRequired,
>)
    requires
        imports_module(plan@) || estimable(plan@, plans_of(modules@)),
    ensures
        r.is_none() <==> imports_module(plan@),
        match r {
            Some(total) => Some(total@),
            None => None,
        } == required(plan@, plans_of(modules@)),
{
    if instantiates_import(plan) {
        return None;
    }
    let ghost plans = plans_of(modules@);
    let mut resources = ResourcesRequired::none();
    let mut i: usize = 0;
    while i < plan.len()
        invariant
            i <= plan@.len(),
            plans == plans_of(modules@),
            estimable(plan@, plans),
            resources@ == static_demand(plan@.take(i as int), plans),
        decreases plan@.len() - i,
    {
        proof {
            lemma_static_demand_grows(plan@, plans, i + 1);
            assert(plan@.take(i + 1).drop_last() =~= plan@.take(i as int));
            lemma_within_transitive(
                static_demand(plan@.take(i + 1), plans),
                static_demand(plan@, plans),
                static_demand(plan@, plans),
            );
        }
        match plan[i] {
            GlobalInitializer::InstantiateModule(InstantiateModule::Static(index)) => {
                let module = &modules[index.0 as usize];
                proof {
                    let demand = plans[index.0 as int].demand();
                    lemma_combine_grows(resources@, demand);
                    plans[index.0 as int].lemma_countable_fits();
                }
                resources.add(&module.resources_required());
            },
            _ => {},
        }
        i = i + 1;
    }
    assert(plan@.take(i as int) =~= plan@);
    Some(resources)
}

/// Tests whether `estimate` can be asked of the plan and the modules: the
/// plan instantiates a module that is handed in as an import, or it is
/// estimable.
pub fn can_estimate(plan: &Vec<GlobalInitializer>, modules: &Vec<Module>) -> (ok: bool)
    ensures
        ok == (imports_module(plan@) || estimable(plan@, plans_of(modules@))),
{
    if instantiates_import(plan) {
        return true;
    }
    let ghost plans = plans_of(modules@);
    let mut resources = ResourcesRequired::none();
    let mut i: usize = 0;
    while i < plan.len()
        invariant
            i <= plan@.len(),
            plans == plans_of(modules@),
            !imports_module(plan@),
            modules_known(plan@.take(i as int), plans),
            resources@ == static_demand(plan@.take(i as int), plans),
            resources@.fits(),
        decreases plan@.len() - i,
    {
        proof {
            lemma_static_demand_grows(plan@, plans, i + 1);
            assert(plan@.take(i + 1).drop_last() =~= plan@.take(i as int));
            lemma_within_transitive(
                static_demand(plan@.take(i + 1), plans),
                static_demand(plan@, plans),
                static_demand(plan@, plans),
            );
        }
        match plan[i] {
            GlobalInitializer::InstantiateModule(InstantiateModule::Static(index)) => {
                if index.0 as usize >= modules.len() {
                    return false;
                }
                let module = &modules[index.0 as usize];
                proof {
                    let demand = plans[index.0 as int].demand();
                    lemma_combine_grows(resources@, demand);
                    if plans[index.0 as int].consistent() {
                        plans[index.0 as int].lemma_countable_fits();
                    }
                }
                if !module.env_module().is_countable() {
                    return false;
                }
                let needed = module.resources_required();
                if !resources.can_add(&needed) {
                    return false;
                }
                resources.add(&needed);
            },
            _ => {},
        }
        i = i + 1;
    }
    assert(plan@.take(i as int) =~= plan@);
    true
}

} // verus!
