//! One reconcile pass of a `VirtualMachine`: the finalizer guard first, then
//! cleanup for an object being deleted or convergence for a live one.

use vstd::prelude::*;
use crate::convergence::{creates_children, plan_spec, Convergence, PodObservation};
use crate::error::{Action, ApiFailure, ReconcileError};
use crate::finalizer::{
    finish_cleanup, first_index, guard, has_finalizer, names_view, FinalizerRemoval, GuardStep,
};
use crate::model::{VirtualMachine, VIRTUAL_MACHINE_FINALIZER};

verus! {

/// The writes that one pass makes.
#[derive(Clone, Debug)]
pub enum PassPlan {
    /// Live object carrying the marker: converge its children.
    Converge(Convergence),
    /// Object being deleted whose cleanup succeeded: remove the marker.
    RemoveFinalizer(FinalizerRemoval),
    /// Live object without the marker: write these markers, then wait for the
    /// change that the write causes.
    AddFinalizer { finalizers: Vec<String>, next: Action },
    /// Nothing to write.
    Finished(Action),
}

/// The pass on `vm`, whose Service and Pod lookups returned `service` and `pod`.
pub open spec fn pass_spec(
    vm: VirtualMachine,
    service: Result<(), ApiFailure>,
    pod: Result<PodObservation, ApiFailure>,
    r: Result<PassPlan, ReconcileError>,
) -> bool {
    let meta = vm.metadata;
    let name = VIRTUAL_MACHINE_FINALIZER@;
    let fins = names_view(meta.finalizers@);
    if has_finalizer(fins, name) {
        if meta.deleting {
            if meta.name is None {
                r == Err::<PassPlan, ReconcileError>(ReconcileError::MissingName)
            } else {
                r matches Ok(PassPlan::RemoveFinalizer(rm)) && first_index(fins, name, rm.index as int)
                    && rm.next == Action::AwaitChange && names_view(rm.finalizers@) == fins.remove(
                    rm.index as int,
                )
            }
        } else {
            match r {
                Ok(PassPlan::Converge(c)) => plan_spec(meta, vm.spec.state, service, pod) == Ok::<
                    _,
                    ReconcileError,
                >(c.shape()) && creates_children(vm, Ok(c)),
                Ok(_) => false,
                Err(e) => plan_spec(meta, vm.spec.state, service, pod) == Err::<
                    crate::convergence::PlanShape,
                    ReconcileError,
                >(e),
            }
        }
    } else {
        if meta.deleting {
            r == Ok::<PassPlan, ReconcileError>(PassPlan::Finished(Action::AwaitChange))
        } else if meta.name is None {
            r == Err::<PassPlan, ReconcileError>(ReconcileError::MissingName)
        } else {
            r matches Ok(PassPlan::AddFinalizer { finalizers, next }) && names_view(finalizers@)
                == fins.push(name) && next == Action::AwaitChange
        }
    }
}

/// One pass on `vm`: add the marker to a live object that lacks it, converge a
/// live object that has it, and release an object being deleted once its
/// cleanup is done.
pub fn reconcile(
    vm: &VirtualMachine,
    service: &Result<(), ApiFailure>,
    pod: &Result<PodObservation, ApiFailure>,
) -> (r: Result<PassPlan, ReconcileError>)
    ensures
        pass_spec(*vm, *service, *pod, r),
{
    match guard(&vm.metadata, VIRTUAL_MACHINE_FINALIZER) {
        Err(e) => Err(e),
        Ok(GuardStep::Apply) => match vm.reconcile(service, pod) {
            Ok(c) => Ok(PassPlan::Converge(c)),
            Err(e) => Err(e),
        },
        Ok(GuardStep::Cleanup { index }) => {
            let cleanup = vm.cleanup();
            match finish_cleanup(&vm.metadata, index, &Ok(cleanup)) {
                Ok(rm) => Ok(PassPlan::RemoveFinalizer(rm)),
                Err(e) => Err(e),
            }
        },
        Ok(GuardStep::AddFinalizer { finalizers }) => Ok(
            PassPlan::AddFinalizer { finalizers, next: Action::AwaitChange },
        ),
        Ok(GuardStep::Finished(a)) => Ok(PassPlan::Finished(a)),
    }
}

} // verus!
