//! Properties of the controller across reconcile passes, stated over a model of
//! the platform that holds one machine's children.

use vstd::prelude::*;
use crate::controller::{pass_spec, PassPlan};
use crate::convergence::{
    all_started, first_failure, identity_error, lemma_first_failure_extends, next_write_spec,
    plan_spec, write_if, writes_spec, PlanShape, PodObservation, WriteKind, WriteStep,
};
use crate::error::{default_requeue, settle_spec, Action, ApiFailure, ReconcileError};
use crate::finalizer::{
    finish_cleanup_spec, first_index, guard_spec, has_finalizer, names_view, FinalizerRemoval,
    GuardStep,
};
use crate::labels::has_key;
use crate::model::{
    current_state_name, ObjectMeta, VirtualMachine, VIRTUAL_MACHINE_FINALIZER, VirtualMachineCurrentState, VirtualMachineDesiredState,
};
use crate::status::{merge_spec, STATE_FIELD};

verus! {

/// What the platform holds for one machine: its Pod, whether its Service
/// exists, and the state last recorded in its status.
pub struct ClusterState {
    pub pod: Option<PodObservation>,
    pub service: bool,
    pub status: Option<VirtualMachineCurrentState>,
}

/// The failure of a lookup of an absent object.
pub open spec fn not_found() -> ApiFailure {
    ApiFailure { code: Some(404u16) }
}

/// What a lookup of the Service returns.
pub open spec fn observe_service(w: ClusterState) -> Result<(), ApiFailure> {
    if w.service {
        Ok(())
    } else {
        Err(not_found())
    }
}

/// What a lookup of the Pod returns.
pub open spec fn observe_pod(w: ClusterState) -> Result<PodObservation, ApiFailure> {
    match w.pod {
        Some(p) => Ok(p),
        None => Err(not_found()),
    }
}

/// A Pod just created: it reports no container statuses yet.
pub open spec fn fresh_pod() -> PodObservation {
    PodObservation { container_started: None }
}

/// The platform after the writes of a pass.
pub open spec fn apply_plan(w: ClusterState, s: PlanShape) -> ClusterState {
    ClusterState {
        pod: if s.delete_pod {
            None
        } else if s.create_pod && w.pod is None {
            Some(fresh_pod())
        } else {
            w.pod
        },
        service: if s.delete_service {
            false
        } else if s.create_service {
            true
        } else {
            w.service
        },
        status: if s.status is Some {
            s.status
        } else {
            w.status
        },
    }
}

/// The plan of a pass that observes `w`.
pub open spec fn plan_on(meta: ObjectMeta, d: VirtualMachineDesiredState, w: ClusterState) -> Result<
    PlanShape,
    ReconcileError,
> {
    plan_spec(meta, d, observe_service(w), observe_pod(w))
}

/// The platform after one pass on `w`; a failed pass writes nothing.
pub open spec fn reconcile_world(meta: ObjectMeta, d: VirtualMachineDesiredState, w: ClusterState) -> ClusterState {
    match plan_on(meta, d, w) {
        Ok(s) => apply_plan(w, s),
        Err(_) => w,
    }
}

/// A plan that creates and deletes nothing.
pub open spec fn no_child_writes(s: PlanShape) -> bool {
    !s.create_service && !s.create_pod && !s.delete_pod && !s.delete_service
}

/// Idempotence: a second pass with no change in between leaves the children and
/// the status as the first pass left them, and creates or deletes nothing.
pub proof fn lemma_reconcile_idempotent(meta: ObjectMeta, d: VirtualMachineDesiredState, w: ClusterState)
    ensures
        reconcile_world(meta, d, reconcile_world(meta, d, w)) == reconcile_world(meta, d, w),
        plan_on(meta, d, reconcile_world(meta, d, w)) matches Ok(s) ==> no_child_writes(s),
{
}

/// Idempotence of the guard: once the marker was added, the next pass on the
/// live object runs the Apply path and adds no second marker.
pub proof fn lemma_finalizer_added_once(
    meta: ObjectMeta,
    next: ObjectMeta,
    name: Seq<char>,
    first: Result<GuardStep, ReconcileError>,
    second: Result<GuardStep, ReconcileError>,
)
    requires
        guard_spec(meta, name, first),
        first matches Ok(GuardStep::AddFinalizer { finalizers }) && names_view(next.finalizers@)
            == names_view(finalizers@),
        !next.deleting,
        guard_spec(next, name, second),
    ensures
        second matches Ok(GuardStep::Apply),
{
    let fins = names_view(next.finalizers@);
    assert(fins[fins.len() - 1] == name);
}

/// Idempotence of a pass: a live machine without the marker gets it added once,
/// after the entries it had; the next pass on the object with those markers
/// converges it and adds no second marker.
pub proof fn lemma_pass_adds_marker_once(
    vm: VirtualMachine,
    next: VirtualMachine,
    service: Result<(), ApiFailure>,
    pod: Result<PodObservation, ApiFailure>,
    first: Result<PassPlan, ReconcileError>,
    second: Result<PassPlan, ReconcileError>,
)
    requires
        !vm.metadata.deleting,
        vm.metadata.name is Some,
        !has_finalizer(names_view(vm.metadata.finalizers@), VIRTUAL_MACHINE_FINALIZER@),
        pass_spec(vm, service, pod, first),
        first matches Ok(PassPlan::AddFinalizer { finalizers, .. }) && names_view(
            next.metadata.finalizers@,
        ) == names_view(finalizers@),
        !next.metadata.deleting,
        pass_spec(next, service, pod, second),
    ensures
        ({
            let fins = names_view(next.metadata.finalizers@);
            &&& fins.drop_last() == names_view(vm.metadata.finalizers@)
            &&& fins.last() == VIRTUAL_MACHINE_FINALIZER@
            &&& forall|i: int|
                0 <= i < fins.len() && #[trigger] fins[i] == VIRTUAL_MACHINE_FINALIZER@ ==> i
                    == fins.len() - 1
        }),
        !(second matches Ok(PassPlan::AddFinalizer { .. })),
        second is Ok ==> second->Ok_0 is Converge,
{
    let fins = names_view(next.metadata.finalizers@);
    let old_fins = names_view(vm.metadata.finalizers@);
    assert(fins.drop_last() =~= old_fins);
    assert(fins[fins.len() - 1] == VIRTUAL_MACHINE_FINALIZER@);
    assert forall|i: int|
        0 <= i < fins.len() && #[trigger] fins[i] == VIRTUAL_MACHINE_FINALIZER@ implies i == fins.len()
            - 1 by {
        if i < fins.len() - 1 {
            assert(old_fins[i] == fins[i]);
        }
    }
}

/// Idempotence of a pass on a live machine that already carries the marker:
/// the pass converges it and writes no marker.
pub proof fn lemma_pass_keeps_marker(
    vm: VirtualMachine,
    service: Result<(), ApiFailure>,
    pod: Result<PodObservation, ApiFailure>,
    r: Result<PassPlan, ReconcileError>,
)
    requires
        !vm.metadata.deleting,
        has_finalizer(names_view(vm.metadata.finalizers@), VIRTUAL_MACHINE_FINALIZER@),
        pass_spec(vm, service, pod, r),
    ensures
        r is Ok ==> r->Ok_0 is Converge,
{
}

/// Finalizer protocol of a pass: a machine being deleted that carries the
/// marker is cleaned up and then released by removing that marker alone; it is
/// never converged.
pub proof fn lemma_pass_releases_after_cleanup(
    vm: VirtualMachine,
    service: Result<(), ApiFailure>,
    pod: Result<PodObservation, ApiFailure>,
    r: Result<PassPlan, ReconcileError>,
)
    requires
        vm.metadata.deleting,
        vm.metadata.name is Some,
        has_finalizer(names_view(vm.metadata.finalizers@), VIRTUAL_MACHINE_FINALIZER@),
        pass_spec(vm, service, pod, r),
    ensures
        r matches Ok(PassPlan::RemoveFinalizer(rm)) && first_index(
            names_view(vm.metadata.finalizers@),
            VIRTUAL_MACHINE_FINALIZER@,
            rm.index as int,
        ) && names_view(rm.finalizers@) == names_view(vm.metadata.finalizers@).remove(
            rm.index as int,
        ) && rm.next == Action::AwaitChange,
{
}

/// Position of a kind of write in a pass.
pub open spec fn write_rank(k: WriteKind) -> int {
    match k {
        WriteKind::CreateService => 0,
        WriteKind::CreatePod => 1,
        WriteKind::DeletePod => 2,
        WriteKind::DeleteService => 3,
        WriteKind::PatchStatus(_) => 4,
    }
}

/// Ranks rise strictly along `w`.
pub open spec fn ranks_increase(w: Seq<WriteKind>) -> bool {
    forall|i: int, j: int| 0 <= i < j < w.len() ==> write_rank(#[trigger] w[i]) < write_rank(#[trigger] w[j])
}

/// Every rank in `w` is below `k`.
pub open spec fn ranks_below(w: Seq<WriteKind>, k: int) -> bool {
    forall|i: int| 0 <= i < w.len() ==> write_rank(#[trigger] w[i]) < k
}

proof fn lemma_append_rank(a: Seq<WriteKind>, b: Seq<WriteKind>, k: int)
    requires
        ranks_increase(a),
        ranks_below(a, k),
        b.len() <= 1,
        forall|i: int| 0 <= i < b.len() ==> write_rank(#[trigger] b[i]) == k,
    ensures
        ranks_increase(a + b),
        ranks_below(a + b, k + 1),
{
    let c = a + b;
    assert forall|i: int, j: int| 0 <= i < j < c.len() implies write_rank(#[trigger] c[i]) < write_rank(
        #[trigger] c[j],
    ) by {
        if j < a.len() {
            assert(c[i] == a[i] && c[j] == a[j]);
        } else {
            assert(c[i] == a[i]);
            assert(c[j] == b[j - a.len()]);
        }
    }
    assert forall|i: int| 0 <= i < c.len() implies write_rank(#[trigger] c[i]) < k + 1 by {
        if i < a.len() {
            assert(c[i] == a[i]);
        } else {
            assert(c[i] == b[i - a.len()]);
        }
    }
}

proof fn lemma_writes_ranked(s: PlanShape)
    ensures
        ranks_increase(writes_spec(s)),
{
    let w0 = Seq::<WriteKind>::empty();
    let w1 = write_if(s.create_service, WriteKind::CreateService);
    let w2 = write_if(s.create_pod, WriteKind::CreatePod);
    let w3 = write_if(s.delete_pod, WriteKind::DeletePod);
    let w4 = write_if(s.delete_service, WriteKind::DeleteService);
    let w5 = match s.status {
        Some(st) => seq![WriteKind::PatchStatus(st)],
        None => Seq::<WriteKind>::empty(),
    };
    lemma_append_rank(w0, w1, 0);
    assert(w0 + w1 =~= w1);
    lemma_append_rank(w1, w2, 1);
    lemma_append_rank(w1 + w2, w3, 2);
    lemma_append_rank(w1 + w2 + w3, w4, 3);
    lemma_append_rank(w1 + w2 + w3 + w4, w5, 4);
}

/// Write order: every create comes before any delete, the Pod's delete before
/// the Service's, and the status patch, where there is one, comes last.
pub proof fn lemma_write_order(s: PlanShape)
    ensures
        ({
            let w = writes_spec(s);
            &&& forall|i: int| 0 <= i < w.len() - 1 ==> !(#[trigger] w[i] is PatchStatus)
            &&& forall|i: int, j: int|
                0 <= i < w.len() && 0 <= j < w.len() && write_rank(#[trigger] w[i]) <= 1 && write_rank(
                    #[trigger] w[j],
                ) >= 2 ==> i < j
            &&& forall|i: int, j: int|
                0 <= i < w.len() && 0 <= j < w.len() && #[trigger] w[i] is DeletePod
                    && #[trigger] w[j] is DeleteService ==> i < j
        }),
{
    let w = writes_spec(s);
    lemma_writes_ranked(s);
    assert forall|i: int| 0 <= i < w.len() - 1 implies !(#[trigger] w[i] is PatchStatus) by {
        assert(write_rank(w[i]) < write_rank(w[w.len() - 1]));
    }
    assert forall|i: int, j: int|
        0 <= i < w.len() && 0 <= j < w.len() && write_rank(#[trigger] w[i]) <= 1 && write_rank(
            #[trigger] w[j],
        ) >= 2 implies i < j by {
        if j < i {
            assert(write_rank(w[j]) < write_rank(w[i]));
        }
    }
    assert forall|i: int, j: int|
        0 <= i < w.len() && 0 <= j < w.len() && #[trigger] w[i] is DeletePod
            && #[trigger] w[j] is DeleteService implies i < j by {
        if j < i {
            assert(write_rank(w[j]) < write_rank(w[i]));
        }
    }
}

/// A failed write ends the pass with its error: whatever answers come after it,
/// no further write is made.
pub proof fn lemma_failed_write_ends_pass(
    done: Seq<Result<(), ApiFailure>>,
    more: Seq<Result<(), ApiFailure>>,
    total: nat,
    pending: Option<ReconcileError>,
)
    requires
        first_failure(done) is Some,
    ensures
        next_write_spec(done + more, total, pending) == WriteStep::Done(
            Err(ReconcileError::Api(first_failure(done)->Some_0)),
        ),
{
    let all = done + more;
    assert(all.take(done.len() as int) =~= done);
    lemma_first_failure_extends(all, done.len() as int);
}

/// Convergence: for a started machine without children, the first pass creates
/// one Service and one Pod and records starting; the next pass creates nothing
/// and still records starting; once the Pod reports all containers started, a
/// pass records started and creates nothing.
pub proof fn lemma_start_converges(meta: ObjectMeta, w: ClusterState, started: PodObservation)
    requires
        identity_error(meta) is None,
        meta.uid is Some,
        w.pod is None,
        !w.service,
        all_started(started),
    ensures
        ({
            let d = VirtualMachineDesiredState::STARTED;
            let w1 = reconcile_world(meta, d, w);
            let w2 = ClusterState { pod: Some(started), ..w1 };
            &&& plan_on(meta, d, w) matches Ok(s1) && writes_spec(s1) == seq![
                WriteKind::CreateService,
                WriteKind::CreatePod,
                WriteKind::PatchStatus(VirtualMachineCurrentState::STARTING),
            ]
            &&& w1.status == Some(VirtualMachineCurrentState::STARTING)
            &&& plan_on(meta, d, w1) matches Ok(s2) && no_child_writes(s2) && s2.status == Some(
                VirtualMachineCurrentState::STARTING,
            )
            &&& plan_on(meta, d, w2) matches Ok(s3) && writes_spec(s3) == seq![
                WriteKind::PatchStatus(VirtualMachineCurrentState::STARTED),
            ]
        }),
{
    let d = VirtualMachineDesiredState::STARTED;
    let s1 = plan_on(meta, d, w)->Ok_0;
    assert(writes_spec(s1) =~= seq![
        WriteKind::CreateService,
        WriteKind::CreatePod,
        WriteKind::PatchStatus(VirtualMachineCurrentState::STARTING),
    ]);
    let w2 = ClusterState { pod: Some(started), ..reconcile_world(meta, d, w) };
    let s3 = plan_on(meta, d, w2)->Ok_0;
    assert(writes_spec(s3) =~= seq![WriteKind::PatchStatus(VirtualMachineCurrentState::STARTED)]);
}

/// Teardown safety: a stopped machine with both children deletes each once; the
/// pass after that deletes nothing and does not fail.
pub proof fn lemma_stop_tears_down(meta: ObjectMeta, w: ClusterState)
    requires
        identity_error(meta) is None,
        w.pod is Some,
        w.service,
    ensures
        ({
            let d = VirtualMachineDesiredState::STOPPED;
            let w1 = reconcile_world(meta, d, w);
            &&& plan_on(meta, d, w) matches Ok(s1) && writes_spec(s1) == seq![
                WriteKind::DeletePod,
                WriteKind::DeleteService,
            ]
            &&& w1.pod is None && !w1.service
            &&& plan_on(meta, d, w1) matches Ok(s2) && writes_spec(s2).len() == 0
        }),
{
    let d = VirtualMachineDesiredState::STOPPED;
    let s1 = plan_on(meta, d, w)->Ok_0;
    assert(writes_spec(s1) =~= seq![WriteKind::DeletePod, WriteKind::DeleteService]);
    let s2 = plan_on(meta, d, reconcile_world(meta, d, w))->Ok_0;
    assert(writes_spec(s2) =~= Seq::<WriteKind>::empty());
}

/// Finalizer protocol: an object being deleted that carries the marker goes to
/// cleanup; the marker is removed only after a successful cleanup, and a failed
/// cleanup keeps it and schedules a retry.
pub proof fn lemma_finalizer_protocol(
    meta: ObjectMeta,
    name: Seq<char>,
    step: Result<GuardStep, ReconcileError>,
    cleanup: Result<Action, ReconcileError>,
    done: Result<FinalizerRemoval, ReconcileError>,
)
    requires
        meta.deleting,
        meta.name is Some,
        has_finalizer(names_view(meta.finalizers@), name),
        guard_spec(meta, name, step),
        step matches Ok(GuardStep::Cleanup { index }) ==> finish_cleanup_spec(
            meta,
            index,
            cleanup,
            done,
        ),
    ensures
        step matches Ok(GuardStep::Cleanup { index }) && first_index(
            names_view(meta.finalizers@),
            name,
            index as int,
        ),
        cleanup is Err ==> done is Err && settle_spec(
            Err(done->Err_0),
        ) == default_requeue(),
        cleanup is Ok ==> (done matches Ok(rm) && step matches Ok(GuardStep::Cleanup { index })
            && names_view(rm.finalizers@) == names_view(meta.finalizers@).remove(index as int)),
{
}

/// Error isolation: in two batches that differ only in the outcome of object
/// `i`, every other object gets the same next action, and a failed object is
/// retried after the fixed delay.
pub proof fn lemma_error_isolation(
    a: Seq<Result<Action, ReconcileError>>,
    b: Seq<Result<Action, ReconcileError>>,
    ra: Seq<Action>,
    rb: Seq<Action>,
    i: int,
)
    requires
        a.len() == b.len(),
        0 <= i < a.len(),
        forall|j: int| 0 <= j < a.len() && j != i ==> a[j] == b[j],
        ra.len() == a.len(),
        rb.len() == b.len(),
        forall|j: int| 0 <= j < a.len() ==> ra[j] == settle_spec(#[trigger] a[j]),
        forall|j: int| 0 <= j < b.len() ==> rb[j] == settle_spec(#[trigger] b[j]),
    ensures
        forall|j: int| 0 <= j < a.len() && j != i ==> #[trigger] ra[j] == rb[j],
        a[i] is Err ==> ra[i] == default_requeue(),
{
    assert forall|j: int| 0 <= j < a.len() && j != i implies #[trigger] ra[j] == rb[j] by {
        assert(a[j] == b[j]);
    }
}

/// Status non-clobber: merging the patch that records a current state keeps
/// every other field of the document in place, and sets the state field.
pub proof fn lemma_status_merge_keeps_fields(
    doc: Seq<(Seq<char>, Seq<char>)>,
    state: VirtualMachineCurrentState,
)
    ensures
        ({
            let merged = merge_spec(doc, seq![(STATE_FIELD@, current_state_name(state))]);
            &&& merged.len() >= doc.len()
            &&& forall|i: int|
                0 <= i < doc.len() && (#[trigger] doc[i]).0 != STATE_FIELD@ ==> merged[i] == doc[i]
            &&& has_key(merged, STATE_FIELD@)
            &&& forall|i: int|
                0 <= i < merged.len() && (#[trigger] merged[i]).0 == STATE_FIELD@ ==> merged[i].1
                    == current_state_name(state)
        }),
{
    let patch = seq![(STATE_FIELD@, current_state_name(state))];
    assert(patch.drop_last() =~= Seq::<(Seq<char>, Seq<char>)>::empty());
    assert(merge_spec(doc, patch.drop_last()) == doc);
    let merged = merge_spec(doc, patch);
    if !has_key(doc, STATE_FIELD@) {
        assert(merged[doc.len() as int].0 == STATE_FIELD@);
    } else {
        let j = choose|j: int| 0 <= j < doc.len() && (#[trigger] doc[j]).0 == STATE_FIELD@;
        assert(merged[j].0 == STATE_FIELD@);
    }
}

} // verus!
