//! Convergence of a `VirtualMachine`: from its desired state and the observed
//! child resources to the child operations and the status to record.

use vstd::prelude::*;
use crate::error::{is_not_found, Action, ApiFailure, ReconcileError, default_requeue};
use crate::status::StatusPatch;
use crate::labels::{labels_view, set_label, with_label};
use crate::status::STATE_FIELD;
use crate::model::{
    current_state_name, ObjectMeta, VirtualMachine, VirtualMachineCurrentState, VirtualMachineDesiredState,
    VirtualMachineStatus, REQUEUE_SECS, VM_LABEL_KEY,
};

verus! {

/// API version of the `VirtualMachine` kind.
pub const VM_API_VERSION: &'static str = "codesandbox.io/v1alpha1";

/// Kind name of `VirtualMachine` objects.
pub const VM_KIND: &'static str = "VirtualMachine";

/// Name of the container that runs the machine's image.
pub const VM_CONTAINER_NAME: &'static str = "vm-container";

/// Protocol of the Service's port.
pub const SERVICE_PROTOCOL: &'static str = "TCP";

/// Port that the Service exposes and forwards to.
pub const SERVICE_PORT: i32 = 80;

/// What a lookup of the machine's Pod showed.
#[derive(Clone, Debug)]
pub struct PodObservation {
    /// The `started` flag of each container status, or `None` where the Pod
    /// reports no container statuses yet.
    pub container_started: Option<Vec<Option<bool>>>,
}

/// Whether the Pod reports at least one container status and each of them
/// reports started.
pub open spec fn all_started(p: PodObservation) -> bool {
    match p.container_started {
        Some(v) => v@.len() > 0 && forall|i: int| 0 <= i < v@.len() ==> v@[i] == Some(true),
        None => false,
    }
}

impl PodObservation {
    /// Whether all containers of the Pod report started.
    pub fn all_started(&self) -> (r: bool)
        ensures
            r == all_started(*self),
    {
        match &self.container_started {
            None => false,
            Some(v) => {
                if v.len() == 0 {
                    return false;
                }
                let mut i: usize = 0;
                while i < v.len()
                    invariant
                        self.container_started == Some(*v),
                        i <= v@.len(),
                        forall|j: int| 0 <= j < i ==> v@[j] == Some(true),
                    decreases v@.len() - i,
                {
                    match v[i] {
                        Some(b) => {
                            if !b {
                                return false;
                            }
                        },
                        None => {
                            return false;
                        },
                    }
                    i += 1;
                }
                true
            },
        }
    }
}

/// Back-reference from a child resource to the machine that controls it.
#[derive(Clone, Debug)]
pub struct OwnerReference {
    pub api_version: String,
    pub kind: String,
    pub name: String,
    pub uid: String,
    pub controller: bool,
}

/// The Pod that runs a machine.
#[derive(Clone, Debug)]
pub struct PodTemplate {
    pub name: String,
    pub labels: Vec<(String, String)>,
    pub owner: OwnerReference,
    pub container_name: String,
    pub image: String,
}

/// The Service in front of a machine's Pod.
#[derive(Clone, Debug)]
pub struct ServiceTemplate {
    pub name: String,
    pub labels: Vec<(String, String)>,
    /// Selects the Pod by its labels.
    pub selector: Vec<(String, String)>,
    pub owner: OwnerReference,
    pub protocol: String,
    pub port: i32,
    pub target_port: i32,
}

/// The writes of one reconcile pass, performed in this order: create the
/// Service, create the Pod, delete the Pod, delete the Service, patch the status.
#[derive(Clone, Debug)]
pub struct Convergence {
    pub create_service: Option<ServiceTemplate>,
    pub create_pod: Option<PodTemplate>,
    pub delete_pod: bool,
    pub delete_service: bool,
    pub status: Option<VirtualMachineStatus>,
    /// A lookup failure that ends the pass once the writes before it are made.
    pub pending: Option<ReconcileError>,
}

/// Which writes a pass makes, without the objects it creates.
#[derive(Clone, Copy, Debug, PartialEq, Eq, Structural)]
pub struct PlanShape {
    pub create_service: bool,
    pub create_pod: bool,
    pub delete_pod: bool,
    pub delete_service: bool,
    pub status: Option<VirtualMachineCurrentState>,
    pub pending: Option<ReconcileError>,
}

impl Convergence {
    pub open spec fn shape(&self) -> PlanShape {
        PlanShape {
            create_service: self.create_service is Some,
            create_pod: self.create_pod is Some,
            delete_pod: self.delete_pod,
            delete_service: self.delete_service,
            status: match self.status {
                Some(s) => Some(s.state),
                None => None,
            },
            pending: self.pending,
        }
    }
}

/// One write to the cluster.
#[derive(Clone, Debug)]
pub enum ChildWrite {
    CreateService(ServiceTemplate),
    CreatePod(PodTemplate),
    DeletePod,
    DeleteService,
    /// Merge patch on the machine's status.
    PatchStatus(StatusPatch),
}

/// Which write a `ChildWrite` is; a status patch with the state it records.
#[derive(Clone, Copy, Debug, PartialEq, Eq, Structural)]
pub enum WriteKind {
    CreateService,
    CreatePod,
    DeletePod,
    DeleteService,
    PatchStatus(VirtualMachineCurrentState),
}

/// `w` when `b` holds, nothing otherwise.
pub open spec fn write_if(b: bool, w: WriteKind) -> Seq<WriteKind> {
    if b {
        seq![w]
    } else {
        Seq::empty()
    }
}

/// The writes of a plan, in the order they are made: creates, then deletes
/// (the Pod before the Service), then the status patch last.
pub open spec fn writes_spec(s: PlanShape) -> Seq<WriteKind> {
    write_if(s.create_service, WriteKind::CreateService) + write_if(s.create_pod, WriteKind::CreatePod)
        + write_if(s.delete_pod, WriteKind::DeletePod) + write_if(
        s.delete_service,
        WriteKind::DeleteService,
    ) + match s.status {
        Some(st) => seq![WriteKind::PatchStatus(st)],
        None => Seq::empty(),
    }
}

/// What `w` writes; a status patch is tied to its state by `patches`.
pub open spec fn write_matches(w: ChildWrite, k: WriteKind) -> bool {
    match k {
        WriteKind::CreateService => w is CreateService,
        WriteKind::CreatePod => w is CreatePod,
        WriteKind::DeletePod => w is DeletePod,
        WriteKind::DeleteService => w is DeleteService,
        WriteKind::PatchStatus(st) => w matches ChildWrite::PatchStatus(p) && labels_view(p.fields@)
            == seq![(STATE_FIELD@, current_state_name(st))],
    }
}

/// The first failure among the answers to the writes made so far.
pub open spec fn first_failure(rs: Seq<Result<(), ApiFailure>>) -> Option<ApiFailure>
    decreases rs.len(),
{
    if rs.len() == 0 {
        None
    } else {
        match first_failure(rs.drop_last()) {
            Some(e) => Some(e),
            None => match rs.last() {
                Err(e) => Some(e),
                Ok(_) => None,
            },
        }
    }
}

/// What the pass does after the answers `done` to its first writes.
#[derive(Clone, Copy, Debug, PartialEq, Eq)]
pub enum WriteStep {
    /// Make the write at this position of the plan's list.
    Perform(usize),
    /// The pass is over, with this outcome.
    Done(Result<Action, ReconcileError>),
}

/// The next step of a pass with `total` writes: the first failed write ends
/// the pass with its error; otherwise the writes are made one after another,
/// and after the last the pass ends with the pending error, or requeues.
pub open spec fn next_write_spec(
    done: Seq<Result<(), ApiFailure>>,
    total: nat,
    pending: Option<ReconcileError>,
) -> WriteStep {
    match first_failure(done) {
        Some(e) => WriteStep::Done(Err(ReconcileError::Api(e))),
        None => if done.len() < total {
            WriteStep::Perform(done.len() as usize)
        } else {
            match pending {
                Some(e) => WriteStep::Done(Err(e)),
                None => WriteStep::Done(Ok(default_requeue())),
            }
        },
    }
}

/// The step after the answers `done` to the first writes of a pass with
/// `total` writes and the error `pending` left for its end.
pub fn next_write(done: &Vec<Result<(), ApiFailure>>, total: usize, pending: Option<ReconcileError>) -> (r:
    WriteStep)
    ensures
        r == next_write_spec(done@, total as nat, pending),
{
    let mut i: usize = 0;
    while i < done.len()
        invariant
            i <= done@.len(),
            first_failure(done@.take(i as int)) is None,
        decreases done@.len() - i,
    {
        proof {
            assert(done@.take(i + 1).drop_last() =~= done@.take(i as int));
        }
        if let Err(e) = &done[i] {
            proof {
                let pre = done@.take(i + 1);
                assert(pre.last() == done@[i as int]);
                lemma_first_failure_extends(done@, i as int + 1);
            }
            return WriteStep::Done(Err(ReconcileError::Api(*e)));
        }
        i += 1;
    }
    proof {
        assert(done@.take(done@.len() as int) =~= done@);
    }
    if done.len() < total {
        WriteStep::Perform(done.len())
    } else {
        match pending {
            Some(e) => WriteStep::Done(Err(e)),
            None => WriteStep::Done(Ok(Action::Requeue { secs: REQUEUE_SECS })),
        }
    }
}

/// A failure among the first `n` answers stays the first failure of all of them.
pub proof fn lemma_first_failure_extends(rs: Seq<Result<(), ApiFailure>>, n: int)
    requires
        0 <= n <= rs.len(),
        first_failure(rs.take(n)) is Some,
    ensures
        first_failure(rs) == first_failure(rs.take(n)),
    decreases rs.len() - n,
{
    if n < rs.len() {
        assert(rs.take(n + 1).drop_last() =~= rs.take(n));
        lemma_first_failure_extends(rs, n + 1);
    } else {
        assert(rs.take(n) =~= rs);
    }
}

impl Convergence {
    /// The plan's writes, in the order they are made.
    pub fn writes(self) -> (r: Vec<ChildWrite>)
        ensures
            r@.len() == writes_spec(self.shape()).len(),
            forall|i: int| 0 <= i < r@.len() ==> write_matches(r@[i], writes_spec(self.shape())[i]),
            forall|i: int|
                0 <= i < r@.len() ==> (#[trigger] r@[i] matches ChildWrite::CreateService(t) ==> self.create_service == Some(t)),
            forall|i: int|
                0 <= i < r@.len() ==> (#[trigger] r@[i] matches ChildWrite::CreatePod(t) ==> self.create_pod == Some(t)),
    {
        let ghost shape = self.shape();
        let ghost cs = self.create_service;
        let ghost cp = self.create_pod;
        let mut r: Vec<ChildWrite> = Vec::new();
        if let Some(t) = self.create_service {
            r.push(ChildWrite::CreateService(t));
        }
        if let Some(t) = self.create_pod {
            r.push(ChildWrite::CreatePod(t));
        }
        if self.delete_pod {
            r.push(ChildWrite::DeletePod);
        }
        if self.delete_service {
            r.push(ChildWrite::DeleteService);
        }
        if let Some(st) = self.status {
            r.push(ChildWrite::PatchStatus(st.merge_patch()));
        }
        proof {
            assert(writes_spec(shape).len() == r@.len());
            assert forall|i: int| 0 <= i < r@.len() implies write_matches(r@[i], writes_spec(shape)[i]) by {
            }
        }
        r
    }
}

/// A planned pass, with the created objects left out.
pub open spec fn shape_of(r: Result<Convergence, ReconcileError>) -> Result<PlanShape, ReconcileError> {
    match r {
        Ok(c) => Ok(c.shape()),
        Err(e) => Err(e),
    }
}

/// A lookup that failed for another reason than absence.
pub open spec fn lookup_failed<T>(l: Result<T, ApiFailure>) -> bool {
    l matches Err(e) && !is_not_found(e)
}

/// A lookup that reported the object absent (404): the only trigger of a create.
pub open spec fn lookup_absent<T>(l: Result<T, ApiFailure>) -> bool {
    l matches Err(e) && is_not_found(e)
}

/// The state recorded on the start path: started once the Pod that was looked
/// up reports all its containers started, starting otherwise.
pub open spec fn start_state(pod: Result<PodObservation, ApiFailure>) -> VirtualMachineCurrentState {
    if pod matches Ok(p) && all_started(p) {
        VirtualMachineCurrentState::STARTED
    } else {
        VirtualMachineCurrentState::STARTING
    }
}

/// The error of a pass whose object lacks a namespace or a name.
pub open spec fn identity_error(meta: ObjectMeta) -> Option<ReconcileError> {
    if meta.namespace is None {
        Some(ReconcileError::MissingNamespace)
    } else if meta.name is None {
        Some(ReconcileError::MissingName)
    } else {
        None
    }
}

/// Writes of the start path: create what a lookup reported absent, then record
/// the observed state. Lookup failures other than absence are surfaced: one of
/// the Service ends the pass before any write; one of the Pod ends it after the
/// Service's create, where that lookup reported it absent, and records nothing.
pub open spec fn start_spec(
    meta: ObjectMeta,
    service: Result<(), ApiFailure>,
    pod: Result<PodObservation, ApiFailure>,
) -> Result<PlanShape, ReconcileError> {
    if identity_error(meta) is Some {
        Err(identity_error(meta)->Some_0)
    } else if meta.uid is None {
        Err(ReconcileError::MissingUid)
    } else if lookup_failed(service) {
        Err(ReconcileError::Api(service->Err_0))
    } else if lookup_failed(pod) {
        Ok(
            PlanShape {
                create_service: lookup_absent(service),
                create_pod: false,
                delete_pod: false,
                delete_service: false,
                status: None,
                pending: Some(ReconcileError::Api(pod->Err_0)),
            },
        )
    } else {
        Ok(
            PlanShape {
                create_service: lookup_absent(service),
                create_pod: lookup_absent(pod),
                delete_pod: false,
                delete_service: false,
                status: Some(start_state(pod)),
                pending: None,
            },
        )
    }
}

/// Writes of the stop path: delete each child whose lookup succeeded; a failed
/// lookup means there is nothing to delete.
pub open spec fn stop_spec(
    meta: ObjectMeta,
    pod: Result<PodObservation, ApiFailure>,
    service: Result<(), ApiFailure>,
) -> Result<PlanShape, ReconcileError> {
    if identity_error(meta) is Some {
        Err(identity_error(meta)->Some_0)
    } else {
        Ok(
            PlanShape {
                create_service: false,
                create_pod: false,
                delete_pod: pod is Ok,
                delete_service: service is Ok,
                status: None,
                pending: None,
            },
        )
    }
}

/// Writes of one Apply pass for the desired state `desired`.
pub open spec fn plan_spec(
    meta: ObjectMeta,
    desired: VirtualMachineDesiredState,
    service: Result<(), ApiFailure>,
    pod: Result<PodObservation, ApiFailure>,
) -> Result<PlanShape, ReconcileError> {
    match desired {
        VirtualMachineDesiredState::STOPPED => stop_spec(meta, pod, service),
        VirtualMachineDesiredState::STARTED => start_spec(meta, service, pod),
        VirtualMachineDesiredState::HIBERNATED => Err(ReconcileError::Unimplemented),
    }
}

/// The owner reference that a machine's children carry.
pub open spec fn owner_spec(vm: VirtualMachine, o: OwnerReference) -> bool {
    &&& o.api_version@ == VM_API_VERSION@
    &&& o.kind@ == VM_KIND@
    &&& vm.metadata.name matches Some(n) && o.name@ == n@
    &&& vm.metadata.uid matches Some(u) && o.uid@ == u@
    &&& o.controller
}

/// The machine's labels with the selector label set to its name.
pub open spec fn child_labels(vm: VirtualMachine) -> Seq<(Seq<char>, Seq<char>)> {
    set_label(labels_view(vm.metadata.labels@), VM_LABEL_KEY@, vm.metadata.name->Some_0@)
}

/// The Pod of a machine: named after it, labelled for the Service, running its image.
pub open spec fn pod_spec(vm: VirtualMachine, t: PodTemplate) -> bool {
    &&& vm.metadata.name matches Some(n) && t.name@ == n@
    &&& labels_view(t.labels@) == child_labels(vm)
    &&& owner_spec(vm, t.owner)
    &&& t.container_name@ == VM_CONTAINER_NAME@
    &&& t.image@ == vm.spec.image@
}

/// The Service of a machine: named after it, selecting its Pod's labels.
pub open spec fn service_spec(vm: VirtualMachine, t: ServiceTemplate) -> bool {
    &&& vm.metadata.name matches Some(n) && t.name@ == n@
    &&& labels_view(t.labels@) == child_labels(vm)
    &&& labels_view(t.selector@) == child_labels(vm)
    &&& owner_spec(vm, t.owner)
    &&& t.protocol@ == SERVICE_PROTOCOL@
    &&& t.port == SERVICE_PORT
    &&& t.target_port == SERVICE_PORT
}

/// The objects that a planned pass creates are the machine's own children.
pub open spec fn creates_children(vm: VirtualMachine, r: Result<Convergence, ReconcileError>) -> bool {
    r matches Ok(c) ==> {
        &&& (c.create_service matches Some(t) ==> service_spec(vm, t))
        &&& (c.create_pod matches Some(t) ==> pod_spec(vm, t))
    }
}

fn identity_check(meta: &ObjectMeta) -> (r: Result<(), ReconcileError>)
    ensures
        r is Err <==> identity_error(*meta) is Some,
        r matches Err(e) ==> identity_error(*meta) == Some(e),
{
    if meta.namespace.is_none() {
        Err(ReconcileError::MissingNamespace)
    } else if meta.name.is_none() {
        Err(ReconcileError::MissingName)
    } else {
        Ok(())
    }
}

impl VirtualMachine {
    /// The reference by which children name this machine as their controller.
    pub fn controller_owner_ref(&self) -> (r: Option<OwnerReference>)
        ensures
            r is Some <==> (self.metadata.name is Some && self.metadata.uid is Some),
            r matches Some(o) ==> owner_spec(*self, o),
    {
        match (&self.metadata.name, &self.metadata.uid) {
            (Some(n), Some(u)) => Some(
                OwnerReference {
                    api_version: VM_API_VERSION.to_owned(),
                    kind: VM_KIND.to_owned(),
                    name: n.clone(),
                    uid: u.clone(),
                    controller: true,
                },
            ),
            _ => None,
        }
    }

    /// The owner reference of a machine that has a name and an identity.
    fn owner(&self) -> (r: OwnerReference)
        requires
            self.metadata.name is Some,
            self.metadata.uid is Some,
        ensures
            owner_spec(*self, r),
    {
        match self.controller_owner_ref() {
            Some(o) => o,
            None => {
                proof {
                    assert(false);
                }
                OwnerReference {
                    api_version: String::new(),
                    kind: String::new(),
                    name: String::new(),
                    uid: String::new(),
                    controller: false,
                }
            },
        }
    }

    /// The machine's labels with the selector label set to its name.
    fn child_labels(&self) -> (r: Vec<(String, String)>)
        requires
            self.metadata.name is Some,
        ensures
            labels_view(r@) == child_labels(*self),
    {
        match &self.metadata.name {
            Some(n) => with_label(&self.metadata.labels, VM_LABEL_KEY, n),
            None => {
                proof {
                    assert(false);
                }
                Vec::new()
            },
        }
    }

    /// The machine's name, where it has one.
    fn name_or_empty(&self) -> (r: String)
        ensures
            self.metadata.name matches Some(n) ==> r@ == n@,
    {
        match &self.metadata.name {
            Some(n) => n.clone(),
            None => String::new(),
        }
    }

    /// The Service that fronts the machine's Pod.
    fn service_template(&self) -> (r: ServiceTemplate)
        requires
            self.metadata.name is Some,
            self.metadata.uid is Some,
        ensures
            service_spec(*self, r),
    {
        ServiceTemplate {
            name: self.name_or_empty(),
            labels: self.child_labels(),
            selector: self.child_labels(),
            owner: self.owner(),
            protocol: SERVICE_PROTOCOL.to_owned(),
            port: SERVICE_PORT,
            target_port: SERVICE_PORT,
        }
    }

    /// The Pod that runs the machine's image.
    fn pod_template(&self) -> (r: PodTemplate)
        requires
            self.metadata.name is Some,
            self.metadata.uid is Some,
        ensures
            pod_spec(*self, r),
    {
        PodTemplate {
            name: self.name_or_empty(),
            labels: self.child_labels(),
            owner: self.owner(),
            container_name: VM_CONTAINER_NAME.to_owned(),
            image: self.spec.image.clone(),
        }
    }

    /// Start path: plan the Service and the Pod where their lookups reported
    /// them absent, and the state to record.
    pub fn start(&self, service: &Result<(), ApiFailure>, pod: &Result<PodObservation, ApiFailure>) -> (r:
        Result<Convergence, ReconcileError>)
        ensures
            shape_of(r) == start_spec(self.metadata, *service, *pod),
            creates_children(*self, r),
    {
        identity_check(&self.metadata)?;
        if self.metadata.uid.is_none() {
            return Err(ReconcileError::MissingUid);
        }
        if let Err(e) = service {
            if !e.is_not_found() {
                return Err(ReconcileError::Api(*e));
            }
        }
        let create_service = match service {
            Err(_) => Some(self.service_template()),
            Ok(_) => None,
        };
        if let Err(e) = pod {
            if !e.is_not_found() {
                return Ok(
                    Convergence {
                        create_service,
                        create_pod: None,
                        delete_pod: false,
                        delete_service: false,
                        status: None,
                        pending: Some(ReconcileError::Api(*e)),
                    },
                );
            }
        }
        let create_pod = match pod {
            Err(_) => Some(self.pod_template()),
            Ok(_) => None,
        };
        let state = match pod {
            Ok(p) => if p.all_started() {
                VirtualMachineCurrentState::STARTED
            } else {
                VirtualMachineCurrentState::STARTING
            },
            Err(_) => VirtualMachineCurrentState::STARTING,
        };
        Ok(
            Convergence {
                create_service,
                create_pod,
                delete_pod: false,
                delete_service: false,
                status: Some(VirtualMachineStatus { state }),
                pending: None,
            },
        )
    }

    /// Stop path: delete the Pod and the Service where their lookups found them.
    pub fn stop(&self, pod: &Result<PodObservation, ApiFailure>, service: &Result<(), ApiFailure>) -> (r:
        Result<Convergence, ReconcileError>)
        ensures
            shape_of(r) == stop_spec(self.metadata, *pod, *service),
            creates_children(*self, r),
    {
        identity_check(&self.metadata)?;
        Ok(
            Convergence {
                create_service: None,
                create_pod: None,
                delete_pod: pod.is_ok(),
                delete_service: service.is_ok(),
                status: None,
                pending: None,
            },
        )
    }

    /// Hibernation has no defined child-resource semantics: the pass reports
    /// it as unimplemented rather than as converged.
    pub fn hibernate(&self) -> (r: Result<Convergence, ReconcileError>)
        ensures
            r == Err::<Convergence, ReconcileError>(ReconcileError::Unimplemented),
    {
        Err(ReconcileError::Unimplemented)
    }

    /// The writes of one Apply pass, from the desired state and the lookups of
    /// the machine's Service and Pod.
    pub fn reconcile(&self, service: &Result<(), ApiFailure>, pod: &Result<PodObservation, ApiFailure>) -> (r:
        Result<Convergence, ReconcileError>)
        ensures
            shape_of(r) == plan_spec(self.metadata, self.spec.state, *service, *pod),
            creates_children(*self, r),
    {
        match self.spec.state {
            VirtualMachineDesiredState::STOPPED => self.stop(pod, service),
            VirtualMachineDesiredState::STARTED => self.start(service, pod),
            VirtualMachineDesiredState::HIBERNATED => self.hibernate(),
        }
    }

    /// Cleanup on deletion: children are removed by the platform through their
    /// owner references, so the pass only waits for the deletion to finish.
    pub fn cleanup(&self) -> (r: Action)
        ensures
            r == Action::AwaitChange,
    {
        Action::AwaitChange
    }
}

} // verus!
