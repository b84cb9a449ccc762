use vm_controller::controller::{reconcile, PassPlan};
use vm_controller::convergence::{next_write, ChildWrite, PodObservation, WriteStep};
use vm_controller::error::{error_policy, settle, settle_batch, Action, ApiFailure, ReconcileError};
use vm_controller::finalizer::{finish_cleanup, finish_write, guard, GuardStep};
use vm_controller::labels::with_label;
use vm_controller::pokemon::EventType;
use vm_controller::model::{
    ObjectMeta, Pokemon, PokemonSpec, PokemonStatus, VirtualMachine, VirtualMachineCurrentState,
    VirtualMachineDesiredState, VirtualMachineSpec, VirtualMachineStatus, POKEMON_FINALIZER,
    VIRTUAL_MACHINE_FINALIZER,
};
use vm_controller::state::AppState;
use vm_controller::status::merge_status;

fn meta(name: &str) -> ObjectMeta {
    ObjectMeta {
        namespace: Some("default".to_string()),
        name: Some(name.to_string()),
        uid: Some("uid-1".to_string()),
        labels: vec![("app".to_string(), "demo".to_string())],
        finalizers: vec![VIRTUAL_MACHINE_FINALIZER.to_string()],
        deleting: false,
    }
}

fn vm(name: &str, state: VirtualMachineDesiredState) -> VirtualMachine {
    VirtualMachine {
        metadata: meta(name),
        spec: VirtualMachineSpec { image: "ubuntu:22.04".to_string(), state },
        status: None,
    }
}

fn missing() -> ApiFailure {
    ApiFailure { code: Some(404) }
}

fn pod(started: Option<Vec<Option<bool>>>) -> Result<PodObservation, ApiFailure> {
    Ok(PodObservation { container_started: started })
}

/// A fake platform holding one machine's children, to run passes against.
struct Cluster {
    pod: Option<Option<Vec<Option<bool>>>>,
    service: bool,
    status: Option<String>,
    creates: usize,
    deletes: usize,
    /// Kinds of the writes made, in order.
    log: Vec<&'static str>,
    /// A write of this kind fails.
    fail: Option<&'static str>,
}

impl Cluster {
    fn empty() -> Cluster {
        Cluster { pod: None, service: false, status: None, creates: 0, deletes: 0, log: vec![], fail: None }
    }

    fn write(&mut self, w: &ChildWrite) -> Result<(), ApiFailure> {
        let kind = match w {
            ChildWrite::CreateService(_) => "create service",
            ChildWrite::CreatePod(_) => "create pod",
            ChildWrite::DeletePod => "delete pod",
            ChildWrite::DeleteService => "delete service",
            ChildWrite::PatchStatus(_) => "patch status",
        };
        self.log.push(kind);
        if self.fail == Some(kind) {
            return Err(ApiFailure { code: Some(500) });
        }
        match w {
            ChildWrite::CreateService(_) => {
                self.service = true;
                self.creates += 1;
            },
            ChildWrite::CreatePod(_) => {
                self.pod = Some(None);
                self.creates += 1;
            },
            ChildWrite::DeletePod => {
                self.pod = None;
                self.deletes += 1;
            },
            ChildWrite::DeleteService => {
                self.service = false;
                self.deletes += 1;
            },
            ChildWrite::PatchStatus(p) => self.status = Some(p.fields[0].1.clone()),
        }
        Ok(())
    }

    fn pass(&mut self, m: &VirtualMachine) -> Result<Action, ReconcileError> {
        let service = if self.service { Ok(()) } else { Err(missing()) };
        let pod = match &self.pod {
            Some(s) => Ok(PodObservation { container_started: s.clone() }),
            None => Err(missing()),
        };
        let plan = match reconcile(m, &service, &pod)? {
            PassPlan::Converge(c) => c,
            _ => panic!("expected convergence"),
        };
        let pending = plan.pending;
        let writes = plan.writes();
        let mut done = Vec::new();
        loop {
            match next_write(&done, writes.len(), pending) {
                WriteStep::Perform(i) => {
                    let r = self.write(&writes[i]);
                    done.push(r);
                },
                WriteStep::Done(outcome) => return outcome,
            }
        }
    }
}

#[test]
fn start_creates_service_and_pod_when_absent() {
    let m = vm("vm1", VirtualMachineDesiredState::STARTED);
    let c = m.start(&Err(missing()), &Err(missing())).unwrap();
    let s = c.create_service.unwrap();
    let p = c.create_pod.unwrap();
    assert_eq!(s.name, "vm1");
    assert_eq!(s.protocol, "TCP");
    assert_eq!(s.port, 80);
    assert_eq!(s.target_port, 80);
    let expected = vec![
        ("app".to_string(), "demo".to_string()),
        ("vms.codesandbox.io/name".to_string(), "vm1".to_string()),
    ];
    assert_eq!(s.selector, expected);
    assert_eq!(s.labels, expected);
    assert_eq!(p.labels, expected);
    assert_eq!(p.name, "vm1");
    assert_eq!(p.image, "ubuntu:22.04");
    assert_eq!(p.container_name, "vm-container");
    assert_eq!(p.owner.kind, "VirtualMachine");
    assert_eq!(p.owner.api_version, "codesandbox.io/v1alpha1");
    assert_eq!(p.owner.uid, "uid-1");
    assert!(p.owner.controller);
    assert_eq!(c.status, Some(VirtualMachineStatus { state: VirtualMachineCurrentState::STARTING }));
    assert!(!c.delete_pod && !c.delete_service);
}

#[test]
fn start_records_started_when_all_containers_started() {
    let m = vm("vm1", VirtualMachineDesiredState::STARTED);
    let c = m.start(&Ok(()), &pod(Some(vec![Some(true), Some(true)]))).unwrap();
    assert!(c.create_service.is_none() && c.create_pod.is_none());
    assert_eq!(c.status.unwrap().state, VirtualMachineCurrentState::STARTED);
}

#[test]
fn start_records_starting_while_a_container_is_not_started() {
    let m = vm("vm1", VirtualMachineDesiredState::STARTED);
    let c = m.start(&Ok(()), &pod(Some(vec![Some(true), None]))).unwrap();
    assert_eq!(c.status.unwrap().state, VirtualMachineCurrentState::STARTING);
    let c = m.start(&Ok(()), &pod(Some(vec![Some(false)]))).unwrap();
    assert_eq!(c.status.unwrap().state, VirtualMachineCurrentState::STARTING);
    let c = m.start(&Ok(()), &pod(None)).unwrap();
    assert_eq!(c.status.unwrap().state, VirtualMachineCurrentState::STARTING);
}

#[test]
fn start_surfaces_lookup_errors_other_than_not_found() {
    let m = vm("vm1", VirtualMachineDesiredState::STARTED);
    let denied = ApiFailure { code: Some(403) };
    assert_eq!(m.start(&Err(denied), &Err(missing())).unwrap_err(), ReconcileError::Api(denied));
    let down = ApiFailure { code: None };
    let c = m.start(&Ok(()), &Err(down)).unwrap();
    assert!(c.create_service.is_none() && c.create_pod.is_none() && c.status.is_none());
    assert_eq!(c.pending, Some(ReconcileError::Api(down)));
}

#[test]
fn start_creates_absent_service_before_surfacing_pod_error() {
    let m = vm("vm1", VirtualMachineDesiredState::STARTED);
    let broken = ApiFailure { code: Some(500) };
    let c = m.start(&Err(missing()), &Err(broken)).unwrap();
    assert_eq!(c.create_service.as_ref().unwrap().name, "vm1");
    assert!(c.create_pod.is_none() && c.status.is_none());
    assert_eq!(c.pending, Some(ReconcileError::Api(broken)));
    let pending = c.pending;
    let writes = c.writes();
    assert_eq!(writes.len(), 1);
    assert!(matches!(writes[0], ChildWrite::CreateService(_)));
    assert_eq!(next_write(&vec![Ok(())], writes.len(), pending), WriteStep::Done(Err(ReconcileError::Api(broken))));
}

#[test]
fn start_requires_identity() {
    let mut m = vm("vm1", VirtualMachineDesiredState::STARTED);
    m.metadata.uid = None;
    assert_eq!(m.start(&Ok(()), &pod(None)).unwrap_err(), ReconcileError::MissingUid);
    m.metadata.name = None;
    assert_eq!(m.start(&Ok(()), &pod(None)).unwrap_err(), ReconcileError::MissingName);
    m.metadata.namespace = None;
    assert_eq!(m.start(&Ok(()), &pod(None)).unwrap_err(), ReconcileError::MissingNamespace);
}

#[test]
fn stop_deletes_what_lookups_found() {
    let m = vm("vm1", VirtualMachineDesiredState::STOPPED);
    let c = m.stop(&pod(None), &Ok(())).unwrap();
    assert!(c.delete_pod && c.delete_service);
    assert!(c.create_pod.is_none() && c.create_service.is_none() && c.status.is_none());
    let c = m.stop(&Err(ApiFailure { code: Some(500) }), &Err(missing())).unwrap();
    assert!(!c.delete_pod && !c.delete_service);
}

#[test]
fn hibernate_is_reported_unimplemented() {
    let m = vm("vm1", VirtualMachineDesiredState::HIBERNATED);
    assert_eq!(m.reconcile(&Ok(()), &pod(None)).unwrap_err(), ReconcileError::Unimplemented);
    assert_eq!(m.hibernate().unwrap_err(), ReconcileError::Unimplemented);
}

#[test]
fn reconcile_twice_is_idempotent() {
    for d in [
        VirtualMachineDesiredState::STARTED,
        VirtualMachineDesiredState::STOPPED,
    ] {
        let m = vm("vm1", d);
        let mut c = Cluster::empty();
        c.pass(&m).unwrap();
        let (p, s, st, creates, deletes) = (c.pod.clone(), c.service, c.status.clone(), c.creates, c.deletes);
        c.pass(&m).unwrap();
        assert_eq!((c.pod.clone(), c.service, c.status.clone()), (p, s, st));
        assert_eq!((c.creates, c.deletes), (creates, deletes));
    }
}

#[test]
fn started_machine_converges_in_two_phases() {
    let m = vm("vm1", VirtualMachineDesiredState::STARTED);
    let mut c = Cluster::empty();
    assert_eq!(c.pass(&m).unwrap(), Action::Requeue { secs: 300 });
    assert_eq!(c.creates, 2);
    assert!(c.service && c.pod.is_some());
    assert_eq!(c.status.as_deref(), Some("STARTING"));
    c.pass(&m).unwrap();
    assert_eq!(c.creates, 2);
    assert_eq!(c.status.as_deref(), Some("STARTING"));
    c.pod = Some(Some(vec![Some(true)]));
    c.pass(&m).unwrap();
    assert_eq!(c.creates, 2);
    assert_eq!(c.status.as_deref(), Some("STARTED"));
}

#[test]
fn stopped_machine_tears_down_once() {
    let m = vm("vm1", VirtualMachineDesiredState::STOPPED);
    let mut c = Cluster::empty();
    c.pod = Some(Some(vec![Some(true)]));
    c.service = true;
    c.pass(&m).unwrap();
    assert_eq!(c.deletes, 2);
    assert!(c.pod.is_none() && !c.service);
    assert!(c.pass(&m).is_ok());
    assert_eq!(c.deletes, 2);
}

#[test]
fn guard_adds_missing_finalizer_once() {
    let mut md = meta("vm1");
    md.finalizers = vec!["other".to_string()];
    let step = guard(&md, VIRTUAL_MACHINE_FINALIZER).unwrap();
    let fins = match step {
        GuardStep::AddFinalizer { finalizers } => finalizers,
        _ => panic!("expected the marker to be added"),
    };
    assert_eq!(fins, vec!["other".to_string(), VIRTUAL_MACHINE_FINALIZER.to_string()]);
    md.finalizers = fins;
    assert!(matches!(guard(&md, VIRTUAL_MACHINE_FINALIZER), Ok(GuardStep::Apply)));
    assert_eq!(finish_write(Action::AwaitChange, &Ok(())), Ok(Action::AwaitChange));
}

#[test]
fn guard_runs_cleanup_before_removing_finalizer() {
    let mut md = meta("vm1");
    md.finalizers = vec!["other".to_string(), VIRTUAL_MACHINE_FINALIZER.to_string()];
    md.deleting = true;
    let index = match guard(&md, VIRTUAL_MACHINE_FINALIZER).unwrap() {
        GuardStep::Cleanup { index } => index,
        _ => panic!("expected cleanup"),
    };
    assert_eq!(index, 1);
    let m = VirtualMachine { metadata: md.clone(), ..vm("vm1", VirtualMachineDesiredState::STARTED) };
    let rm = finish_cleanup(&md, index, &Ok(m.cleanup())).unwrap();
    assert_eq!(rm.index, 1);
    assert_eq!(rm.finalizers, vec!["other".to_string()]);
    assert_eq!(rm.next, Action::AwaitChange);
    let failed = ApiFailure { code: Some(409) };
    assert_eq!(
        finish_write(rm.next, &Err(failed)),
        Err(ReconcileError::Api(failed))
    );
}

#[test]
fn failed_cleanup_keeps_finalizer_and_retries() {
    let mut md = meta("vm1");
    md.deleting = true;
    let err = ReconcileError::Api(ApiFailure { code: Some(503) });
    let out = finish_cleanup(&md, 0, &Err(err));
    assert_eq!(out.unwrap_err(), err);
    assert_eq!(md.finalizers, vec![VIRTUAL_MACHINE_FINALIZER.to_string()]);
    assert_eq!(settle(&Err(err)), Action::Requeue { secs: 300 });
}

#[test]
fn guard_edge_cases() {
    let mut md = meta("vm1");
    md.finalizers = vec![];
    md.deleting = true;
    assert!(matches!(guard(&md, VIRTUAL_MACHINE_FINALIZER), Ok(GuardStep::Finished(Action::AwaitChange))));
    md.deleting = false;
    md.name = None;
    assert!(matches!(guard(&md, VIRTUAL_MACHINE_FINALIZER), Err(ReconcileError::MissingName)));
    let mut md = meta("vm1");
    md.finalizers = vec![];
    match guard(&md, POKEMON_FINALIZER).unwrap() {
        GuardStep::AddFinalizer { finalizers } => {
            assert_eq!(finalizers, vec!["pokemon.pokemon.rs".to_string()])
        },
        _ => panic!("expected the marker to be added"),
    }
}

#[test]
fn error_policy_requeues_after_five_minutes() {
    assert_eq!(error_policy(&ReconcileError::Unimplemented), Action::Requeue { secs: 300 });
    assert_eq!(
        error_policy(&ReconcileError::Api(ApiFailure { code: Some(409) })),
        Action::Requeue { secs: 300 }
    );
    assert_eq!(settle(&Ok(Action::AwaitChange)), Action::AwaitChange);
}

#[test]
fn failure_of_one_object_does_not_affect_another() {
    let a_ok = vm("a", VirtualMachineDesiredState::STARTED);
    let b = vm("b", VirtualMachineDesiredState::STARTED);
    let b_outcome = b.reconcile(&Err(missing()), &Err(missing())).map(|_| Action::Requeue { secs: 300 });
    let a_fail = a_ok.reconcile(&Err(ApiFailure { code: Some(500) }), &Err(missing()));
    assert!(a_fail.is_err());
    let batch = vec![a_fail.map(|_| Action::AwaitChange), b_outcome.clone()];
    let alone = vec![Ok(Action::AwaitChange), b_outcome];
    let r1 = settle_batch(&batch);
    let r2 = settle_batch(&alone);
    assert_eq!(r1[1], r2[1]);
    assert_eq!(r1[1], Action::Requeue { secs: 300 });
    assert_eq!(r1[0], Action::Requeue { secs: 300 });
}

#[test]
fn status_merge_keeps_other_fields() {
    let doc = vec![
        ("message".to_string(), "ok".to_string()),
        ("state".to_string(), "STOPPED".to_string()),
        ("ip".to_string(), "10.0.0.1".to_string()),
    ];
    let patch = VirtualMachineStatus { state: VirtualMachineCurrentState::STARTED }.merge_patch();
    assert_eq!(patch.fields, vec![("state".to_string(), "STARTED".to_string())]);
    let merged = merge_status(&doc, &patch);
    assert_eq!(
        merged,
        vec![
            ("message".to_string(), "ok".to_string()),
            ("state".to_string(), "STARTED".to_string()),
            ("ip".to_string(), "10.0.0.1".to_string()),
        ]
    );
    let merged = merge_status(&vec![("ip".to_string(), "x".to_string())], &patch);
    assert_eq!(
        merged,
        vec![("ip".to_string(), "x".to_string()), ("state".to_string(), "STARTED".to_string())]
    );
}

#[test]
fn current_state_names() {
    assert_eq!(VirtualMachineCurrentState::HIBERNATING.name(), "HIBERNATING");
    assert_eq!(VirtualMachineCurrentState::STOPPING.name(), "STOPPING");
    assert_eq!(VirtualMachineCurrentState::default(), VirtualMachineCurrentState::STOPPED);
    assert_eq!(VirtualMachineDesiredState::default(), VirtualMachineDesiredState::STOPPED);
    assert_eq!(VirtualMachineStatus::default().state, VirtualMachineCurrentState::STOPPED);
}

#[test]
fn with_label_replaces_existing_key() {
    let labels = vec![
        ("vms.codesandbox.io/name".to_string(), "old".to_string()),
        ("app".to_string(), "demo".to_string()),
    ];
    let r = with_label(&labels, "vms.codesandbox.io/name", &"vm1".to_string());
    assert_eq!(r[0].1, "vm1");
    assert_eq!(r.len(), 2);
    assert_eq!(with_label(&vec![], "k", &"v".to_string()), vec![("k".to_string(), "v".to_string())]);
}

fn pokemon(health: u16, alive: Option<bool>) -> Pokemon {
    Pokemon {
        metadata: meta("pika"),
        spec: PokemonSpec { name: "Pikachu".to_string(), health },
        status: alive.map(|a| PokemonStatus { alive: a }),
    }
}

#[test]
fn pokemon_alive_follows_health() {
    let p = pokemon(10, None);
    assert!(!p.is_alive());
    let plan = p.reconcile().unwrap();
    assert!(plan.status.alive);
    let ev = plan.event.unwrap();
    assert_eq!(ev.event_type, EventType::Normal);
    assert_eq!(ev.reason, "Alive requested");
    assert_eq!(ev.note, "Aliving `pika`");
    assert_eq!(ev.action, "Aliving");
    let plan = pokemon(10, Some(true)).reconcile().unwrap();
    assert!(plan.event.is_none() && plan.status.alive);
    let plan = pokemon(0, Some(true)).reconcile().unwrap();
    assert!(plan.event.is_none() && !plan.status.alive);
    assert!(pokemon(0, Some(true)).is_alive());
    assert_eq!(Pokemon::complete(&Ok(())), Ok(Action::Requeue { secs: 300 }));
}

#[test]
fn pokemon_cleanup_announces_deletion() {
    let (ev, action) = pokemon(1, None).cleanup();
    assert_eq!(ev.reason, "DeleteRequested");
    assert_eq!(ev.note, "Delete `pika`");
    assert_eq!(ev.action, "Deleting");
    assert_eq!(action, Action::AwaitChange);
    let mut p = pokemon(1, None);
    p.metadata.namespace = None;
    assert_eq!(p.reconcile().unwrap_err(), ReconcileError::MissingNamespace);
}

#[test]
fn app_state_counts_passes_and_failures() {
    let mut s = AppState::default();
    s.record(&Ok(Action::AwaitChange));
    s.record(&Err(ReconcileError::Unimplemented));
    assert_eq!(s, AppState { reconciliations: 2, failures: 1 });
    let mut s = AppState { reconciliations: u64::MAX, failures: u64::MAX };
    s.record(&Err(ReconcileError::MissingUid));
    assert_eq!(s, AppState { reconciliations: u64::MAX, failures: u64::MAX });
}

#[test]
fn start_records_starting_for_empty_container_list() {
    let m = vm("vm1", VirtualMachineDesiredState::STARTED);
    let c = m.start(&Ok(()), &pod(Some(vec![]))).unwrap();
    assert_eq!(c.status.unwrap().state, VirtualMachineCurrentState::STARTING);
    assert!(!PodObservation { container_started: Some(vec![]) }.all_started());
}

#[test]
fn writes_come_in_order() {
    let m = vm("vm1", VirtualMachineDesiredState::STARTED);
    let mut c = Cluster::empty();
    c.pass(&m).unwrap();
    assert_eq!(c.log, vec!["create service", "create pod", "patch status"]);
    let m = vm("vm1", VirtualMachineDesiredState::STOPPED);
    c.log.clear();
    c.pass(&m).unwrap();
    assert_eq!(c.log, vec!["delete pod", "delete service"]);
}

#[test]
fn failed_create_ends_pass_without_status() {
    let m = vm("vm1", VirtualMachineDesiredState::STARTED);
    let mut c = Cluster::empty();
    c.fail = Some("create service");
    assert_eq!(c.pass(&m), Err(ReconcileError::Api(ApiFailure { code: Some(500) })));
    assert_eq!(c.log, vec!["create service"]);
    assert!(c.status.is_none() && c.pod.is_none());
}

#[test]
fn failed_pod_delete_skips_service_delete() {
    let m = vm("vm1", VirtualMachineDesiredState::STOPPED);
    let mut c = Cluster::empty();
    c.pod = Some(None);
    c.service = true;
    c.fail = Some("delete pod");
    assert_eq!(c.pass(&m), Err(ReconcileError::Api(ApiFailure { code: Some(500) })));
    assert_eq!(c.log, vec!["delete pod"]);
    assert!(c.service);
}

#[test]
fn next_write_steps_through_writes() {
    assert_eq!(next_write(&vec![], 2, None), WriteStep::Perform(0));
    assert_eq!(next_write(&vec![Ok(())], 2, None), WriteStep::Perform(1));
    assert_eq!(
        next_write(&vec![Ok(()), Ok(())], 2, None),
        WriteStep::Done(Ok(Action::Requeue { secs: 300 }))
    );
    let e = ApiFailure { code: Some(409) };
    assert_eq!(next_write(&vec![Ok(()), Err(e)], 3, None), WriteStep::Done(Err(ReconcileError::Api(e))));
    assert_eq!(next_write(&vec![], 0, None), WriteStep::Done(Ok(Action::Requeue { secs: 300 })));
    let p = ReconcileError::Api(ApiFailure { code: Some(500) });
    assert_eq!(next_write(&vec![Ok(())], 1, Some(p)), WriteStep::Done(Err(p)));
    assert_eq!(next_write(&vec![Err(e)], 1, Some(p)), WriteStep::Done(Err(ReconcileError::Api(e))));
}

#[test]
fn reconcile_adds_marker_then_converges() {
    let mut m = vm("vm1", VirtualMachineDesiredState::STARTED);
    m.metadata.finalizers = vec!["other".to_string()];
    let fins = match reconcile(&m, &Err(missing()), &Err(missing())).unwrap() {
        PassPlan::AddFinalizer { finalizers, next } => {
            assert_eq!(next, Action::AwaitChange);
            finalizers
        },
        _ => panic!("expected the marker to be added"),
    };
    assert_eq!(fins, vec!["other".to_string(), "vm.codesandbox.io".to_string()]);
    m.metadata.finalizers = fins;
    match reconcile(&m, &Err(missing()), &Err(missing())).unwrap() {
        PassPlan::Converge(c) => assert!(c.create_pod.is_some() && c.create_service.is_some()),
        _ => panic!("expected convergence"),
    }
}

#[test]
fn reconcile_releases_deleted_object_after_cleanup() {
    let mut m = vm("vm1", VirtualMachineDesiredState::STARTED);
    m.metadata.deleting = true;
    m.metadata.finalizers = vec![VIRTUAL_MACHINE_FINALIZER.to_string(), "other".to_string()];
    match reconcile(&m, &Ok(()), &pod(None)).unwrap() {
        PassPlan::RemoveFinalizer(rm) => {
            assert_eq!(rm.index, 0);
            assert_eq!(rm.finalizers, vec!["other".to_string()]);
            assert_eq!(rm.next, Action::AwaitChange);
        },
        _ => panic!("expected the marker to be removed"),
    }
    m.metadata.finalizers = vec!["other".to_string()];
    assert!(matches!(reconcile(&m, &Ok(()), &pod(None)), Ok(PassPlan::Finished(Action::AwaitChange))));
}

#[test]
fn pokemon_cleanup_of_nameless_object() {
    let mut p = pokemon(1, None);
    p.metadata.name = None;
    let (ev, _) = p.cleanup();
    assert_eq!(ev.note, "Delete ``");
}
