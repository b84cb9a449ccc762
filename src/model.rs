//! Resource model: metadata, specs and statuses of the managed resources.

use vstd::prelude::*;

verus! {

/// Finalizer marker of `VirtualMachine` objects.
pub const VIRTUAL_MACHINE_FINALIZER: &'static str = "vm.codesandbox.io";

/// Finalizer marker of `Pokemon` objects.
pub const POKEMON_FINALIZER: &'static str = "pokemon.pokemon.rs";

/// Label that ties a virtual machine's Service to its Pod.
pub const VM_LABEL_KEY: &'static str = "vms.codesandbox.io/name";

/// Delay, in seconds, after which an object is reconciled again.
pub const REQUEUE_SECS: u64 = 300;

/// Lifecycle phase that the owner of a virtual machine asks for.
#[allow(non_camel_case_types)]
#[derive(Clone, Copy, Debug, PartialEq, Eq, Structural)]
pub enum VirtualMachineDesiredState {
    STOPPED,
    STARTED,
    HIBERNATED,
}

impl Default for VirtualMachineDesiredState {
    fn default() -> (r: Self)
        ensures
            r == VirtualMachineDesiredState::STOPPED,
    {
        VirtualMachineDesiredState::STOPPED
    }
}

/// Lifecycle phase that the controller observed and recorded.
#[allow(non_camel_case_types)]
#[derive(Clone, Copy, Debug, PartialEq, Eq, Structural)]
pub enum VirtualMachineCurrentState {
    STOPPED,
    STOPPING,
    STARTED,
    STARTING,
    HIBERNATING,
    HIBERNATED,
}

impl Default for VirtualMachineCurrentState {
    fn default() -> (r: Self)
        ensures
            r == VirtualMachineCurrentState::STOPPED,
    {
        VirtualMachineCurrentState::STOPPED
    }
}

/// The name under which a current state is written into the status.
pub open spec fn current_state_name(s: VirtualMachineCurrentState) -> Seq<char> {
    match s {
        VirtualMachineCurrentState::STOPPED => "STOPPED"@,
        VirtualMachineCurrentState::STOPPING => "STOPPING"@,
        VirtualMachineCurrentState::STARTED => "STARTED"@,
        VirtualMachineCurrentState::STARTING => "STARTING"@,
        VirtualMachineCurrentState::HIBERNATING => "HIBERNATING"@,
        VirtualMachineCurrentState::HIBERNATED => "HIBERNATED"@,
    }
}

impl VirtualMachineCurrentState {
    /// The state's name, as it appears in the status document.
    pub fn name(&self) -> (r: String)
        ensures
            r@ == current_state_name(*self),
    {
        match self {
            VirtualMachineCurrentState::STOPPED => "STOPPED".to_owned(),
            VirtualMachineCurrentState::STOPPING => "STOPPING".to_owned(),
            VirtualMachineCurrentState::STARTED => "STARTED".to_owned(),
            VirtualMachineCurrentState::STARTING => "STARTING".to_owned(),
            VirtualMachineCurrentState::HIBERNATING => "HIBERNATING".to_owned(),
            VirtualMachineCurrentState::HIBERNATED => "HIBERNATED".to_owned(),
        }
    }
}

/// Metadata of a managed object, as far as the controller reads it.
#[derive(Clone, Debug)]
pub struct ObjectMeta {
    pub namespace: Option<String>,
    pub name: Option<String>,
    pub uid: Option<String>,
    /// Labels; the platform holds one entry per key (`keys_unique`).
    pub labels: Vec<(String, String)>,
    /// Finalizer markers, in the order the platform holds them.
    pub finalizers: Vec<String>,
    /// Whether the platform has set a deletion timestamp.
    pub deleting: bool,
}

/// Desired state of a virtual machine.
#[derive(Clone, Debug)]
pub struct VirtualMachineSpec {
    /// Root filesystem image that the Pod's container runs.
    pub image: String,
    pub state: VirtualMachineDesiredState,
}

/// Observed state of a virtual machine.
#[derive(Clone, Copy, Debug, PartialEq, Eq, Structural)]
pub struct VirtualMachineStatus {
    pub state: VirtualMachineCurrentState,
}

impl Default for VirtualMachineStatus {
    fn default() -> (r: Self)
        ensures
            r.state == VirtualMachineCurrentState::STOPPED,
    {
        VirtualMachineStatus { state: VirtualMachineCurrentState::STOPPED }
    }
}

/// A `VirtualMachine` object.
#[derive(Clone, Debug)]
pub struct VirtualMachine {
    pub metadata: ObjectMeta,
    pub spec: VirtualMachineSpec,
    pub status: Option<VirtualMachineStatus>,
}

/// Desired state of a pokemon.
#[derive(Clone, Debug)]
pub struct PokemonSpec {
    pub name: String,
    pub health: u16,
}

/// Observed state of a pokemon.
#[derive(Clone, Copy, Debug, PartialEq, Eq, Structural)]
pub struct PokemonStatus {
    pub alive: bool,
}

/// A `Pokemon` object.
#[derive(Clone, Debug)]
pub struct Pokemon {
    pub metadata: ObjectMeta,
    pub spec: PokemonSpec,
    pub status: Option<PokemonStatus>,
}

impl Pokemon {
    /// Whether the recorded status says the pokemon is alive (false without a status).
    pub fn is_alive(&self) -> (r: bool)
        ensures
            r == (self.status matches Some(s) && s.alive),
    {
        match &self.status {
            Some(s) => s.alive,
            None => false,
        }
    }
}

} // verus!
