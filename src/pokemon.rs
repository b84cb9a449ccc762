//! Reconcile pass of a `Pokemon`: record whether it is alive, and announce a
//! pokemon that comes alive.

use vstd::prelude::*;
use vstd::string::StringExecFns;
use crate::convergence::identity_error;
use crate::error::{default_requeue, Action, ApiFailure, ReconcileError};
use crate::model::{Pokemon, PokemonStatus, REQUEUE_SECS};

verus! {

/// Category of a diagnostic event.
#[derive(Clone, Copy, Debug, PartialEq, Eq, Structural)]
pub enum EventType {
    Normal,
    Warning,
}

/// A diagnostic event attached to the reconciled object. Publishing it is best
/// effort: its failure does not fail the pass.
#[derive(Clone, Debug)]
pub struct DiagnosticEvent {
    pub event_type: EventType,
    pub reason: String,
    pub note: String,
    pub action: String,
}

/// The writes of one Apply pass of a pokemon.
#[derive(Clone, Debug)]
pub struct PokemonPlan {
    /// Event to publish before the status is written.
    pub event: Option<DiagnosticEvent>,
    /// The status to write, computed from the spec alone.
    pub status: PokemonStatus,
}

/// `prefix`, then `name`, then a closing backquote.
pub open spec fn quoted_note(prefix: Seq<char>, name: Seq<char>) -> Seq<char> {
    prefix + name + "`"@
}

fn quoted(prefix: &str, name: &String) -> (r: String)
    ensures
        r@ == quoted_note(prefix@, name@),
{
    prefix.to_owned().concat(name.as_str()).concat("`")
}

/// The plan of an Apply pass of `pk`.
pub open spec fn plan_spec(pk: Pokemon, p: PokemonPlan) -> bool {
    let should_alive = pk.spec.health > 0;
    &&& p.status.alive == should_alive
    &&& p.event is Some <==> (!(pk.status matches Some(s) && s.alive) && should_alive)
    &&& p.event matches Some(ev) ==> {
        &&& ev.event_type == EventType::Normal
        &&& ev.reason@ == "Alive requested"@
        &&& ev.note@ == quoted_note("Aliving `"@, pk.metadata.name->Some_0@)
        &&& ev.action@ == "Aliving"@
    }
}

impl Pokemon {
    /// Apply pass: the pokemon should be alive exactly when its health is
    /// positive; an event announces one that was not alive and should be.
    pub fn reconcile(&self) -> (r: Result<PokemonPlan, ReconcileError>)
        ensures
            identity_error(self.metadata) is Some ==> r == Err::<PokemonPlan, ReconcileError>(
                identity_error(self.metadata)->Some_0,
            ),
            identity_error(self.metadata) is None ==> (r matches Ok(p) && plan_spec(*self, p)),
    {
        if self.metadata.namespace.is_none() {
            return Err(ReconcileError::MissingNamespace);
        }
        let name = match &self.metadata.name {
            Some(n) => n,
            None => {
                return Err(ReconcileError::MissingName);
            },
        };
        let should_alive = self.spec.health > 0;
        let event = if !self.is_alive() && should_alive {
            Some(
                DiagnosticEvent {
                    event_type: EventType::Normal,
                    reason: "Alive requested".to_owned(),
                    note: quoted("Aliving `", name),
                    action: "Aliving".to_owned(),
                },
            )
        } else {
            None
        };
        Ok(PokemonPlan { event, status: PokemonStatus { alive: should_alive } })
    }

    /// Outcome of an Apply pass once its status was written: requeue after the
    /// default delay, or the write's failure.
    pub fn complete(write: &Result<(), ApiFailure>) -> (r: Result<Action, ReconcileError>)
        ensures
            r == (match *write {
                Ok(_) => Ok(default_requeue()),
                Err(e) => Err(ReconcileError::Api(e)),
            }),
    {
        match write {
            Ok(_) => Ok(Action::Requeue { secs: REQUEUE_SECS }),
            Err(e) => Err(ReconcileError::Api(*e)),
        }
    }

    /// Cleanup on deletion: nothing is owned outside the object, so the pass
    /// announces the deletion and waits for it to finish.
    pub fn cleanup(&self) -> (r: (DiagnosticEvent, Action))
        ensures
            r.0.event_type == EventType::Normal,
            r.0.reason@ == "DeleteRequested"@,
            self.metadata.name matches Some(n) ==> r.0.note@ == quoted_note("Delete `"@, n@),
            self.metadata.name is None ==> r.0.note@ == quoted_note("Delete `"@, Seq::empty()),
            r.0.action@ == "Deleting"@,
            r.1 == Action::AwaitChange,
    {
        let name = match &self.metadata.name {
            Some(n) => n.clone(),
            None => String::new(),
        };
        (
            DiagnosticEvent {
                event_type: EventType::Normal,
                reason: "DeleteRequested".to_owned(),
                note: quoted("Delete `", &name),
                action: "Deleting".to_owned(),
            },
            Action::AwaitChange,
        )
    }
}

} // verus!
