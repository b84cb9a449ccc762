//! The finalizer guard: every live object carries the finalizer marker, and the
//! marker is removed only after the object's cleanup succeeded.

use vstd::prelude::*;
use crate::error::{Action, ApiFailure, ReconcileError};
use crate::model::ObjectMeta;

verus! {

/// Finalizer markers as character sequences.
pub open spec fn names_view(s: Seq<String>) -> Seq<Seq<char>> {
    s.map_values(|f: String| f@)
}

/// Whether `fins` holds the marker `name`.
pub open spec fn has_finalizer(fins: Seq<Seq<char>>, name: Seq<char>) -> bool {
    exists|i: int| 0 <= i < fins.len() && fins[i] == name
}

/// `i` is the first position of `name` in `fins`.
pub open spec fn first_index(fins: Seq<Seq<char>>, name: Seq<char>, i: int) -> bool {
    &&& 0 <= i < fins.len()
    &&& fins[i] == name
    &&& forall|j: int| 0 <= j < i ==> fins[j] != name
}

/// What the guard does with an observed object.
#[derive(Clone, Debug)]
pub enum GuardStep {
    /// Live object with the marker: run the Apply path.
    Apply,
    /// Object being deleted with the marker at `index`: run the cleanup.
    Cleanup { index: usize },
    /// Live object without the marker: write `finalizers`, then wait for the
    /// change that the write causes.
    AddFinalizer { finalizers: Vec<String> },
    /// Object being deleted without the marker: nothing is left to do.
    Finished(Action),
}

/// The guard's decision for an object with metadata `meta`, as a relation
/// between the object and the step.
pub open spec fn guard_spec(meta: ObjectMeta, name: Seq<char>, r: Result<GuardStep, ReconcileError>) -> bool {
    let fins = names_view(meta.finalizers@);
    if has_finalizer(fins, name) {
        if meta.deleting {
            if meta.name is None {
                r == Err::<GuardStep, ReconcileError>(ReconcileError::MissingName)
            } else {
                r matches Ok(GuardStep::Cleanup { index }) && first_index(fins, name, index as int)
            }
        } else {
            r matches Ok(GuardStep::Apply)
        }
    } else {
        if meta.deleting {
            r matches Ok(GuardStep::Finished(a)) && a == Action::AwaitChange
        } else if meta.name is None {
            r == Err::<GuardStep, ReconcileError>(ReconcileError::MissingName)
        } else {
            r matches Ok(GuardStep::AddFinalizer { finalizers }) && names_view(finalizers@)
                == fins.push(name)
        }
    }
}

/// The first position of `name` among `fins`.
pub fn find_finalizer(fins: &Vec<String>, name: &str) -> (r: Option<usize>)
    ensures
        r is Some <==> has_finalizer(names_view(fins@), name@),
        r matches Some(i) ==> first_index(names_view(fins@), name@, i as int),
{
    let ghost view = names_view(fins@);
    let target = name.to_owned();
    let mut i: usize = 0;
    while i < fins.len()
        invariant
            i <= fins@.len(),
            view == names_view(fins@),
            target@ == name@,
            forall|j: int| 0 <= j < i ==> view[j] != name@,
        decreases fins@.len() - i,
    {
        if fins[i] == target {
            assert(view[i as int] == name@);
            return Some(i);
        }
        i += 1;
    }
    None
}

/// `fins` with `name` appended.
pub fn with_finalizer(fins: &Vec<String>, name: &str) -> (r: Vec<String>)
    ensures
        names_view(r@) == names_view(fins@).push(name@),
{
    let mut r: Vec<String> = Vec::new();
    let mut i: usize = 0;
    while i < fins.len()
        invariant
            i <= fins@.len(),
            names_view(r@) == names_view(fins@).take(i as int),
        decreases fins@.len() - i,
    {
        let ghost prev = r@;
        r.push(fins[i].clone());
        proof {
            assert(names_view(r@) =~= names_view(prev).push(fins@[i as int]@));
            assert(names_view(fins@).take(i + 1) =~= names_view(fins@).take(i as int).push(
                fins@[i as int]@,
            ));
        }
        i += 1;
    }
    let ghost prev = r@;
    r.push(name.to_owned());
    proof {
        assert(names_view(fins@).take(fins@.len() as int) =~= names_view(fins@));
        assert(names_view(r@) =~= names_view(prev).push(name@));
    }
    r
}

/// `fins` without the entry at `index`.
pub fn without_finalizer(fins: &Vec<String>, index: usize) -> (r: Vec<String>)
    requires
        index < fins@.len(),
    ensures
        names_view(r@) == names_view(fins@).remove(index as int),
{
    let ghost view = names_view(fins@);
    let mut r: Vec<String> = Vec::new();
    let mut i: usize = 0;
    while i < fins.len()
        invariant
            index < fins@.len(),
            i <= fins@.len(),
            view == names_view(fins@),
            i <= index ==> names_view(r@) == view.take(i as int),
            i > index ==> names_view(r@) == view.take(index as int) + view.subrange(
                index + 1,
                i as int,
            ),
        decreases fins@.len() - i,
    {
        let ghost prev = r@;
        if i != index {
            r.push(fins[i].clone());
            proof {
                assert(names_view(r@) =~= names_view(prev).push(view[i as int]));
                if i < index {
                    assert(view.take(i + 1) =~= view.take(i as int).push(view[i as int]));
                } else {
                    assert(view.subrange(index + 1, i + 1) =~= view.subrange(
                        index + 1,
                        i as int,
                    ).push(view[i as int]));
                    assert(names_view(r@) =~= view.take(index as int) + view.subrange(
                        index + 1,
                        i + 1,
                    ));
                }
            }
        } else {
            proof {
                assert(view.subrange(index + 1, i + 1) =~= Seq::<Seq<char>>::empty());
                assert(names_view(r@) =~= view.take(index as int) + view.subrange(
                    index + 1,
                    i + 1,
                ));
            }
        }
        i += 1;
    }
    proof {
        assert(view.remove(index as int) =~= view.take(index as int) + view.subrange(
            index + 1,
            fins@.len() as int,
        ));
    }
    r
}

/// The guard's step for an object, with the marker `name`.
pub fn guard(meta: &ObjectMeta, name: &str) -> (r: Result<GuardStep, ReconcileError>)
    ensures
        guard_spec(*meta, name@, r),
{
    match find_finalizer(&meta.finalizers, name) {
        Some(index) => {
            if meta.deleting {
                if meta.name.is_none() {
                    Err(ReconcileError::MissingName)
                } else {
                    Ok(GuardStep::Cleanup { index })
                }
            } else {
                Ok(GuardStep::Apply)
            }
        },
        None => {
            if meta.deleting {
                Ok(GuardStep::Finished(Action::AwaitChange))
            } else if meta.name.is_none() {
                Err(ReconcileError::MissingName)
            } else {
                Ok(GuardStep::AddFinalizer { finalizers: with_finalizer(&meta.finalizers, name) })
            }
        },
    }
}

/// The write that releases an object once its cleanup succeeded.
#[derive(Clone, Debug)]
pub struct FinalizerRemoval {
    /// Position of the marker, which the write checks before removing it.
    pub index: usize,
    /// The markers after the write.
    pub finalizers: Vec<String>,
    /// The cleanup's action, returned once the write succeeded.
    pub next: Action,
}

/// The step after a cleanup: remove the marker at `index` once the cleanup
/// succeeded, keep it and report the failure otherwise.
pub open spec fn finish_cleanup_spec(
    meta: ObjectMeta,
    index: usize,
    outcome: Result<Action, ReconcileError>,
    r: Result<FinalizerRemoval, ReconcileError>,
) -> bool {
    match outcome {
        Ok(a) => r matches Ok(rm) && rm.index == index && rm.next == a && names_view(rm.finalizers@)
            == names_view(meta.finalizers@).remove(index as int),
        Err(e) => r == Err::<FinalizerRemoval, ReconcileError>(e),
    }
}

/// After the cleanup of an object whose marker stands at `index`: on success,
/// remove the marker; on failure keep it and report the error for a retry.
pub fn finish_cleanup(meta: &ObjectMeta, index: usize, outcome: &Result<Action, ReconcileError>) -> (r:
    Result<FinalizerRemoval, ReconcileError>)
    requires
        index < meta.finalizers@.len(),
    ensures
        finish_cleanup_spec(*meta, index, *outcome, r),
{
    match outcome {
        Ok(a) => Ok(
            FinalizerRemoval {
                index,
                finalizers: without_finalizer(&meta.finalizers, index),
                next: *a,
            },
        ),
        Err(e) => Err(*e),
    }
}

/// Outcome of a pass that wrote to the object's markers: the given action once
/// the write succeeded, its failure otherwise.
pub fn finish_write(next: Action, write: &Result<(), ApiFailure>) -> (r: Result<Action, ReconcileError>)
    ensures
        r == (match *write {
            Ok(_) => Ok(next),
            Err(e) => Err(ReconcileError::Api(e)),
        }),
{
    match write {
        Ok(_) => Ok(next),
        Err(e) => Err(ReconcileError::Api(*e)),
    }
}

} // verus!
