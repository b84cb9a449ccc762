//! Counters that the controller updates after each pass and that the health
//! endpoint reads. The state is built by the process and handed to the loop,
//! so each test can use its own.

use vstd::prelude::*;
use crate::error::{Action, ReconcileError};

verus! {

/// `n + 1`, held at the largest value.
pub open spec fn bump(n: u64) -> u64 {
    if n < u64::MAX {
        (n + 1) as u64
    } else {
        n
    }
}

/// Reconcile counters shared between the controller and the health endpoint.
#[derive(Clone, Copy, Debug, PartialEq, Eq, Structural)]
pub struct AppState {
    /// Passes run, successful or not.
    pub reconciliations: u64,
    /// Passes that failed.
    pub failures: u64,
}

impl Default for AppState {
    fn default() -> (r: Self)
        ensures
            r.reconciliations == 0,
            r.failures == 0,
    {
        AppState { reconciliations: 0, failures: 0 }
    }
}

impl AppState {
    /// Counts one finished pass.
    pub fn record(&mut self, outcome: &Result<Action, ReconcileError>)
        ensures
            final(self).reconciliations == bump(old(self).reconciliations),
            final(self).failures == if outcome is Err {
                bump(old(self).failures)
            } else {
                old(self).failures
            },
    {
        if self.reconciliations < u64::MAX {
            self.reconciliations = self.reconciliations + 1;
        }
        if outcome.is_err() && self.failures < u64::MAX {
            self.failures = self.failures + 1;
        }
    }
}

} // verus!
