//! Status writes as merge patches: a patch names only the fields it sets, so
//! fields written by others survive it.

use vstd::prelude::*;
use crate::labels::{labels_view, set_label, with_label};
use crate::model::{current_state_name, VirtualMachineStatus};

verus! {

/// Name of the status field that holds a machine's current state.
pub const STATE_FIELD: &'static str = "state";

/// A merge patch on a status document: each field is set to its value, in order.
#[derive(Clone, Debug)]
pub struct StatusPatch {
    pub fields: Vec<(String, String)>,
}

/// A status document (one value per field) after a merge patch.
pub open spec fn merge_spec(doc: Seq<(Seq<char>, Seq<char>)>, patch: Seq<(Seq<char>, Seq<char>)>) -> Seq<
    (Seq<char>, Seq<char>),
>
    decreases patch.len(),
{
    if patch.len() == 0 {
        doc
    } else {
        set_label(merge_spec(doc, patch.drop_last()), patch.last().0, patch.last().1)
    }
}

impl VirtualMachineStatus {
    /// The merge patch that records this status: the state field alone.
    pub fn merge_patch(&self) -> (r: StatusPatch)
        ensures
            labels_view(r.fields@) == seq![(STATE_FIELD@, current_state_name(self.state))],
    {
        let mut fields: Vec<(String, String)> = Vec::new();
        fields.push((STATE_FIELD.to_owned(), self.state.name()));
        proof {
            assert(labels_view(fields@) =~= seq![(STATE_FIELD@, current_state_name(self.state))]);
        }
        StatusPatch { fields }
    }
}

/// A status document after the merge patch `patch`.
pub fn merge_status(doc: &Vec<(String, String)>, patch: &StatusPatch) -> (r: Vec<(String, String)>)
    ensures
        labels_view(r@) == merge_spec(labels_view(doc@), labels_view(patch.fields@)),
{
    let ghost pv = labels_view(patch.fields@);
    let mut r: Vec<(String, String)> = Vec::new();
    let mut i: usize = 0;
    while i < doc.len()
        invariant
            i <= doc@.len(),
            labels_view(r@) == labels_view(doc@).take(i as int),
        decreases doc@.len() - i,
    {
        let ghost prev = r@;
        r.push((doc[i].0.clone(), doc[i].1.clone()));
        proof {
            assert(labels_view(r@) =~= labels_view(prev).push(labels_view(doc@)[i as int]));
            assert(labels_view(doc@).take(i + 1) =~= labels_view(doc@).take(i as int).push(
                labels_view(doc@)[i as int],
            ));
        }
        i += 1;
    }
    proof {
        assert(labels_view(doc@).take(doc@.len() as int) =~= labels_view(doc@));
        assert(pv.take(0) =~= Seq::<(Seq<char>, Seq<char>)>::empty());
    }
    let mut j: usize = 0;
    while j < patch.fields.len()
        invariant
            j <= patch.fields@.len(),
            pv == labels_view(patch.fields@),
            labels_view(r@) == merge_spec(labels_view(doc@), pv.take(j as int)),
        decreases patch.fields@.len() - j,
    {
        let key = &patch.fields[j].0;
        r = with_label(&r, key.as_str(), &patch.fields[j].1);
        proof {
            assert(pv.take(j + 1).drop_last() =~= pv.take(j as int));
            assert(pv.take(j + 1).last() == pv[j as int]);
        }
        j += 1;
    }
    proof {
        assert(pv.take(patch.fields@.len() as int) =~= pv);
    }
    r
}

} // verus!
