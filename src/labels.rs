//! Label sets held as pairs, with one entry per key.

use vstd::prelude::*;

verus! {

/// A label set as pairs of character sequences.
pub open spec fn labels_view(s: Seq<(String, String)>) -> Seq<(Seq<char>, Seq<char>)> {
    s.map_values(|p: (String, String)| (p.0@, p.1@))
}

/// Whether some entry carries key `k`.
pub open spec fn has_key(s: Seq<(Seq<char>, Seq<char>)>, k: Seq<char>) -> bool {
    exists|i: int| 0 <= i < s.len() && (#[trigger] s[i]).0 == k
}

/// The entry of `p` after setting key `k` to `v`.
pub open spec fn set_entry(p: (Seq<char>, Seq<char>), k: Seq<char>, v: Seq<char>) -> (
    Seq<char>,
    Seq<char>,
) {
    if p.0 == k {
        (k, v)
    } else {
        p
    }
}

/// `s` with key `k` set to `v`: entries with that key take the new value, and
/// where none has it the pair is appended.
pub open spec fn set_label(s: Seq<(Seq<char>, Seq<char>)>, k: Seq<char>, v: Seq<char>) -> Seq<
    (Seq<char>, Seq<char>),
> {
    if has_key(s, k) {
        s.map_values(|p: (Seq<char>, Seq<char>)| set_entry(p, k, v))
    } else {
        s.push((k, v))
    }
}

/// Each key occurs in at most one entry.
pub open spec fn keys_unique(s: Seq<(Seq<char>, Seq<char>)>) -> bool {
    forall|i: int, j: int| 0 <= i < j < s.len() ==> (#[trigger] s[i]).0 != (#[trigger] s[j]).0
}

/// Setting a key keeps each key in at most one entry.
pub proof fn lemma_set_label_keeps_keys_unique(s: Seq<(Seq<char>, Seq<char>)>, k: Seq<char>, v: Seq<char>)
    requires
        keys_unique(s),
    ensures
        keys_unique(set_label(s, k, v)),
{
    let r = set_label(s, k, v);
    if has_key(s, k) {
        assert forall|i: int, j: int| 0 <= i < j < r.len() implies (#[trigger] r[i]).0 != (
        #[trigger] r[j]).0 by {
            assert(r[i].0 == s[i].0 && r[j].0 == s[j].0);
        }
    } else {
        assert forall|i: int, j: int| 0 <= i < j < r.len() implies (#[trigger] r[i]).0 != (
        #[trigger] r[j]).0 by {
            if j == s.len() {
                assert(r[i] == s[i]);
            } else {
                assert(r[i] == s[i] && r[j] == s[j]);
            }
        }
    }
}

/// Copies `labels` with `key` set to `value`.
pub fn with_label(labels: &Vec<(String, String)>, key: &str, value: &String) -> (r: Vec<
    (String, String),
>)
    ensures
        labels_view(r@) == set_label(labels_view(labels@), key@, value@),
        keys_unique(labels_view(labels@)) ==> keys_unique(labels_view(r@)),
{
    let ghost old_view = labels_view(labels@);
    let mut r: Vec<(String, String)> = Vec::new();
    let mut found = false;
    let mut i: usize = 0;
    while i < labels.len()
        invariant
            i <= labels@.len(),
            old_view == labels_view(labels@),
            labels_view(r@) == old_view.take(i as int).map_values(
                |p: (Seq<char>, Seq<char>)| set_entry(p, key@, value@),
            ),
            found == has_key(old_view.take(i as int), key@),
        decreases labels@.len() - i,
    {
        let k = labels[i].0.clone();
        let v = labels[i].1.clone();
        let k_str = key.to_owned();
        let same = k == k_str;
        let ghost kv = k@;
        let pair = if same {
            (k, value.clone())
        } else {
            (k, v)
        };
        proof {
            assert(old_view.take(i + 1) == old_view.take(i as int).push(old_view[i as int]));
            if has_key(old_view.take(i + 1), key@) && !has_key(old_view.take(i as int), key@) {
                let j = choose|j: int|
                    0 <= j < old_view.take(i + 1).len() && (#[trigger] old_view.take(i + 1)[j]).0
                        == key@;
                if j < i {
                    assert(old_view.take(i as int)[j] == old_view.take(i + 1)[j]);
                }
            }
            if kv == key@ {
                assert(old_view.take(i + 1)[i as int].0 == key@);
            }
            if has_key(old_view.take(i as int), key@) {
                let j = choose|j: int|
                    0 <= j < old_view.take(i as int).len() && (#[trigger] old_view.take(
                        i as int,
                    )[j]).0 == key@;
                assert(old_view.take(i + 1)[j] == old_view.take(i as int)[j]);
            }
        }
        found = found || same;
        let ghost prev = r@;
        let ghost entry = (pair.0@, pair.1@);
        assert(old_view[i as int] == (labels@[i as int].0@, labels@[i as int].1@));
        assert(entry == set_entry(old_view[i as int], key@, value@));
        r.push(pair);
        proof {
            assert(labels_view(r@) =~= labels_view(prev).push(entry));
            assert(labels_view(r@) =~= old_view.take(i + 1).map_values(
                |p: (Seq<char>, Seq<char>)| set_entry(p, key@, value@),
            ));
        }
        i += 1;
    }
    proof {
        assert(old_view.take(labels@.len() as int) =~= old_view);
    }
    if !found {
        let ghost prev = r@;
        r.push((key.to_owned(), value.clone()));
        proof {
            assert(labels_view(r@) =~= labels_view(prev).push((key@, value@)));
            assert(labels_view(r@) =~= old_view.push((key@, value@)));
        }
    } else {
        proof {
            assert(labels_view(r@) =~= old_view.map_values(
                |p: (Seq<char>, Seq<char>)| set_entry(p, key@, value@),
            ));
        }
    }
    proof {
        if keys_unique(old_view) {
            lemma_set_label_keeps_keys_unique(old_view, key@, value@);
        }
    }
    r
}

} // verus!
