//! The label gate: an optional policy check that holds back the patch unless
//! the object carries each required label. A key must appear letter for
//! letter; a value counts once its ASCII lowercase form equals the required
//! one.

use vstd::prelude::*;

use crate::request::{Label, LabelView};
use crate::text::{lower, to_lower};

verus! {

/// One required pair matches when some observed label carries exactly that
/// key and a value whose lowercase form is the required one. A key the
/// object lacks simply fails to match; nothing errors.
pub open spec fn label_matches(observed: Seq<LabelView>, required: LabelView) -> bool {
    exists|j: int|
        0 <= j < observed.len() && (#[trigger] observed[j]).key == required.key && lower(
            observed[j].value,
        ) == required.value
}

/// Every required label must be found on the object; one miss is enough to
/// hold the patch back. With nothing required, nothing is checked.
pub open spec fn labels_match(required: Seq<LabelView>, observed: Seq<LabelView>) -> bool {
    forall|i: int| 0 <= i < required.len() ==> label_matches(observed, #[trigger] required[i])
}

/// Label gate: the executable counterpart of [`labels_match`].
pub fn gate_matches(required: &Vec<Label>, observed: &Vec<Label>) -> (r: bool)
    ensures
        r == labels_match(
            required@.map_values(|l: Label| l@),
            observed@.map_values(|l: Label| l@),
        ),
{
    let ghost vreq = required@.map_values(|l: Label| l@);
    let ghost vobs = observed@.map_values(|l: Label| l@);
    let mut i: usize = 0;
    while i < required.len()
        invariant
            vreq == required@.map_values(|l: Label| l@),
            vobs == observed@.map_values(|l: Label| l@),
            i <= required.len(),
            forall|k: int| 0 <= k < i ==> label_matches(vobs, #[trigger] vreq[k]),
        decreases required.len() - i,
    {
        let need = &required[i];
        let mut found = false;
        let mut j: usize = 0;
        while j < observed.len()
            invariant
                vreq == required@.map_values(|l: Label| l@),
                vobs == observed@.map_values(|l: Label| l@),
                i < required.len(),
                j <= observed.len(),
                need == required[i as int],
                found ==> label_matches(vobs, vreq[i as int]),
                !found ==> forall|m: int|
                    0 <= m < j ==> !((#[trigger] vobs[m]).key == vreq[i as int].key && lower(
                        vobs[m].value,
                    ) == vreq[i as int].value),
            decreases observed.len() - j,
        {
            let cand = &observed[j];
            if cand.key == need.key {
                let lowered = to_lower(cand.value.as_str());
                if lowered == need.value {
                    found = true;
                    proof {
                        assert(vobs[j as int].key == vreq[i as int].key && lower(
                            vobs[j as int].value,
                        ) == vreq[i as int].value);
                    }
                }
            }
            j = j + 1;
        }
        if !found {
            proof {
                assert(!label_matches(vobs, vreq[i as int]));
            }
            return false;
        }
        i = i + 1;
    }
    true
}

/// Letter case of observed values never decides the outcome: lowering the
/// values of an observation leaves it accepted or rejected exactly as
/// before.
pub proof fn lemma_gate_case_insensitive_values(
    required: Seq<LabelView>,
    obs1: Seq<LabelView>,
    obs2: Seq<LabelView>,
)
    requires
        obs1.len() == obs2.len(),
        forall|j: int|
            0 <= j < obs1.len() ==> (#[trigger] obs1[j]).key == obs2[j].key && lower(obs1[j].value)
                == lower(obs2[j].value),
    ensures
        labels_match(required, obs1) <==> labels_match(required, obs2),
{
    assert forall|i: int|
        0 <= i < required.len() && label_matches(obs1, #[trigger] required[i]) implies label_matches(
        obs2,
        required[i],
    ) by {
        let j = choose|j: int|
            0 <= j < obs1.len() && (#[trigger] obs1[j]).key == required[i].key && lower(
                obs1[j].value,
            ) == required[i].value;
        assert(obs2[j].key == required[i].key && lower(obs2[j].value) == required[i].value);
    }
    assert forall|i: int|
        0 <= i < required.len() && label_matches(obs2, #[trigger] required[i]) implies label_matches(
        obs1,
        required[i],
    ) by {
        let j = choose|j: int|
            0 <= j < obs2.len() && (#[trigger] obs2[j]).key == required[i].key && lower(
                obs2[j].value,
            ) == required[i].value;
        assert(obs1[j].key == required[i].key && lower(obs1[j].value) == required[i].value);
    }
}

} // verus!
