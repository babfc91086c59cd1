//! Selection-value updates for toggle groups.
//!
//! A toggle group drives a list of pressed item values through its
//! Controllable Value. A single-selection group holds at most one value; a
//! multiple-selection group appends on press and removes every copy on
//! release. These are the value computations the per-widget glue performs
//! between an item's press change and the group's `write`.

use vstd::prelude::*;

verus! {

/// Whether the pressed-value list holds the given value.
pub open spec fn spec_contains_value(values: Seq<String>, item: Seq<char>) -> bool {
    exists|i: int| 0 <= i < values.len() && values[i]@ == item
}

/// The predicate a release keeps values by: everything but the released
/// value.
pub open spec fn keeps_value(item: Seq<char>) -> spec_fn(String) -> bool {
    |v: String| v@ != item
}

/// The pressed-value list without every copy of the given value.
pub open spec fn spec_without_value(values: Seq<String>, item: Seq<char>) -> Seq<String> {
    values.filter(keeps_value(item))
}

/// Whether an item is pressed: the group's value list holds its value.
pub fn contains_item(values: &Vec<String>, item: &String) -> (r: bool)
    ensures
        r == spec_contains_value(values@, item@),
{
    let mut k: usize = 0;
    while k < values.len()
        invariant
            k <= values@.len(),
            forall|j: int| 0 <= j < k ==> values@[j]@ != item@,
        decreases values@.len() - k,
    {
        let equal = values[k] == *item;
        if equal {
            proof {
                assert(spec_contains_value(values@, item@)) by {
                    assert(values@[k as int]@ == item@);
                }
            }
            return true;
        }
        k = k + 1;
    }
    false
}

/// An item of a multiple-selection group was pressed: its value joins the
/// end of the list, as-is (the group never deduplicates on activation).
pub fn activate_item(values: &mut Vec<String>, item: String)
    ensures
        final(values)@ == old(values)@.push(item),
{
    values.push(item);
}

/// An item of a multiple-selection group was released: every copy of its
/// value leaves the list, and the remaining values keep their order.
pub fn deactivate_item(values: &Vec<String>, item: &String) -> (r: Vec<String>)
    ensures
        r@ == spec_without_value(values@, item@),
{
    let ghost pred = keeps_value(item@);
    let mut out: Vec<String> = Vec::new();
    let mut k: usize = 0;
    proof {
        reveal(Seq::filter);
        assert(values@.subrange(0, 0).filter(pred) =~= Seq::<String>::empty());
    }
    while k < values.len()
        invariant
            k <= values@.len(),
            pred == keeps_value(item@),
            out@ == values@.subrange(0, k as int).filter(pred),
        decreases values@.len() - k,
    {
        proof {
            reveal(Seq::filter);
            assert(values@.subrange(0, k + 1).drop_last() =~= values@.subrange(0, k as int));
            assert(values@.subrange(0, k + 1).last() == values@[k as int]);
        }
        let equal = values[k] == *item;
        if !equal {
            out.push(values[k].clone());
        }
        k = k + 1;
    }
    proof {
        assert(values@.subrange(0, values@.len() as int) =~= values@);
    }
    out
}

/// Law: after a release, no copy of the released value remains, and every
/// remaining value is one the list already held.
pub proof fn lemma_deactivate_removes_every_copy(values: Seq<String>, item: Seq<char>)
    ensures
        !spec_contains_value(spec_without_value(values, item), item),
        forall|i: int|
            0 <= i < spec_without_value(values, item).len()
                ==> values.contains(#[trigger] spec_without_value(values, item)[i]),
{
    let pred = keeps_value(item);
    broadcast use vstd::seq_lib::group_filter_ensures;

    assert forall|i: int|
        0 <= i < spec_without_value(values, item).len() implies values.contains(
        #[trigger] spec_without_value(values, item)[i],
    ) by {
        let elem = spec_without_value(values, item)[i];
        assert(spec_without_value(values, item).contains(elem));
        values.lemma_filter_contains_rev(pred, elem);
    }
}

} // verus!
