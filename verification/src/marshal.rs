//! Marshalling the tokenized option list into borrowed argument views.
//!
//! The mount facility takes its options as a list of borrowed string views.
//! Marshalling builds that list without copying any text: one view per token,
//! in token order, each borrowing from the tokenized list itself.

use vstd::prelude::*;

verus! {

/// Law: marshalling preserves order and content. The returned list holds one
/// borrowed view per token, in the same order, with the text unchanged.
pub fn prep_fuseargs<'a>(items: &'a Vec<String>) -> (args: Vec<&'a str>)
    ensures
        args.deep_view() == items.deep_view(),
        args@.len() == items@.len(),
{
    let mut args: Vec<&'a str> = Vec::new();
    proof {
        assert(args.deep_view() =~= items.deep_view().take(0));
    }
    let mut idx: usize = 0;
    while idx < items.len()
        invariant
            0 <= idx <= items@.len(),
            args.deep_view() == items.deep_view().take(idx as int),
        decreases items@.len() - idx,
    {
        let entry = items[idx].as_str();
        assert(entry@ == items@[idx as int]@);
        let ghost prev = args.deep_view();
        args.push(entry);
        proof {
            let dv = args.deep_view();
            let goal = items.deep_view().take(idx as int + 1);
            assert(prev.len() == idx as int);
            assert(args@.len() == idx as int + 1);
            assert(dv.len() == args@.len());
            assert(dv.len() == idx as int + 1);
            assert forall|k: int| 0 <= k < dv.len() implies dv[k] == goal[k] by {
                if k < idx as int {
                    assert(dv[k] == prev[k]);
                    assert(prev[k] == items.deep_view().take(idx as int)[k]);
                } else {
                    assert(dv[k] == entry.deep_view());
                    assert(goal[k] == items@[k].deep_view());
                }
            }
            assert(dv =~= goal);
        }
        idx = idx + 1;
    }
    proof {
        assert(items.deep_view().take(items.deep_view().len() as int) =~= items.deep_view());
    }
    args
}

} // verus!
