//! The stub remover: a reusable "remove matching element and its successor"
//! filter over a sequence, used to delete coprocessor stub routines that
//! exist only to satisfy linkage.
use vstd::prelude::*;

use crate::ast::Statement;
use crate::ast::StmtV;
use crate::ast::stmt_view;
use crate::ast::stmts_view;
use crate::lower::spec_is_stub;
use crate::text::str_eq;

verus! {

/// Whether position `i` survives the filter: it is not flagged itself and
/// does not immediately follow a flagged position.
pub open spec fn kept_at(flags: Seq<bool>, i: int) -> bool {
    !flags[i] && (i == 0 || !flags[i - 1])
}

/// The first `j` items, with every flagged item and every immediate successor
/// of a flagged item removed.
pub open spec fn removed_prefix<T>(items: Seq<T>, flags: Seq<bool>, j: int) -> Seq<T>
    decreases j,
{
    if j <= 0 {
        Seq::empty()
    } else {
        removed_prefix(items, flags, j - 1) + (if kept_at(flags, j - 1) {
            seq![items[j - 1]]
        } else {
            Seq::empty()
        })
    }
}

/// The whole sequence filtered: every flagged item and its immediate
/// successor removed.
pub open spec fn spec_removed<T>(items: Seq<T>, flags: Seq<bool>) -> Seq<T> {
    removed_prefix(items, flags, items.len() as int)
}

proof fn lemma_removed_prefix_stable<T>(items: Seq<T>, flags: Seq<bool>, f: bool, j: int)
    requires
        0 <= j <= flags.len(),
    ensures
        removed_prefix(items, flags.push(f), j) == removed_prefix(items, flags, j),
    decreases j,
{
    if j > 0 {
        lemma_removed_prefix_stable(items, flags, f, j - 1);
        assert(flags.push(f)[j - 1] == flags[j - 1]);
        if j >= 2 {
            assert(flags.push(f)[j - 2] == flags[j - 2]);
        }
    }
}

/// Removes every item on which the predicate holds, together with the item
/// immediately following it (a run of matches removes the whole run and one
/// more). A match at the very end has no successor to remove.
pub fn remove_matching_and_next<T, F: Fn(&T) -> bool>(items: Vec<T>, predicate: F) -> (r: Vec<T>)
    requires
        forall|i: int| 0 <= i < items@.len() ==> call_requires(predicate, (&items@[i],)),
    ensures
        exists|flags: Seq<bool>|
            {
                &&& flags.len() == items@.len()
                &&& (forall|i: int|
                    0 <= i < flags.len() ==> call_ensures(predicate, (&items@[i],), flags[i]))
                &&& r@ == spec_removed(items@, flags)
            },
{
    let ghost orig = items@;
    let mut items = items;
    let total = items.len();
    proof {
        assert(orig.len() == total as int);
    }
    let mut r: Vec<T> = Vec::new();
    let ghost mut flags: Seq<bool> = Seq::empty();
    let mut filter_next = false;
    let mut i: usize = 0;
    proof {
        assert(items@ =~= orig.skip(0));
    }
    while items.len() > 0
        invariant
            orig.len() <= usize::MAX,
            i <= orig.len(),
            items@ == orig.skip(i as int),
            flags.len() == i,
            forall|k: int| 0 <= k < i ==> call_requires(predicate, (&orig[k],)),
            forall|k: int| i <= k < orig.len() ==> call_requires(predicate, (&orig[k],)),
            forall|k: int| 0 <= k < i ==> call_ensures(predicate, (&orig[k],), flags[k]),
            filter_next == (i > 0 && flags[i - 1]),
            r@ == removed_prefix(orig, flags, i as int),
        decreases items.len(),
    {
        proof {
            assert(orig.skip(i as int).len() > 0);
            assert(i < orig.len());
        }
        let item = items.remove(0);
        proof {
            assert(item == orig[i as int]);
            assert(items@ =~= orig.skip(i + 1));
        }
        let flagged = predicate(&item);
        let filter_current = filter_next || flagged;
        proof {
            lemma_removed_prefix_stable(orig, flags, flagged, i as int);
            flags = flags.push(flagged);
            assert(flags[i as int] == flagged);
            assert(kept_at(flags, i as int) == !filter_current);
        }
        if !filter_current {
            r.push(item);
            proof {
                assert(r@ =~= removed_prefix(orig, flags, i as int) + seq![orig[i as int]]);
            }
        } else {
            proof {
                assert(r@ =~= removed_prefix(orig, flags, i as int) + Seq::<T>::empty());
            }
        }
        filter_next = flagged;
        i += 1;
    }
    proof {
        assert(i == orig.len());
    }
    r
}

/// Whether a statement is a label naming a coprocessor stub routine.
pub open spec fn is_stub_label(s: StmtV) -> bool {
    match s {
        StmtV::Label(l) => spec_is_stub(l),
        _ => false,
    }
}

/// One flag per statement: set exactly on stub labels.
pub open spec fn stub_flags(stmts: Seq<StmtV>) -> Seq<bool> {
    Seq::new(stmts.len(), |i: int| is_stub_label(stmts[i]))
}

/// The statement stream with every stub label and its immediate successor
/// removed.
pub open spec fn spec_replace_coprocessor_stubs(stmts: Seq<StmtV>) -> Seq<StmtV> {
    spec_removed(stmts, stub_flags(stmts))
}

proof fn lemma_removed_prefix_view(items: Seq<Statement>, flags: Seq<bool>, j: int)
    requires
        j <= items.len(),
    ensures
        stmts_view(removed_prefix(items, flags, j)) == removed_prefix(stmts_view(items), flags, j),
    decreases j,
{
    if j <= 0 {
        assert(stmts_view(removed_prefix(items, flags, j)) =~= removed_prefix(
            stmts_view(items),
            flags,
            j,
        ));
    } else {
        lemma_removed_prefix_view(items, flags, j - 1);
        if kept_at(flags, j - 1) {
            assert(stmts_view(
                removed_prefix(items, flags, j - 1) + seq![items[j - 1]],
            ) =~= stmts_view(removed_prefix(items, flags, j - 1)) + seq![
                stmt_view(items[j - 1]),
            ]);
            assert(stmts_view(items)[j - 1] == stmt_view(items[j - 1]));
            assert(stmts_view(removed_prefix(items, flags, j)) =~= removed_prefix(
                stmts_view(items),
                flags,
                j,
            ));
        } else {
            assert(removed_prefix(items, flags, j - 1) + Seq::<Statement>::empty()
                =~= removed_prefix(items, flags, j - 1));
            assert(removed_prefix(stmts_view(items), flags, j - 1) + Seq::<StmtV>::empty()
                =~= removed_prefix(stmts_view(items), flags, j - 1));
        }
    }
}

/// Deletes the coprocessor stub routines: every label naming a stub, and the
/// statement immediately following it.
pub fn replace_coprocessor_stubs(statements: Vec<Statement>) -> (r: Vec<Statement>)
    ensures
        stmts_view(r@) == spec_replace_coprocessor_stubs(stmts_view(statements@)),
{
    let ghost orig = statements@;
    let is_stub = |statement: &Statement| -> (b: bool)
        ensures
            b == is_stub_label(statement@),
        {
            match statement {
                Statement::Label(label) => str_eq(label.as_str(), "poseidon_coprocessor"),
                _ => false,
            }
        };
    assert(forall|i: int| 0 <= i < orig.len() ==> call_requires(is_stub, (&orig[i],)));
    let r = remove_matching_and_next(statements, is_stub);
    proof {
        let flags = choose|flags: Seq<bool>|
            {
                &&& flags.len() == orig.len()
                &&& (forall|i: int|
                    0 <= i < flags.len() ==> call_ensures(is_stub, (&orig[i],), flags[i]))
                &&& r@ == spec_removed(orig, flags)
            };
        assert(flags =~= stub_flags(stmts_view(orig))) by {
            assert(forall|i: int| 0 <= i < flags.len() ==> flags[i] == is_stub_label(orig[i]@));
            assert(forall|i: int|
                0 <= i < orig.len() ==> stmts_view(orig)[i] == stmt_view(orig[i]));
        }
        lemma_removed_prefix_view(orig, flags, orig.len() as int);
    }
    r
}

/// No stub label survives stub removal: every position holding one is
/// flagged, so it never reaches the output.
pub proof fn lemma_no_stub_label_in_output(stmts: Seq<StmtV>)
    ensures
        forall|j: int|
            0 <= j < spec_replace_coprocessor_stubs(stmts).len() ==> !is_stub_label(
                #[trigger] spec_replace_coprocessor_stubs(stmts)[j],
            ),
{
    lemma_removed_prefix_no_stub(stmts, stmts.len() as int);
}

proof fn lemma_removed_prefix_no_stub(stmts: Seq<StmtV>, j: int)
    requires
        j <= stmts.len(),
    ensures
        forall|k: int|
            0 <= k < removed_prefix(stmts, stub_flags(stmts), j).len() ==> !is_stub_label(
                #[trigger] removed_prefix(stmts, stub_flags(stmts), j)[k],
            ),
    decreases j,
{
    if j > 0 {
        lemma_removed_prefix_no_stub(stmts, j - 1);
        let flags = stub_flags(stmts);
        if kept_at(flags, j - 1) {
            assert(!is_stub_label(stmts[j - 1]));
            assert(forall|k: int|
                0 <= k < removed_prefix(stmts, flags, j).len() ==> removed_prefix(
                    stmts,
                    flags,
                    j,
                )[k] == (if k < removed_prefix(stmts, flags, j - 1).len() {
                    removed_prefix(stmts, flags, j - 1)[k]
                } else {
                    stmts[j - 1]
                }));
        } else {
            assert(removed_prefix(stmts, flags, j) =~= removed_prefix(stmts, flags, j - 1));
        }
    }
}

proof fn lemma_removed_none_flagged(stmts: Seq<StmtV>, j: int)
    requires
        0 <= j <= stmts.len(),
        forall|i: int| 0 <= i < stmts.len() ==> !is_stub_label(#[trigger] stmts[i]),
    ensures
        removed_prefix(stmts, stub_flags(stmts), j) == stmts.take(j),
    decreases j,
{
    if j > 0 {
        lemma_removed_none_flagged(stmts, j - 1);
        assert(kept_at(stub_flags(stmts), j - 1));
        assert(stmts.take(j) =~= stmts.take(j - 1) + seq![stmts[j - 1]]);
    } else {
        assert(removed_prefix(stmts, stub_flags(stmts), 0) =~= stmts.take(0));
    }
}

/// A stream without stub labels passes through stub removal unchanged.
pub proof fn lemma_remove_stubs_noop(stmts: Seq<StmtV>)
    requires
        forall|i: int| 0 <= i < stmts.len() ==> !is_stub_label(#[trigger] stmts[i]),
    ensures
        spec_replace_coprocessor_stubs(stmts) == stmts,
{
    lemma_removed_none_flagged(stmts, stmts.len() as int);
    assert(stmts.take(stmts.len() as int) =~= stmts);
}

proof fn lemma_removed_prefix_concat(items: Seq<StmtV>, flags: Seq<bool>, cut: int, j: int)
    requires
        0 <= cut <= j <= items.len(),
        flags.len() == items.len(),
        forall|k: int| cut <= k < j ==> !kept_at(flags, k),
    ensures
        removed_prefix(items, flags, j) == removed_prefix(items, flags, cut),
    decreases j,
{
    if j > cut {
        lemma_removed_prefix_concat(items, flags, cut, j - 1);
        assert(removed_prefix(items, flags, j - 1) + Seq::<StmtV>::empty() =~= removed_prefix(
            items,
            flags,
            j - 1,
        ));
    }
}

/// A stub label together with its immediately following statement is absent
/// from the output: on a stream that ends with a stub label and one more
/// statement, stub removal drops both (the prefix before them carrying no
/// stub label).
pub proof fn lemma_stub_pair_removed(prefix: Seq<StmtV>, s: StmtV, t: StmtV)
    requires
        is_stub_label(s),
        forall|i: int| 0 <= i < prefix.len() ==> !is_stub_label(#[trigger] prefix[i]),
    ensures
        spec_replace_coprocessor_stubs(prefix + seq![s, t]) == prefix,
{
    let stmts = prefix + seq![s, t];
    let flags = stub_flags(stmts);
    let n = prefix.len() as int;
    assert(forall|i: int| 0 <= i < n ==> stmts[i] == prefix[i]);
    assert(!kept_at(flags, n));
    assert(!kept_at(flags, n + 1));
    lemma_removed_prefix_concat(stmts, flags, n, n + 2);
    lemma_removed_none_flagged_rel(prefix, stmts, n);
    assert(prefix.take(n) =~= prefix);
}

/// A stub label at the very end of the stream (no following statement) is
/// also fully removed.
pub proof fn lemma_stub_at_end_removed(prefix: Seq<StmtV>, s: StmtV)
    requires
        is_stub_label(s),
        forall|i: int| 0 <= i < prefix.len() ==> !is_stub_label(#[trigger] prefix[i]),
    ensures
        spec_replace_coprocessor_stubs(prefix + seq![s]) == prefix,
{
    let stmts = prefix + seq![s];
    let flags = stub_flags(stmts);
    let n = prefix.len() as int;
    assert(forall|i: int| 0 <= i < n ==> stmts[i] == prefix[i]);
    assert(!kept_at(flags, n));
    lemma_removed_prefix_concat(stmts, flags, n, n + 1);
    lemma_removed_none_flagged_rel(prefix, stmts, n);
    assert(prefix.take(n) =~= prefix);
}

proof fn lemma_removed_none_flagged_rel(prefix: Seq<StmtV>, stmts: Seq<StmtV>, j: int)
    requires
        0 <= j <= prefix.len(),
        j <= stmts.len(),
        forall|i: int| 0 <= i < j ==> stmts[i] == prefix[i],
        forall|i: int| 0 <= i < j ==> !is_stub_label(#[trigger] prefix[i]),
    ensures
        removed_prefix(stmts, stub_flags(stmts), j) == prefix.take(j),
    decreases j,
{
    if j > 0 {
        lemma_removed_none_flagged_rel(prefix, stmts, j - 1);
        assert(kept_at(stub_flags(stmts), j - 1));
        assert(prefix.take(j) =~= prefix.take(j - 1) + seq![prefix[j - 1]]);
    } else {
        assert(removed_prefix(stmts, stub_flags(stmts), 0) =~= prefix.take(0));
    }
}

} // verus!
