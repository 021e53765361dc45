//! The dynamic-reference fuser: rewrites the two-instruction idiom "load the
//! high half of a code-label address, then add the low half into the same
//! register" into one address-materializing pseudo-instruction.
use itertools::Itertools;

use vstd::prelude::*;

use crate::FunctionKind;
use crate::ast::ArgV;
use crate::ast::Argument;
use crate::ast::DataObject;
use crate::ast::DataObjectV;
use crate::ast::ExprV;
use crate::ast::Expression;
use crate::ast::Statement;
use crate::ast::StmtV;
use crate::ast::args_view;
use crate::ast::clone_statement;
use crate::ast::data_objects_view;
use crate::ast::objects_contain_name;
use crate::ast::stmt_view;
use crate::ast::stmts_view;
use crate::text::str_eq;

verus! {

/// Relies on itertools' Itertools::tuple_windows: over the elements of `v` it
/// yields every pair of consecutive elements, in order.
#[verifier::external_body]
fn consecutive_pairs(v: &Vec<usize>) -> (r: Vec<(usize, usize)>)
    ensures
        v@.len() < 2 ==> r@.len() == 0,
        v@.len() >= 2 ==> r@.len() == v@.len() - 1,
        forall|i: int| 0 <= i < r@.len() ==> #[trigger] r@[i] == (v@[i], v@[i + 1]),
{
    v.iter().cloned().tuple_windows().collect()
}

/// Whether the object table holds an object of the given name.
fn contains_object_name(objects: &Vec<DataObject>, name: &str) -> (r: bool)
    ensures
        r == objects_contain_name(data_objects_view(objects@), name@),
{
    let ghost objs = data_objects_view(objects@);
    let mut i: usize = 0;
    while i < objects.len()
        invariant
            i <= objects.len(),
            objs == data_objects_view(objects@),
            objs.len() == objects@.len(),
            forall|j: int| 0 <= j < i ==> objs[j].name != name@,
        decreases objects.len() - i,
    {
        proof {
            assert(objs[i as int] == objects@[i as int]@);
        }
        if str_eq(objects[i].name.as_str(), name) {
            return true;
        }
        i += 1;
    }
    false
}

/// What the matched pair fuses into: when the first statement is `lui` of the
/// high half of a symbol into a register, the second is `addi` of the low
/// half of the same symbol with both its register arguments equal to that
/// register, and the symbol names no data object, the replacement is a single
/// two-argument address-load pseudo-instruction.
pub open spec fn spec_fuse_pair(s1: StmtV, s2: StmtV, objects: Seq<DataObjectV>) -> Option<StmtV> {
    match (s1, s2) {
        (StmtV::Instruction(i1, args1), StmtV::Instruction(i2, args2)) => {
            if i1 == "lui"@ && i2 == "addi"@ && args1.len() == 2 && args2.len() == 3 {
                match (args1[0], args1[1], args2[0], args2[1], args2[2]) {
                    (
                        ArgV::Register(r1),
                        ArgV::Expression(ExprV::FunctionOp(FunctionKind::HiDataRef, e1)),
                        ArgV::Register(r2),
                        ArgV::Register(r3),
                        ArgV::Expression(ExprV::FunctionOp(FunctionKind::LoDataRef, e2)),
                    ) => {
                        match (*e1, *e2) {
                            (ExprV::Symbol(l1), ExprV::Symbol(l2)) => {
                                if r1 == r3 && l1 == l2 && !objects_contain_name(objects, l1) {
                                    Some(
                                        StmtV::Instruction(
                                            "load_dynamic"@,
                                            seq![
                                                ArgV::Register(r2),
                                                ArgV::Expression(ExprV::Symbol(l1)),
                                            ],
                                        ),
                                    )
                                } else {
                                    None
                                }
                            },
                            _ => None,
                        }
                    },
                    _ => None,
                }
            } else {
                None
            }
        },
        _ => None,
    }
}

/// The symbol inside an expression, if the expression is a bare symbol.
fn expr_symbol(e: &Expression) -> (r: Option<&String>)
    ensures
        match r {
            Some(s) => e@ == ExprV::Symbol(s@),
            None => !(e@ is Symbol),
        },
{
    match e {
        Expression::Symbol(s) => Some(s),
        Expression::Number(_) => None,
        Expression::UnaryOp(_, _) => None,
        Expression::BinaryOp(_, _, _) => None,
        Expression::FunctionOp(_, _) => None,
    }
}

/// Tests one pair of consecutive instructions for the dynamic-reference
/// idiom; on a match, returns the fused pseudo-instruction.
pub fn replace_dynamic_label_reference(
    s1: &Statement,
    s2: &Statement,
    data_objects: &Vec<DataObject>,
) -> (res: Option<Statement>)
    ensures
        match res {
            Some(s) => spec_fuse_pair(s1@, s2@, data_objects_view(data_objects@)) == Some(s@),
            None => spec_fuse_pair(s1@, s2@, data_objects_view(data_objects@)) is None,
        },
{
    let (instr1, args1) = match s1 {
        Statement::Instruction(instr1, args1) => (instr1, args1),
        _ => {
            return None;
        },
    };
    let (instr2, args2) = match s2 {
        Statement::Instruction(instr2, args2) => (instr2, args2),
        _ => {
            return None;
        },
    };
    if !str_eq(instr1.as_str(), "lui") || !str_eq(instr2.as_str(), "addi") {
        return None;
    }
    if args1.len() != 2 || args2.len() != 3 {
        return None;
    }
    let (r1, label1) = match (&args1[0], &args1[1]) {
        (
            Argument::Register(r1),
            Argument::Expression(Expression::FunctionOp(FunctionKind::HiDataRef, e1)),
        ) => {
            match expr_symbol(e1) {
                Some(label1) => (*r1, label1),
                None => {
                    return None;
                },
            }
        },
        _ => {
            return None;
        },
    };
    let (r2, r3, label2) = match (&args2[0], &args2[1], &args2[2]) {
        (
            Argument::Register(r2),
            Argument::Register(r3),
            Argument::Expression(Expression::FunctionOp(FunctionKind::LoDataRef, e2)),
        ) => {
            match expr_symbol(e2) {
                Some(label2) => (*r2, *r3, label2),
                None => {
                    return None;
                },
            }
        },
        _ => {
            return None;
        },
    };
    if r1 != r3 || !str_eq(label1.as_str(), label2.as_str()) || contains_object_name(
        data_objects,
        label1.as_str(),
    ) {
        return None;
    }
    let mut args: Vec<Argument> = Vec::new();
    args.push(Argument::Register(r2));
    args.push(Argument::Expression(Expression::Symbol(label1.clone())));
    let res = Statement::Instruction(String::from_str("load_dynamic"), args);
    proof {
        assert(args_view(args@) =~= seq![
            ArgV::Register(r2),
            ArgV::Expression(ExprV::Symbol(label1@)),
        ]);
    }
    Some(res)
}

/// The positions of the instruction statements among the first `j`
/// statements, in order.
pub open spec fn instr_idx_prefix(stmts: Seq<StmtV>, j: int) -> Seq<int>
    decreases j,
{
    if j <= 0 {
        Seq::empty()
    } else {
        instr_idx_prefix(stmts, j - 1) + (if stmts[j - 1] is Instruction {
            seq![j - 1]
        } else {
            Seq::empty()
        })
    }
}

/// The positions of all instruction statements, in order.
pub open spec fn instruction_indices(stmts: Seq<StmtV>) -> Seq<int> {
    instr_idx_prefix(stmts, stmts.len() as int)
}

/// The pairwise scan from instruction-pair `k` on: a matched pair marks the
/// first position for deferred deletion and replaces the second statement in
/// place, so that the updated statement takes part in the next pair.
pub open spec fn fuse_scan(
    stmts: Seq<StmtV>,
    idxs: Seq<int>,
    k: int,
    objects: Seq<DataObjectV>,
) -> (Seq<StmtV>, Set<int>)
    decreases idxs.len() - k,
{
    if k < 0 || k + 1 >= idxs.len() {
        (stmts, Set::empty())
    } else {
        let i1 = idxs[k];
        let i2 = idxs[k + 1];
        match spec_fuse_pair(stmts[i1], stmts[i2], objects) {
            Some(rep) => {
                let scanned = fuse_scan(stmts.update(i2, rep), idxs, k + 1, objects);
                (scanned.0, scanned.1.insert(i1))
            },
            None => fuse_scan(stmts, idxs, k + 1, objects),
        }
    }
}

/// The first `j` statements with the marked positions deleted.
pub open spec fn delete_prefix(stmts: Seq<StmtV>, deleted: Set<int>, j: int) -> Seq<StmtV>
    decreases j,
{
    if j <= 0 {
        Seq::empty()
    } else {
        delete_prefix(stmts, deleted, j - 1) + (if deleted.contains(j - 1) {
            Seq::empty()
        } else {
            seq![stmts[j - 1]]
        })
    }
}

/// The whole fuser: scan consecutive instruction pairs, replace each match in
/// place, then delete the marked first positions in a single filtering pass.
pub open spec fn spec_fuse(stmts: Seq<StmtV>, objects: Seq<DataObjectV>) -> Seq<StmtV> {
    let idxs = instruction_indices(stmts);
    let scanned = fuse_scan(stmts, idxs, 0, objects);
    delete_prefix(scanned.0, scanned.1, scanned.0.len() as int)
}

/// Rewrites every occurrence of the dynamic-reference idiom in the statement
/// stream into the address-load pseudo-instruction. References to data
/// objects are ignored; a non-match is left untouched.
pub fn replace_dynamic_label_references(
    statements: Vec<Statement>,
    data_objects: &Vec<DataObject>,
) -> (r: Vec<Statement>)
    ensures
        stmts_view(r@) == spec_fuse(stmts_view(statements@), data_objects_view(data_objects@)),
{
    let ghost objs = data_objects_view(data_objects@);
    let ghost sv0 = stmts_view(statements@);
    let mut statements = statements;
    // Collect the instruction positions.
    let mut idxs: Vec<usize> = Vec::new();
    let mut i: usize = 0;
    while i < statements.len()
        invariant
            i <= statements.len(),
            sv0 == stmts_view(statements@),
            sv0.len() == statements@.len(),
            idxs@.map_values(|u: usize| u as int) == instr_idx_prefix(sv0, i as int),
            forall|m: int| 0 <= m < idxs@.len() ==> #[trigger] idxs@[m] < i,
        decreases statements.len() - i,
    {
        proof {
            assert(sv0[i as int] == statements@[i as int]@);
        }
        let is_instr = match &statements[i] {
            Statement::Instruction(_, _) => true,
            _ => false,
        };
        if is_instr {
            idxs.push(i);
            proof {
                assert(idxs@.map_values(|u: usize| u as int) =~= instr_idx_prefix(sv0, i as int)
                    + seq![i as int]);
                assert(instr_idx_prefix(sv0, i + 1) =~= instr_idx_prefix(sv0, i as int) + seq![
                    i as int,
                ]);
            }
        } else {
            proof {
                assert(instr_idx_prefix(sv0, i + 1) =~= instr_idx_prefix(sv0, i as int));
            }
        }
        i += 1;
    }
    let ghost idxsv = instruction_indices(sv0);
    let pairs = consecutive_pairs(&idxs);
    let ghost scanned = fuse_scan(sv0, idxsv, 0, objs);
    // Scan consecutive instruction pairs, replacing matches in place and
    // marking the first position of each match for deletion.
    let mut deletes: Vec<bool> = Vec::new();
    let mut i: usize = 0;
    while i < statements.len()
        invariant
            i <= statements.len(),
            deletes@.len() == i,
            forall|m: int| 0 <= m < i ==> !deletes@[m],
        decreases statements.len() - i,
    {
        deletes.push(false);
        i += 1;
    }
    let ghost marks0 = deletes@;
    let mut k: usize = 0;
    while k < pairs.len()
        invariant
            k <= pairs.len(),
            objs == data_objects_view(data_objects@),
            idxsv == idxs@.map_values(|u: usize| u as int),
            pairs@.len() == (if idxs@.len() < 2 {
                0int
            } else {
                idxs@.len() - 1
            }),
            forall|m: int| 0 <= m < pairs@.len() ==> #[trigger] pairs@[m] == (idxs@[m], idxs@[m
                + 1]),
            forall|m: int| 0 <= m < idxs@.len() ==> #[trigger] idxs@[m] < statements@.len(),
            statements@.len() == sv0.len(),
            deletes@.len() == statements@.len(),
            scanned == fuse_scan(sv0, idxsv, 0, objs),
            fuse_scan(stmts_view(statements@), idxsv, k as int, objs).0 == scanned.0,
            fuse_scan(stmts_view(statements@), idxsv, k as int, objs).1.union(
                mark_set(deletes@),
            ) == scanned.1,
        decreases pairs.len() - k,
    {
        let (i1, i2) = pairs[k];
        proof {
            assert(idxsv[k as int] == i1 as int);
            assert(idxsv[k + 1] == i2 as int);
            assert(stmts_view(statements@)[i1 as int] == statements@[i1 as int]@);
            assert(stmts_view(statements@)[i2 as int] == statements@[i2 as int]@);
        }
        let ghost before = stmts_view(statements@);
        match replace_dynamic_label_reference(&statements[i1], &statements[i2], data_objects) {
            Some(rep) => {
                let ghost marks_before = deletes@;
                statements.set(i2, rep);
                deletes.set(i1, true);
                proof {
                    assert(stmts_view(statements@) =~= before.update(i2 as int, rep@));
                    assert(mark_set(deletes@) =~= mark_set(marks_before).insert(i1 as int));
                    assert(fuse_scan(before, idxsv, k as int, objs).1.union(
                        mark_set(marks_before),
                    ) =~= fuse_scan(stmts_view(statements@), idxsv, k + 1, objs).1.union(
                        mark_set(deletes@),
                    ));
                }
            },
            None => {
                proof {
                    assert(fuse_scan(before, idxsv, k as int, objs) == fuse_scan(
                        before,
                        idxsv,
                        k + 1,
                        objs,
                    ));
                }
            },
        }
        k += 1;
    }
    proof {
        assert(fuse_scan(stmts_view(statements@), idxsv, k as int, objs).0 == stmts_view(
            statements@,
        ));
        assert(fuse_scan(stmts_view(statements@), idxsv, k as int, objs).1 =~= Set::<
            int,
        >::empty());
        assert(Set::<int>::empty().union(mark_set(deletes@)) =~= mark_set(deletes@));
        assert(stmts_view(statements@) == scanned.0);
        assert(mark_set(deletes@) == scanned.1);
    }
    // Single filtering pass: drop the marked positions.
    let mut r: Vec<Statement> = Vec::new();
    let mut i: usize = 0;
    while i < statements.len()
        invariant
            i <= statements.len(),
            deletes@.len() == statements@.len(),
            stmts_view(r@) == delete_prefix(stmts_view(statements@), mark_set(deletes@), i as int),
        decreases statements.len() - i,
    {
        proof {
            assert(stmts_view(statements@)[i as int] == statements@[i as int]@);
        }
        if !deletes[i] {
            let kept = clone_statement(&statements[i]);
            r.push(kept);
            proof {
                assert(!mark_set(deletes@).contains(i as int));
                assert(stmts_view(r@) =~= delete_prefix(
                    stmts_view(statements@),
                    mark_set(deletes@),
                    i as int,
                ) + seq![statements@[i as int]@]);
            }
        } else {
            proof {
                assert(mark_set(deletes@).contains(i as int));
                assert(delete_prefix(stmts_view(statements@), mark_set(deletes@), i + 1)
                    =~= delete_prefix(stmts_view(statements@), mark_set(deletes@), i as int));
            }
        }
        i += 1;
    }
    r
}

/// The set of marked positions.
pub open spec fn mark_set(marks: Seq<bool>) -> Set<int> {
    Set::new(|i: int| 0 <= i < marks.len() && marks[i])
}

proof fn lemma_idx_prefix_two(stmts: Seq<StmtV>, i1: int, i2: int, j: int)
    requires
        0 <= i1 < i2 < stmts.len(),
        stmts[i1] is Instruction,
        stmts[i2] is Instruction,
        forall|m: int|
            0 <= m < stmts.len() && m != i1 && m != i2 ==> !(#[trigger] stmts[m] is Instruction),
        0 <= j <= stmts.len(),
    ensures
        instr_idx_prefix(stmts, j) == (if j <= i1 {
            Seq::<int>::empty()
        } else if j <= i2 {
            seq![i1]
        } else {
            seq![i1, i2]
        }),
    decreases j,
{
    if j > 0 {
        lemma_idx_prefix_two(stmts, i1, i2, j - 1);
        if j - 1 == i1 {
            assert(instr_idx_prefix(stmts, j) =~= seq![i1]);
        } else if j - 1 == i2 {
            assert(instr_idx_prefix(stmts, j) =~= seq![i1, i2]);
        } else {
            assert(!(stmts[j - 1] is Instruction));
            assert(instr_idx_prefix(stmts, j) =~= instr_idx_prefix(stmts, j - 1));
        }
    } else {
        assert(instr_idx_prefix(stmts, 0) =~= Seq::<int>::empty());
    }
}

proof fn lemma_delete_single(s: Seq<StmtV>, m: int, j: int)
    requires
        0 <= m < s.len(),
        0 <= j <= s.len(),
    ensures
        delete_prefix(s, Set::empty().insert(m), j) == (if j <= m {
            s.take(j)
        } else {
            s.take(m) + s.subrange(m + 1, j)
        }),
    decreases j,
{
    if j > 0 {
        lemma_delete_single(s, m, j - 1);
        let d = Set::<int>::empty().insert(m);
        if j - 1 == m {
            assert(d.contains(j - 1));
            assert(delete_prefix(s, d, j) =~= s.take(m) + s.subrange(m + 1, j));
        } else {
            assert(!d.contains(j - 1));
            if j <= m {
                assert(delete_prefix(s, d, j) =~= s.take(j));
            } else {
                assert(delete_prefix(s, d, j) =~= s.take(m) + s.subrange(m + 1, j));
            }
        }
    } else {
        assert(delete_prefix(s, Set::empty().insert(m), 0) =~= s.take(0));
    }
}

proof fn lemma_delete_none(s: Seq<StmtV>, j: int)
    requires
        0 <= j <= s.len(),
    ensures
        delete_prefix(s, Set::empty(), j) == s.take(j),
    decreases j,
{
    if j > 0 {
        lemma_delete_none(s, j - 1);
        assert(delete_prefix(s, Set::empty(), j) =~= s.take(j));
    } else {
        assert(delete_prefix(s, Set::empty(), 0) =~= s.take(0));
    }
}

/// Fusion correctness: in a stream whose only two instructions are a matching
/// high/low address-computation pair (any labels or directives may stand
/// before, between or after them), the fuser deletes the first instruction
/// and replaces the second in place by the single fused pseudo-instruction.
pub proof fn lemma_fusion_applies(
    stmts: Seq<StmtV>,
    objects: Seq<DataObjectV>,
    i1: int,
    i2: int,
    f: StmtV,
)
    requires
        0 <= i1 < i2 < stmts.len(),
        stmts[i1] is Instruction,
        stmts[i2] is Instruction,
        forall|m: int|
            0 <= m < stmts.len() && m != i1 && m != i2 ==> !(#[trigger] stmts[m] is Instruction),
        spec_fuse_pair(stmts[i1], stmts[i2], objects) == Some(f),
    ensures
        spec_fuse(stmts, objects) == stmts.update(i2, f).remove(i1),
{
    lemma_idx_prefix_two(stmts, i1, i2, stmts.len() as int);
    let idxs = instruction_indices(stmts);
    assert(idxs == seq![i1, i2]);
    assert(idxs[0] == i1 && idxs[1] == i2);
    let updated = stmts.update(i2, f);
    let scanned = fuse_scan(stmts, idxs, 0, objects);
    assert(fuse_scan(updated, idxs, 1, objects) == (updated, Set::<int>::empty()));
    assert(scanned.0 == updated);
    assert(scanned.1 =~= Set::<int>::empty().insert(i1));
    lemma_delete_single(updated, i1, updated.len() as int);
    assert(updated.take(i1) + updated.subrange(i1 + 1, updated.len() as int) =~= updated.remove(
        i1,
    ));
}

/// A pair that does not match the idiom (the symbol names a data object, the
/// destination registers differ, or the shapes are wrong) leaves the whole
/// stream untouched.
pub proof fn lemma_fusion_skips(stmts: Seq<StmtV>, objects: Seq<DataObjectV>, i1: int, i2: int)
    requires
        0 <= i1 < i2 < stmts.len(),
        stmts[i1] is Instruction,
        stmts[i2] is Instruction,
        forall|m: int|
            0 <= m < stmts.len() && m != i1 && m != i2 ==> !(#[trigger] stmts[m] is Instruction),
        spec_fuse_pair(stmts[i1], stmts[i2], objects) is None,
    ensures
        spec_fuse(stmts, objects) == stmts,
{
    lemma_idx_prefix_two(stmts, i1, i2, stmts.len() as int);
    let idxs = instruction_indices(stmts);
    assert(idxs == seq![i1, i2]);
    assert(idxs[0] == i1 && idxs[1] == i2);
    let scanned = fuse_scan(stmts, idxs, 0, objects);
    assert(fuse_scan(stmts, idxs, 1, objects) == (stmts, Set::<int>::empty()));
    assert(scanned == (stmts, Set::<int>::empty()));
    lemma_delete_none(stmts, stmts.len() as int);
    assert(stmts.take(stmts.len() as int) =~= stmts);
}

} // verus!
