//! Behavioural guarantees of emitted plans, proved once and for all: a
//! marker type's merge is a successful no-op, a record of all-succeeding
//! fields merges completely, field merges run in declaration order, and the
//! first failing field merge wins and stops everything after it.

use vstd::prelude::*;

use crate::model::FieldAccess;
use crate::model::FieldsDesc;
use crate::model::distinct_names;
use crate::model::named_plan;
use crate::model::plan_of_fields;
use crate::model::tuple_plan;
use crate::semantics::MergeError;
use crate::semantics::MergeRule;
use crate::semantics::apply_stmts;
use crate::semantics::failure_report;
use crate::semantics::first_fail_from;
use crate::semantics::first_failure;
use crate::semantics::invoked_prefix;
use crate::semantics::lemma_find_name_first;
use crate::semantics::pos_of;
use crate::semantics::resolves_within;
use crate::semantics::rule_code;
use crate::semantics::rule_fails;
use crate::semantics::rule_merged;

verus! {

/// With distinct field names, every statement of a named record's plan
/// resolves to its own declaration position: the j-th emitted access finds
/// field j and no other.
pub proof fn lemma_named_plan_in_order(names: Seq<String>)
    requires
        distinct_names(names),
    ensures
        named_plan(names).len() == names.len(),
        forall|j: int|
            0 <= j < names.len() ==> pos_of(#[trigger] named_plan(names)[j], names) == j,
        forall|j: int|
            0 <= j < names.len() ==> resolves_within(
                #[trigger] named_plan(names)[j],
                names,
                names.len() as int,
            ),
{
    assert forall|j: int|
        0 <= j < names.len() implies pos_of(#[trigger] named_plan(names)[j], names) == j
        && resolves_within(named_plan(names)[j], names, names.len() as int) by {
        assert(named_plan(names)[j] == (FieldAccess::ByName { name: names[j] }));
        lemma_find_name_first(names, names[j]@, j);
    }
}

/// Every statement of a tuple's plan resolves to its own declaration
/// position, whatever names surround it: the j-th access is position j.
pub proof fn lemma_tuple_plan_in_order(len: nat, names: Seq<String>)
    requires
        len <= usize::MAX as nat,
    ensures
        tuple_plan(len).len() == len,
        forall|j: int| 0 <= j < len ==> pos_of(#[trigger] tuple_plan(len)[j], names) == j,
        forall|j: int|
            0 <= j < len ==> resolves_within(#[trigger] tuple_plan(len)[j], names, len as int),
{
    assert forall|j: int|
        0 <= j < len implies pos_of(#[trigger] tuple_plan(len)[j], names) == j && resolves_within(
        tuple_plan(len)[j],
        names,
        len as int,
    ) by {
        assert(tuple_plan(len)[j] == (FieldAccess::ByPos { idx: j as usize }));
    }
}

/// The invocation trace of an in-order plan lists the declaration positions
/// themselves: after `upto` executed statements it is 0, 1, ..., upto - 1.
pub proof fn lemma_in_order_trace(body: Seq<FieldAccess>, names: Seq<String>, upto: int)
    requires
        body.len() <= usize::MAX as int,
        0 <= upto <= body.len(),
        forall|j: int| 0 <= j < body.len() ==> pos_of(#[trigger] body[j], names) == j,
    ensures
        invoked_prefix(body, names, upto).len() == upto,
        forall|j: int| 0 <= j < upto ==> invoked_prefix(body, names, upto)[j] == j as usize,
    decreases upto,
{
    if upto > 0 {
        lemma_in_order_trace(body, names, upto - 1);
    }
}

/// A plan whose statements' field rules all succeed from `j` on never finds
/// a failing statement.
pub proof fn lemma_no_failure_from(
    body: Seq<FieldAccess>,
    names: Seq<String>,
    rules: Seq<MergeRule>,
    j: int,
)
    requires
        0 <= j <= body.len(),
        forall|m: int|
            j <= m < body.len() ==> !rule_fails(rules[pos_of(#[trigger] body[m], names)]),
    ensures
        first_fail_from(body, names, rules, j) is None,
    decreases body.len() - j,
{
    if j < body.len() {
        lemma_no_failure_from(body, names, rules, j + 1);
    }
}

/// A statement that fails, preceded (from `j` on) only by succeeding ones,
/// is exactly the first failure found from `j`.
pub proof fn lemma_first_failure_at(
    body: Seq<FieldAccess>,
    names: Seq<String>,
    rules: Seq<MergeRule>,
    j: int,
    k: int,
)
    requires
        0 <= j <= k < body.len(),
        forall|m: int| j <= m < k ==> !rule_fails(rules[pos_of(#[trigger] body[m], names)]),
        rule_fails(rules[pos_of(body[k], names)]),
    ensures
        first_fail_from(body, names, rules, j) == Some(k),
    decreases k - j,
{
    if j < k {
        lemma_first_failure_at(body, names, rules, j + 1, k);
    }
}

/// Running the first `upto` statements of an in-order plan merges exactly
/// the fields at positions below `upto`, each under its own rule, and leaves
/// every later field untouched.
pub proof fn lemma_apply_in_order(
    body: Seq<FieldAccess>,
    names: Seq<String>,
    rules: Seq<MergeRule>,
    cur: Seq<u64>,
    incoming: Seq<u64>,
    upto: int,
)
    requires
        body.len() <= rules.len(),
        cur.len() == rules.len(),
        incoming.len() == rules.len(),
        0 <= upto <= body.len(),
        forall|j: int| 0 <= j < body.len() ==> pos_of(#[trigger] body[j], names) == j,
    ensures
        apply_stmts(body, names, rules, cur, incoming, upto).len() == cur.len(),
        forall|i: int|
            0 <= i < upto ==> apply_stmts(body, names, rules, cur, incoming, upto)[i]
                == rule_merged(rules[i], cur[i], incoming[i]),
        forall|i: int|
            upto <= i < cur.len() ==> apply_stmts(body, names, rules, cur, incoming, upto)[i]
                == cur[i],
    decreases upto,
{
    if upto > 0 {
        lemma_apply_in_order(body, names, rules, cur, incoming, upto - 1);
    }
}

/// Law: merging two instances of a field-less marker type always succeeds
/// and produces no observable mutation. The emitted plan is empty, so the
/// run finds no failing statement, leaves the field contents exactly as they
/// were, and invokes no field merge at all.
pub proof fn lemma_marker_merge_trivial(
    names: Seq<String>,
    rules: Seq<MergeRule>,
    cur: Seq<u64>,
    incoming: Seq<u64>,
)
    ensures
        plan_of_fields(FieldsDesc::Unit).len() == 0,
        first_failure(plan_of_fields(FieldsDesc::Unit), names, rules) is None,
        apply_stmts(plan_of_fields(FieldsDesc::Unit), names, rules, cur, incoming, 0) == cur,
        invoked_prefix(plan_of_fields(FieldsDesc::Unit), names, 0).len() == 0,
{
}

/// Law: merging a named record whose every field's own merge succeeds always
/// succeeds, and every field of the first instance ends in the post-merge
/// state its own merge rule dictates.
pub proof fn lemma_record_merge_total(
    names: Seq<String>,
    rules: Seq<MergeRule>,
    cur: Seq<u64>,
    incoming: Seq<u64>,
)
    requires
        distinct_names(names),
        names.len() == rules.len(),
        rules.len() <= usize::MAX as int,
        cur.len() == rules.len(),
        incoming.len() == rules.len(),
        forall|i: int| 0 <= i < rules.len() ==> !rule_fails(#[trigger] rules[i]),
    ensures
        first_failure(named_plan(names), names, rules) is None,
        apply_stmts(named_plan(names), names, rules, cur, incoming, names.len() as int).len()
            == cur.len(),
        forall|i: int|
            0 <= i < rules.len() ==> apply_stmts(
                named_plan(names),
                names,
                rules,
                cur,
                incoming,
                names.len() as int,
            )[i] == rule_merged(rules[i], cur[i], incoming[i]),
{
    lemma_named_plan_in_order(names);
    lemma_no_failure_from(named_plan(names), names, rules, 0);
    lemma_apply_in_order(named_plan(names), names, rules, cur, incoming, names.len() as int);
}

/// Law: for a positional tuple, field merges are invoked in declaration
/// order. However many statements have executed, the trace so far is
/// 0, 1, 2, ... — strictly increasing by position.
pub proof fn lemma_tuple_merge_order(len: nat, names: Seq<String>, upto: int)
    requires
        len <= usize::MAX as nat,
        0 <= upto <= len,
    ensures
        invoked_prefix(tuple_plan(len), names, upto).len() == upto,
        forall|j: int|
            0 <= j < upto ==> invoked_prefix(tuple_plan(len), names, upto)[j] == j as usize,
        forall|j1: int, j2: int|
            0 <= j1 < j2 < upto ==> invoked_prefix(tuple_plan(len), names, upto)[j1]
                < invoked_prefix(tuple_plan(len), names, upto)[j2],
{
    lemma_tuple_plan_in_order(len, names);
    lemma_in_order_trace(tuple_plan(len), names, upto);
}

/// Law: the first failing field merge wins. When statement `k` of an
/// in-order plan is the first whose field rule fails, the run reports that
/// field's own failure, every field from the failing one onward keeps its
/// pre-merge content, and no later field merge is ever invoked: the trace
/// holds exactly the positions up to and including the failing field.
pub proof fn lemma_short_circuit(
    body: Seq<FieldAccess>,
    names: Seq<String>,
    rules: Seq<MergeRule>,
    cur: Seq<u64>,
    incoming: Seq<u64>,
    k: int,
)
    requires
        body.len() <= rules.len(),
        body.len() <= usize::MAX as int,
        cur.len() == rules.len(),
        incoming.len() == rules.len(),
        forall|j: int| 0 <= j < body.len() ==> pos_of(#[trigger] body[j], names) == j,
        0 <= k < body.len(),
        forall|m: int| 0 <= m < k ==> !rule_fails(rules[pos_of(#[trigger] body[m], names)]),
        rule_fails(rules[pos_of(body[k], names)]),
    ensures
        first_failure(body, names, rules) == Some(k),
        failure_report(body, names, rules, k) == (MergeError {
            field: k as usize,
            code: rule_code(rules[k]),
        }),
        forall|i: int|
            k <= i < cur.len() ==> apply_stmts(body, names, rules, cur, incoming, k)[i] == cur[i],
        invoked_prefix(body, names, k + 1).len() == k + 1,
        forall|j: int|
            0 <= j < k + 1 ==> #[trigger] invoked_prefix(body, names, k + 1)[j] == j as usize,
{
    lemma_first_failure_at(body, names, rules, 0, k);
    lemma_apply_in_order(body, names, rules, cur, incoming, k);
    lemma_in_order_trace(body, names, k + 1);
}

} // verus!
