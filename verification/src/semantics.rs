//! The runtime meaning of an emitted plan.
//!
//! The generated `merge` procedure executes one field merge per statement, in
//! plan order, and stops at the first field-level failure, propagating it
//! outward unchanged. This module states that behaviour over a reference
//! model: an instance is the sequence of its field contents, and each field
//! position carries a terminal merge rule. [`run_merge`] is a verified
//! interpreter of a plan against that model; its contract pins down the
//! result, the final field contents, and the order in which field merges are
//! invoked.

use vstd::prelude::*;

use crate::model::FieldAccess;

verus! {

/// The terminal merge rule a field's own type supplies: take the incoming
/// value, keep the current one, or always fail with a fixed error code.
#[derive(Debug, Clone, Copy, PartialEq, Eq, Structural)]
pub enum MergeRule {
    /// The incoming instance's value wins.
    Overwrite,
    /// The current instance's value is kept.
    Keep,
    /// Merging this field always fails, reporting `code`.
    Fail { code: u64 },
}

/// A field-level merge failure, propagated outward unchanged: the position
/// of the field whose merge failed, and that merge's own error code.
#[derive(Debug, Clone, Copy, PartialEq, Eq, Structural)]
pub struct MergeError {
    /// The zero-based declaration position of the failing field.
    pub field: usize,
    /// The failing field merge's own error code.
    pub code: u64,
}

/// The position of the first field whose name matches `wanted`, if any.
pub open spec fn find_name(names: Seq<String>, wanted: Seq<char>) -> Option<int>
    decreases names.len(),
{
    if names.len() == 0 {
        None::<int>
    } else if names[0]@ == wanted {
        Some(0)
    } else {
        match find_name(names.drop_first(), wanted) {
            Some(i) => Some(i + 1),
            None => None,
        }
    }
}

/// What a successful or failed name lookup says of the name sequence.
pub proof fn lemma_find_name(names: Seq<String>, wanted: Seq<char>)
    ensures
        find_name(names, wanted) matches Some(i) ==> 0 <= i < names.len() && names[i]@ == wanted
            && (forall|j: int| 0 <= j < i ==> names[j]@ != wanted),
        find_name(names, wanted) is None ==> forall|j: int|
            0 <= j < names.len() ==> names[j]@ != wanted,
    decreases names.len(),
{
    if names.len() == 0 {
    } else if names[0]@ == wanted {
    } else {
        let sub = names.drop_first();
        lemma_find_name(sub, wanted);
        assert(forall|j: int| 0 <= j < sub.len() ==> #[trigger] sub[j] == names[j + 1]);
        match find_name(sub, wanted) {
            Some(i) => {
                assert(sub[i] == names[i + 1]);
                assert forall|j: int| 0 <= j < i + 1 implies names[j]@ != wanted by {
                    if j > 0 {
                        assert(sub[j - 1]@ != wanted);
                    }
                }
            },
            None => {
                assert forall|j: int| 0 <= j < names.len() implies names[j]@ != wanted by {
                    if j > 0 {
                        assert(sub[j - 1]@ != wanted);
                    }
                }
            },
        }
    }
}

/// A name that first occurs at position `k` is found exactly there.
pub proof fn lemma_find_name_first(names: Seq<String>, wanted: Seq<char>, k: int)
    requires
        0 <= k < names.len(),
        names[k]@ == wanted,
        forall|j: int| 0 <= j < k ==> names[j]@ != wanted,
    ensures
        find_name(names, wanted) == Some(k),
    decreases k,
{
    if k == 0 {
    } else {
        assert(names[0]@ != wanted);
        assert(names.drop_first()[k - 1] == names[k]);
        assert(forall|j: int|
            0 <= j < k - 1 ==> names.drop_first()[j] == names[j + 1] && names[j + 1]@ != wanted);
        lemma_find_name_first(names.drop_first(), wanted, k - 1);
    }
}

/// The field position an access denotes: a by-name access finds its field
/// among the declared names; a by-position access is its own index. An
/// undeclared name resolves to no position (spoken for by [`resolves_within`]).
pub open spec fn pos_of(a: FieldAccess, names: Seq<String>) -> int {
    match a {
        FieldAccess::ByName { name } => match find_name(names, name@) {
            Some(i) => i,
            None => -1,
        },
        FieldAccess::ByPos { idx } => idx as int,
    }
}

/// The access denotes a field position below `n`: the name is declared, or
/// the index is in range. The host compiler guarantees this of any plan it
/// accepts; the interpreter requires it.
pub open spec fn resolves_within(a: FieldAccess, names: Seq<String>, n: int) -> bool {
    match a {
        FieldAccess::ByName { name } => find_name(names, name@) matches Some(i) && i < n,
        FieldAccess::ByPos { idx } => (idx as int) < n,
    }
}

/// A resolvable access denotes a position in range.
pub proof fn lemma_resolves_within(a: FieldAccess, names: Seq<String>, n: int)
    requires
        resolves_within(a, names, n),
    ensures
        0 <= pos_of(a, names) < n,
{
    match a {
        FieldAccess::ByName { name } => lemma_find_name(names, name@),
        FieldAccess::ByPos { idx: _ } => (),
    }
}

/// Whether a field's rule makes its merge fail.
pub open spec fn rule_fails(rule: MergeRule) -> bool {
    rule is Fail
}

/// The post-merge content of a field under its rule. A failing rule mutates
/// nothing.
pub open spec fn rule_merged(rule: MergeRule, cur: u64, incoming: u64) -> u64 {
    match rule {
        MergeRule::Overwrite => incoming,
        MergeRule::Keep => cur,
        MergeRule::Fail { code: _ } => cur,
    }
}

/// The error code a failing rule reports.
pub open spec fn rule_code(rule: MergeRule) -> u64 {
    match rule {
        MergeRule::Fail { code } => code,
        _ => 0,
    }
}

/// The index of the first statement at or after `j` whose field rule fails.
pub open spec fn first_fail_from(
    body: Seq<FieldAccess>,
    names: Seq<String>,
    rules: Seq<MergeRule>,
    j: int,
) -> Option<int>
    decreases body.len() - j,
{
    if j < 0 || j >= body.len() {
        None::<int>
    } else if rule_fails(rules[pos_of(body[j], names)]) {
        Some(j)
    } else {
        first_fail_from(body, names, rules, j + 1)
    }
}

/// The index of the first statement of the plan whose field rule fails, if
/// any: the statement at which the generated procedure stops.
pub open spec fn first_failure(
    body: Seq<FieldAccess>,
    names: Seq<String>,
    rules: Seq<MergeRule>,
) -> Option<int> {
    first_fail_from(body, names, rules, 0)
}

/// The field contents after the first `upto` statements of the plan have
/// each merged their field.
pub open spec fn apply_stmts(
    body: Seq<FieldAccess>,
    names: Seq<String>,
    rules: Seq<MergeRule>,
    cur: Seq<u64>,
    incoming: Seq<u64>,
    upto: int,
) -> Seq<u64>
    decreases upto,
{
    if upto <= 0 {
        cur
    } else {
        let prev = apply_stmts(body, names, rules, cur, incoming, upto - 1);
        let p = pos_of(body[upto - 1], names);
        prev.update(p, rule_merged(rules[p], prev[p], incoming[p]))
    }
}

/// The field positions the first `upto` statements invoke, in invocation
/// order.
pub open spec fn invoked_prefix(body: Seq<FieldAccess>, names: Seq<String>, upto: int) -> Seq<
    usize,
>
    decreases upto,
{
    if upto <= 0 {
        Seq::empty()
    } else {
        invoked_prefix(body, names, upto - 1).push(pos_of(body[upto - 1], names) as usize)
    }
}

/// The failure the generated procedure reports when statement `k` is the
/// first to fail: that field's position and that field merge's own code.
pub open spec fn failure_report(
    body: Seq<FieldAccess>,
    names: Seq<String>,
    rules: Seq<MergeRule>,
    k: int,
) -> MergeError {
    MergeError {
        field: pos_of(body[k], names) as usize,
        code: rule_code(rules[pos_of(body[k], names)]),
    }
}

/// Resolve one access to its field position among `n` fields with the given
/// declared names, as the host compiler does for `self.<access>`.
#[verifier::loop_isolation(false)]
pub fn resolve_access(a: &FieldAccess, names: &Vec<String>, n: usize) -> (r: usize)
    requires
        resolves_within(*a, names@, n as int),
    ensures
        r as int == pos_of(*a, names@),
        r < n,
{
    proof {
        lemma_resolves_within(*a, names@, n as int);
    }
    match a {
        FieldAccess::ByPos { idx } => *idx,
        FieldAccess::ByName { name } => {
            let mut k: usize = 0;
            while k < names.len()
                invariant
                    k <= names@.len(),
                    resolves_within(FieldAccess::ByName { name: *name }, names@, n as int),
                    forall|j: int| 0 <= j < k ==> names@[j]@ != name@,
                decreases names@.len() - k,
            {
                if names[k] == *name {
                    proof {
                        lemma_find_name_first(names@, name@, k as int);
                    }
                    return k;
                }
                k = k + 1;
            }
            proof {
                lemma_find_name(names@, name@);
                assert(false);
            }
            0
        },
    }
}

/// Run the generated merge procedure: execute the plan's statements in
/// order, each merging one field of `fields` against the same field of
/// `incoming` under that field's rule, appending each invoked position to
/// `trace`, and stopping at the first failing field merge.
///
/// The contract is exhaustive: whether the run succeeds, what every field
/// holds afterwards, which failure is reported, and which field merges were
/// invoked, in which order, are each pinned down by the plan and the rules.
#[verifier::loop_isolation(false)]
pub fn run_merge(
    body: &Vec<FieldAccess>,
    names: &Vec<String>,
    rules: &Vec<MergeRule>,
    fields: &mut Vec<u64>,
    incoming: &Vec<u64>,
    trace: &mut Vec<usize>,
) -> (r: Result<(), MergeError>)
    requires
        old(fields)@.len() == rules@.len(),
        incoming@.len() == rules@.len(),
        forall|j: int|
            0 <= j < body@.len() ==> resolves_within(body@[j], names@, rules@.len() as int),
    ensures
        final(fields)@.len() == old(fields)@.len(),
        match first_failure(body@, names@, rules@) {
            None => {
                &&& r is Ok
                &&& final(fields)@ == apply_stmts(
                    body@,
                    names@,
                    rules@,
                    old(fields)@,
                    incoming@,
                    body@.len() as int,
                )
                &&& final(trace)@ == old(trace)@ + invoked_prefix(
                    body@,
                    names@,
                    body@.len() as int,
                )
            },
            Some(k) => {
                &&& r == Err::<(), MergeError>(failure_report(body@, names@, rules@, k))
                &&& final(fields)@ == apply_stmts(body@, names@, rules@, old(fields)@, incoming@, k)
                &&& final(trace)@ == old(trace)@ + invoked_prefix(body@, names@, k + 1)
            },
        },
{
    let n = rules.len();
    let mut j: usize = 0;
    while j < body.len()
        invariant
            j <= body@.len(),
            fields@.len() == rules@.len(),
            fields@ == apply_stmts(body@, names@, rules@, old(fields)@, incoming@, j as int),
            trace@ == old(trace)@ + invoked_prefix(body@, names@, j as int),
            first_failure(body@, names@, rules@) == first_fail_from(
                body@,
                names@,
                rules@,
                j as int,
            ),
        decreases body@.len() - j,
    {
        let p = resolve_access(&body[j], names, n);
        trace.push(p);
        proof {
            assert(trace@ =~= old(trace)@ + invoked_prefix(body@, names@, j + 1));
        }
        let ghost prev = fields@;
        match rules[p] {
            MergeRule::Overwrite => {
                let v = incoming[p];
                fields.set(p, v);
                proof {
                    assert(fields@ =~= apply_stmts(
                        body@,
                        names@,
                        rules@,
                        old(fields)@,
                        incoming@,
                        j + 1,
                    ));
                }
            },
            MergeRule::Keep => {
                proof {
                    assert(prev.update(p as int, prev[p as int]) =~= prev);
                    assert(fields@ =~= apply_stmts(
                        body@,
                        names@,
                        rules@,
                        old(fields)@,
                        incoming@,
                        j + 1,
                    ));
                }
            },
            MergeRule::Fail { code } => {
                proof {
                    assert(first_fail_from(body@, names@, rules@, j as int) == Some(j as int));
                }
                return Err(MergeError { field: p, code });
            },
        }
        j = j + 1;
    }
    Ok(())
}

} // verus!
