//! Runtime behaviour of emitted plans, exercised through the verified
//! interpreter: trivial marker merges, full record merges, invocation order,
//! and first-failure short-circuiting.

use merge_derive::emit::emit_field_plan;
use merge_derive::model::FieldAccess;
use merge_derive::model::FieldsDesc;
use merge_derive::semantics::run_merge;
use merge_derive::semantics::resolve_access;
use merge_derive::semantics::MergeError;
use merge_derive::semantics::MergeRule;

fn names_of(names: &[&str]) -> Vec<String> {
    names.iter().map(|n| n.to_string()).collect()
}

#[test]
fn marker_merge_succeeds_without_mutation() {
    let body = emit_field_plan(&FieldsDesc::Unit);
    let names: Vec<String> = Vec::new();
    let rules = vec![MergeRule::Overwrite, MergeRule::Fail { code: 3 }];
    let mut fields = vec![1, 2];
    let incoming = vec![10, 20];
    let mut trace: Vec<usize> = Vec::new();
    let r = run_merge(&body, &names, &rules, &mut fields, &incoming, &mut trace);
    assert_eq!(r, Ok(()));
    assert_eq!(fields, vec![1, 2]);
    assert!(trace.is_empty());
}

#[test]
fn record_merge_all_success() {
    let names = names_of(&["host", "port", "retries"]);
    let body = emit_field_plan(&FieldsDesc::Named { names: names.clone() });
    let rules = vec![MergeRule::Overwrite, MergeRule::Keep, MergeRule::Overwrite];
    let mut fields = vec![1, 2, 3];
    let incoming = vec![10, 20, 30];
    let mut trace: Vec<usize> = Vec::new();
    let r = run_merge(&body, &names, &rules, &mut fields, &incoming, &mut trace);
    assert_eq!(r, Ok(()));
    assert_eq!(fields, vec![10, 2, 30]);
    assert_eq!(trace, vec![0, 1, 2]);
}

#[test]
fn tuple_merge_invocation_order_strictly_increasing() {
    let body = emit_field_plan(&FieldsDesc::Unnamed { len: 4 });
    let names: Vec<String> = Vec::new();
    let rules = vec![MergeRule::Overwrite; 4];
    let mut fields = vec![0, 1, 2, 3];
    let incoming = vec![9, 9, 9, 9];
    let mut trace: Vec<usize> = Vec::new();
    let r = run_merge(&body, &names, &rules, &mut fields, &incoming, &mut trace);
    assert_eq!(r, Ok(()));
    assert_eq!(trace, vec![0, 1, 2, 3]);
    for w in trace.windows(2) {
        assert!(w[0] < w[1]);
    }
}

#[test]
fn short_circuit_on_second_field_failure() {
    let names = names_of(&["first", "second", "third"]);
    let body = emit_field_plan(&FieldsDesc::Named { names: names.clone() });
    let rules = vec![
        MergeRule::Overwrite,
        MergeRule::Fail { code: 7 },
        MergeRule::Overwrite,
    ];
    let mut fields = vec![1, 2, 3];
    let incoming = vec![10, 20, 30];
    let mut trace: Vec<usize> = Vec::new();
    let r = run_merge(&body, &names, &rules, &mut fields, &incoming, &mut trace);
    // The second field's own failure is reported outward unchanged.
    assert_eq!(r, Err(MergeError { field: 1, code: 7 }));
    // The first field merged; the failing field and the one after it did not.
    assert_eq!(fields, vec![10, 2, 3]);
    // The third field's merge was never invoked.
    assert_eq!(trace, vec![0, 1]);
}

#[test]
fn failure_on_first_field_leaves_everything_untouched() {
    let body = emit_field_plan(&FieldsDesc::Unnamed { len: 2 });
    let names: Vec<String> = Vec::new();
    let rules = vec![MergeRule::Fail { code: 1 }, MergeRule::Overwrite];
    let mut fields = vec![5, 6];
    let incoming = vec![50, 60];
    let mut trace: Vec<usize> = Vec::new();
    let r = run_merge(&body, &names, &rules, &mut fields, &incoming, &mut trace);
    assert_eq!(r, Err(MergeError { field: 0, code: 1 }));
    assert_eq!(fields, vec![5, 6]);
    assert_eq!(trace, vec![0]);
}

#[test]
fn by_name_access_resolves_declared_position() {
    let names = names_of(&["alpha", "beta", "gamma"]);
    let access = FieldAccess::ByName { name: "beta".to_string() };
    assert_eq!(resolve_access(&access, &names, 3), 1);
    let positional = FieldAccess::ByPos { idx: 2 };
    assert_eq!(resolve_access(&positional, &names, 3), 2);
}

#[test]
fn keep_rule_preserves_current_value() {
    let body = emit_field_plan(&FieldsDesc::Unnamed { len: 1 });
    let names: Vec<String> = Vec::new();
    let rules = vec![MergeRule::Keep];
    let mut fields = vec![42];
    let incoming = vec![99];
    let mut trace: Vec<usize> = Vec::new();
    let r = run_merge(&body, &names, &rules, &mut fields, &incoming, &mut trace);
    assert_eq!(r, Ok(()));
    assert_eq!(fields, vec![42]);
    assert_eq!(trace, vec![0]);
}
