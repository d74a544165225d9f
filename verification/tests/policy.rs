use filament_ifc::pc_policy::{
    is_call_to_allowlisted_function, is_comparison_op, is_compound_assign, is_labeled_new_call,
    is_labeled_new_without_turbofish, is_logical_op, is_unchecked_operation_call,
    macro_in_expression, macro_in_statement, BinOp, MacroTreatment,
};

#[test]
fn operator_classes() {
    assert!(is_compound_assign(BinOp::AddAssign));
    assert!(is_compound_assign(BinOp::ShrAssign));
    assert!(!is_compound_assign(BinOp::Add));
    assert!(is_comparison_op(BinOp::Eq));
    assert!(is_comparison_op(BinOp::Ne));
    assert!(!is_comparison_op(BinOp::Lt));
    assert!(is_logical_op(BinOp::And));
    assert!(is_logical_op(BinOp::Or));
    assert!(!is_logical_op(BinOp::BitAnd));
}

#[test]
fn allowlisted_calls() {
    assert!(is_call_to_allowlisted_function(Some("std::vec::Vec::new")));
    assert!(is_call_to_allowlisted_function(Some("std :: vec :: Vec :: new")));
    assert!(is_call_to_allowlisted_function(Some("Labeled :: new")));
    assert!(is_call_to_allowlisted_function(Some("typing_rules::lattice::Labeled::new")));
    assert!(!is_call_to_allowlisted_function(Some("std::fs::write")));
    assert!(!is_call_to_allowlisted_function(Some("std::vec::Vec::ne")));
    assert!(!is_call_to_allowlisted_function(None));
}

#[test]
fn special_callees() {
    assert!(is_unchecked_operation_call("typing_rules::implicit::unchecked_operation"));
    assert!(!is_unchecked_operation_call("check_isef"));
    assert!(is_labeled_new_call("Labeled :: < u32 , A > :: new"));
    assert!(!is_labeled_new_call("Vec::new"));
    assert!(is_labeled_new_without_turbofish("Labeled :: new"));
    assert!(!is_labeled_new_without_turbofish("Labeled :: < u32 , A > :: new"));
}

#[test]
fn macro_treatments() {
    assert!(macro_in_expression("fcall") == MacroTreatment::PassThrough);
    assert!(macro_in_expression("panic") == MacroTreatment::PassThrough);
    assert!(macro_in_expression("format") == MacroTreatment::FormatArguments);
    assert!(macro_in_expression("println") == MacroTreatment::RejectUnderSecretPc);
    assert!(macro_in_statement("format") == MacroTreatment::PassThrough);
    assert!(macro_in_statement("pc_block") == MacroTreatment::PassThrough);
    assert!(macro_in_statement("eprintln") == MacroTreatment::RejectUnderSecretPc);
}

#[test]
fn whitespace_in_callee_paths_matches_std() {
    for code in (0u32..0x3100).chain([0xfeff, 0x10ffff]) {
        if let Some(c) = char::from_u32(code) {
            let path = format!("Labeled{}::new", c);
            let stripped_matches = c.is_whitespace();
            assert_eq!(is_call_to_allowlisted_function(Some(path.as_str())), stripped_matches, "{:?}", c);
        }
    }
}
