use filament_ifc::pc_policy::BinOp;
use filament_ifc::rewrite::attrs::{
    relabel, side_effect_free_attr, AttrItem, AttrPlan, RelabelError, RelabelInput, RelabelPlan,
};
use filament_ifc::rewrite::fcall::{
    fcall, plan_args, ArrayElem, CallArg, CallError, CallExpr, CallPlan, ChainEntry, ChainKind,
    FormatParts, InnerArg, InnerElem, StructField,
};
use filament_ifc::rewrite::mcall::{mcall, AwaitArg, MethodArg, MethodError, MethodExpr, MethodPlan};
use filament_ifc::rewrite::pc_block::{
    check_block, check_expr, expand_block, expand_expr, is_trusted_call, pc_block, PcBlockInput,
};
use filament_ifc::rewrite::syntax::{CallResult, Code, CodeStmt, Expr, FormatArgs, Stmt};

fn call(callee: usize, text: &str, path: Option<&str>, args: Vec<Expr>, whole: usize) -> Expr {
    let call_text = format!("{} ( .. ) . func", text);
    Expr::Call {
        callee: Box::new(Expr::Verbatim(callee)),
        callee_fragment: callee,
        func_text: text.to_string(),
        call_text,
        callee_path: path.map(|p| p.to_string()),
        first_arg: if args.is_empty() { None } else { Some(100 + whole) },
        args,
        whole,
    }
}

#[test]
fn untrusted_call_is_vetted_when_checked_and_labeled_when_run() {
    let e = call(1, "compute", Some("compute"), vec![Expr::Verbatim(2)], 3);
    assert_eq!(
        check_expr(&e),
        Code::Call { callee: Box::new(Code::Verbatim(1)), args: vec![Code::Verbatim(2)], result: CallResult::CheckedAndWrapped }
    );
    assert_eq!(
        expand_expr(&e),
        Code::Call { callee: Box::new(Code::Verbatim(1)), args: vec![Code::Verbatim(2)], result: CallResult::Wrapped }
    );
}

#[test]
fn allowlisted_path_is_trusted_whatever_its_spacing() {
    let e = call(1, "std :: vec :: Vec :: new", Some("std :: vec :: Vec :: new"), vec![], 3);
    assert_eq!(check_expr(&e), Code::Call { callee: Box::new(Code::Verbatim(1)), args: vec![], result: CallResult::Trusted });
    assert!(is_trusted_call(&"Labeled :: new".to_string(), &None));
    assert!(!is_trusted_call(&"std :: fs :: remove_file".to_string(), &Some("std :: fs :: remove_file".to_string())));
    assert!(is_trusted_call(&"x".to_string(), &Some("typing_rules :: lattice :: safe_add".to_string())));
}

#[test]
fn unchecked_operation_keeps_its_argument_as_written() {
    let e = call(1, "unchecked_operation", Some("unchecked_operation"), vec![Expr::Verbatim(2)], 3);
    assert_eq!(check_expr(&e), Code::Verbatim(103));
    assert_eq!(expand_expr(&e), Code::Verbatim(103));
    let empty = call(1, "unchecked_operation", Some("unchecked_operation"), vec![], 4);
    assert_eq!(check_expr(&empty), Code::MissingArgument(4));
    assert_eq!(expand_expr(&empty), Code::MissingArgument(4));
}

#[test]
fn assignments_check_explicit_and_implicit_flows() {
    let plain = Expr::Assign { target: 1, value: Box::new(Expr::Verbatim(2)) };
    assert_eq!(check_expr(&plain), Code::SecureAssign { target: 1, value: Box::new(Code::Verbatim(2)) });
    assert_eq!(expand_expr(&plain), Code::SecureAssign { target: 1, value: Box::new(Code::Verbatim(2)) });
    let labeled = Expr::Assign { target: 1, value: Box::new(call(5, "Labeled :: new", Some("Labeled :: new"), vec![Expr::Verbatim(6)], 7)) };
    assert_eq!(check_expr(&labeled), Code::GuardedAssign { target: 1, callee_fragment: 5, args: vec![Code::Verbatim(6)] });
    assert_eq!(expand_expr(&labeled), Code::GuardedAssign { target: 1, callee_fragment: 5, args: vec![Code::Verbatim(6)] });
    let turbofish = Expr::Assign { target: 1, value: Box::new(call(5, "Labeled :: < _ , A > :: new", None, vec![Expr::Verbatim(6)], 7)) };
    assert!(matches!(check_expr(&turbofish), Code::SecureAssign { target: 1, .. }));
}

#[test]
fn compound_assignment_is_guarded_against_the_pc() {
    let e = Expr::Binary { op: BinOp::AddAssign, left: Box::new(Expr::Verbatim(1)), right: Box::new(Expr::Verbatim(2)), left_fragment: 1, whole: 3 };
    assert_eq!(check_expr(&e), Code::SecureAssign { target: 1, value: Box::new(Code::Verbatim(2)) });
    assert_eq!(expand_expr(&e), Code::GuardedCompound { target: 1, op: BinOp::AddAssign, value: Box::new(Code::Verbatim(2)) });
}

#[test]
fn comparisons_and_logic_keep_labels() {
    let eq = Expr::Binary { op: BinOp::Eq, left: Box::new(Expr::Verbatim(1)), right: Box::new(Expr::Verbatim(2)), left_fragment: 1, whole: 3 };
    assert_eq!(check_expr(&eq), Code::LabeledCmp { equal: true, left: Box::new(Code::Verbatim(1)), right: Box::new(Code::Verbatim(2)) });
    let or = Expr::Binary { op: BinOp::Or, left: Box::new(Expr::Verbatim(1)), right: Box::new(Expr::Verbatim(2)), left_fragment: 1, whole: 3 };
    assert_eq!(expand_expr(&or), Code::LabeledLogic { and: false, left: Box::new(Code::Verbatim(1)), right: Box::new(Code::Verbatim(2)) });
    let add = Expr::Binary { op: BinOp::Add, left: Box::new(Expr::Verbatim(1)), right: Box::new(Expr::Verbatim(2)), left_fragment: 1, whole: 3 };
    assert_eq!(check_expr(&add), Code::Binary { op: BinOp::Add, left: Box::new(Code::Verbatim(1)), right: Box::new(Code::Verbatim(2)) });
    assert_eq!(expand_expr(&add), Code::Verbatim(3));
}

#[test]
fn unknown_syntax_is_refused_only_when_checked() {
    let e = Expr::Unsupported(9);
    assert_eq!(check_expr(&e), Code::Refused(9));
    assert_eq!(expand_expr(&e), Code::Verbatim(9));
}

#[test]
fn side_effecting_macros_are_rejected_when_checked() {
    let stmts = vec![
        Stmt::Macro { name: "println".to_string(), whole: 1, mac: 2, semi: true },
        Stmt::Macro { name: "format".to_string(), whole: 3, mac: 4, semi: true },
        Stmt::Macro { name: "fcall".to_string(), whole: 5, mac: 6, semi: false },
    ];
    assert_eq!(
        check_block(&stmts),
        vec![CodeStmt::RejectMacro { mac: 2, semi: true }, CodeStmt::Verbatim(3), CodeStmt::Verbatim(5)]
    );
    assert_eq!(expand_block(&stmts), vec![CodeStmt::Verbatim(1), CodeStmt::Verbatim(3), CodeStmt::Verbatim(5)]);
    let in_expr = Expr::Macro { name: "println".to_string(), whole: 7, format: None };
    assert_eq!(check_expr(&in_expr), Code::RejectMacro(7));
    assert_eq!(expand_expr(&in_expr), Code::Verbatim(7));
}

#[test]
fn format_arguments_are_chained() {
    let e = Expr::Macro {
        name: "format".to_string(),
        whole: 1,
        format: Some(FormatArgs { template: 2, args: vec![Expr::Verbatim(3)] }),
    };
    assert_eq!(check_expr(&e), Code::Format { template: 2, args: vec![Code::Verbatim(3)] });
    assert_eq!(expand_expr(&e), Code::Format { template: 2, args: vec![Code::Verbatim(3)] });
    let unreadable = Expr::Macro { name: "format".to_string(), whole: 4, format: None };
    assert_eq!(check_expr(&unreadable), Code::UnreadableFormat(4));
    assert_eq!(expand_expr(&unreadable), Code::UnreadableFormat(4));
}

#[test]
fn branches_run_the_checked_code() {
    let body = vec![Stmt::Expr { expr: Expr::Assign { target: 2, value: Box::new(Expr::Verbatim(3)) }, semi: true }];
    let e = Expr::If { cond: Box::new(Expr::Verbatim(1)), then_branch: body, else_branch: None };
    let expected = Code::PcIf {
        cond: Box::new(Code::Verbatim(1)),
        then_branch: vec![CodeStmt::Expr { code: Code::SecureAssign { target: 2, value: Box::new(Code::Verbatim(3)) }, semi: true }],
        else_branch: None,
    };
    assert_eq!(check_expr(&e), expected);
    assert_eq!(expand_expr(&e), expected);
}

#[test]
fn pc_block_rewrites_both_ways() {
    let input = PcBlockInput {
        start_label: Some(0),
        block: vec![
            Stmt::Local { pattern: 1, init: Some(call(2, "f", Some("f"), vec![], 3)) },
            Stmt::Expr { expr: Expr::Struct { path: 4, fields: vec![], rest: None, whole: 5 }, semi: false },
        ],
    };
    let r = pc_block(&input);
    assert_eq!(r.start_label, Some(0));
    assert_eq!(
        r.checking,
        vec![
            CodeStmt::Local { pattern: 1, init: Some(Code::Call { callee: Box::new(Code::Verbatim(2)), args: vec![], result: CallResult::CheckedAndWrapped }) },
            CodeStmt::Expr { code: Code::Verbatim(5), semi: false },
        ]
    );
    assert_eq!(
        r.executed,
        vec![
            CodeStmt::Local { pattern: 1, init: Some(Code::Call { callee: Box::new(Code::Verbatim(2)), args: vec![], result: CallResult::Wrapped }) },
            CodeStmt::Expr { code: Code::Struct { path: 4, fields: vec![], rest: None }, semi: false },
        ]
    );
}

fn field(base: usize, text: &str, member: usize, whole: usize) -> ArrayElem {
    ArrayElem::FieldOfPath { base, base_text: text.to_string(), member, whole }
}

#[test]
fn array_argument_gets_one_entry_per_base() {
    let args = vec![
        CallArg::SharedRef { operand: 1 },
        CallArg::Array { elems: vec![field(10, "item", 11, 12), field(13, "item", 14, 15), field(16, "other", 17, 18), ArrayElem::Other(19)], whole: 20 },
        CallArg::Other(21),
    ];
    let (entries, inner) = plan_args(&args);
    assert_eq!(
        entries,
        vec![
            ChainEntry { kind: ChainKind::Ref, target: 1 },
            ChainEntry { kind: ChainKind::Owned, target: 10 },
            ChainEntry { kind: ChainKind::Owned, target: 16 },
            ChainEntry { kind: ChainKind::Owned, target: 21 },
        ]
    );
    assert_eq!(
        inner,
        vec![
            InnerArg::Var(0),
            InnerArg::Array(vec![
                InnerElem::FieldOfVar { var: 1, member: 11 },
                InnerElem::FieldOfVar { var: 1, member: 14 },
                InnerElem::FieldOfVar { var: 2, member: 17 },
                InnerElem::Kept(19),
            ]),
            InnerArg::Var(3),
        ]
    );
}

#[test]
fn vec_argument_binds_paths_and_field_bases() {
    let args = vec![CallArg::VecMacro {
        elems: vec![ArrayElem::Path { fragment: 1, text: "a".to_string() }, field(2, "b", 3, 4), ArrayElem::Path { fragment: 5, text: "a".to_string() }],
        whole: 6,
    }];
    let (entries, inner) = plan_args(&args);
    assert_eq!(entries, vec![ChainEntry { kind: ChainKind::Owned, target: 1 }, ChainEntry { kind: ChainKind::Owned, target: 2 }]);
    assert_eq!(inner, vec![InnerArg::VecOf(vec![InnerElem::Var(0), InnerElem::FieldOfVar { var: 1, member: 3 }, InnerElem::Var(0)])]);
}

#[test]
fn array_without_bases_is_one_owned_argument() {
    let args = vec![CallArg::Array { elems: vec![ArrayElem::Path { fragment: 1, text: "a".to_string() }, ArrayElem::Other(2)], whole: 3 }];
    let (entries, inner) = plan_args(&args);
    assert_eq!(entries, vec![ChainEntry { kind: ChainKind::Owned, target: 3 }]);
    assert_eq!(inner, vec![InnerArg::Var(0)]);
}

#[test]
fn fcall_plans_calls_chains_and_errors() {
    let base = CallExpr::Call { callee: 1, args: vec![CallArg::Other(2)], whole: 3 };
    let chained = CallExpr::MethodCall {
        receiver: Box::new(CallExpr::MethodCall { receiver: Box::new(base), segment: 4, whole: 5 }),
        segment: 6,
        whole: 7,
    };
    let awaited = CallExpr::Await { base: Box::new(chained), whole: 8 };
    assert_eq!(
        fcall(awaited),
        Ok(CallPlan::Call {
            callee: 1,
            entries: vec![ChainEntry { kind: ChainKind::Owned, target: 2 }],
            args: vec![InnerArg::Var(0)],
            mutated: vec![],
            methods: vec![4, 6],
            awaited: true,
            question_mark: false,
        })
    );
    let tried = CallExpr::Try { inner: Box::new(CallExpr::Call { callee: 1, args: vec![], whole: 2 }), whole: 3 };
    assert_eq!(
        fcall(tried),
        Ok(CallPlan::Call { callee: 1, entries: vec![], args: vec![], mutated: vec![], methods: vec![], awaited: false, question_mark: true })
    );
    assert_eq!(fcall(CallExpr::Try { inner: Box::new(CallExpr::Other(4)), whole: 5 }), Err(CallError::ExpectsCall(4)));
    assert_eq!(fcall(CallExpr::Other(6)), Err(CallError::ExpectsCallChain(6)));
    let on_other = CallExpr::MethodCall { receiver: Box::new(CallExpr::Other(7)), segment: 8, whole: 9 };
    assert_eq!(fcall(on_other), Err(CallError::ExpectsCallChain(7)));
    assert_eq!(fcall(CallExpr::Format { parts: None, whole: 10 }), Err(CallError::UnreadableFormat(10)));
    assert_eq!(
        fcall(CallExpr::Format { parts: Some(FormatParts { template: 11, args: vec![12, 13] }), whole: 14 }),
        Ok(CallPlan::Format { template: 11, values: vec![12, 13] })
    );
    let fields = vec![StructField { member: 15, value: 16 }];
    assert_eq!(
        fcall(CallExpr::Struct { path: 17, fields: fields.clone(), whole: 18 }),
        Ok(CallPlan::Struct { path: 17, fields })
    );
}

fn method_call(receiver: MethodExpr, receiver_fragment: usize, method: usize, args: Vec<MethodArg>, segment: usize, whole: usize) -> MethodExpr {
    MethodExpr::MethodCall { receiver: Box::new(receiver), receiver_fragment, method, args, segment, whole }
}

#[test]
fn mcall_plans_methods_fields_and_errors() {
    let args = vec![MethodArg { fragment: 3, is_reference: true }, MethodArg { fragment: 4, is_reference: false }];
    let awaited = MethodExpr::Await { inner: Box::new(method_call(MethodExpr::Other(1), 1, 2, args, 5, 6)), whole: 7 };
    assert_eq!(
        mcall(&awaited),
        Ok(MethodPlan::Awaited {
            receiver: 1,
            method: 2,
            passed: vec![AwaitArg::Passed(3), AwaitArg::Extracted { index: 1, value: 4 }],
            chained: true,
        })
    );
    let refs_only = MethodExpr::Await {
        inner: Box::new(method_call(MethodExpr::Other(1), 1, 2, vec![MethodArg { fragment: 3, is_reference: true }], 5, 6)),
        whole: 7,
    };
    assert!(matches!(mcall(&refs_only), Ok(MethodPlan::Awaited { chained: false, .. })));

    let inner = method_call(MethodExpr::Other(10), 10, 11, vec![], 12, 13);
    let outer = method_call(inner, 13, 14, vec![MethodArg { fragment: 15, is_reference: false }], 16, 17);
    assert_eq!(mcall(&outer), Ok(MethodPlan::Method { base: 10, intermediates: vec![12], method: 14, args: vec![15] }));
    let tried = MethodExpr::Try { inner: Box::new(outer), whole: 18 };
    assert_eq!(mcall(&tried), Ok(MethodPlan::Fallible { base: 10, segments: vec![12, 16] }));

    assert_eq!(mcall(&MethodExpr::Field { base: 1, member: 2, whole: 3 }), Ok(MethodPlan::Field { base: 1, member: 2 }));
    assert_eq!(mcall(&MethodExpr::Other(4)), Err(MethodError::ExpectsMethodOrField(4)));
    assert_eq!(
        mcall(&MethodExpr::Await { inner: Box::new(MethodExpr::Other(5)), whole: 6 }),
        Err(MethodError::ExpectsAwaitedMethodCall(6))
    );
    assert_eq!(
        mcall(&MethodExpr::Try { inner: Box::new(MethodExpr::Field { base: 1, member: 2, whole: 3 }), whole: 7 }),
        Err(MethodError::ExpectsFallibleMethodCall(7))
    );
}

#[test]
fn relabel_refuses_mutable_references() {
    assert_eq!(
        relabel(&RelabelInput { value: 1, mutable_reference: true, label: 2 }),
        Err(RelabelError::MutableReference(1))
    );
    assert_eq!(
        relabel(&RelabelInput { value: 1, mutable_reference: false, label: 2 }),
        Ok(RelabelPlan { value: 1, label: 2 })
    );
}

#[test]
fn side_effect_free_attr_plans_by_item_kind() {
    assert_eq!(
        side_effect_free_attr(&AttrItem::Function { item: 1, return_type: None }),
        AttrPlan::VettedFunction { item: 1, return_type: None }
    );
    assert_eq!(side_effect_free_attr(&AttrItem::Struct { item: 2 }), AttrPlan::SideEffectFreeStruct(2));
    assert_eq!(side_effect_free_attr(&AttrItem::Other(3)), AttrPlan::Unchanged(3));
}

#[test]
fn mutable_reference_is_chained_mutably_and_assigned_back_or_lent_when_awaited() {
    let call = CallExpr::Call {
        callee: 1,
        args: vec![CallArg::MutRef { operand: 2 }, CallArg::Other(3), CallArg::MutRef { operand: 4 }],
        whole: 5,
    };
    assert_eq!(
        fcall(call),
        Ok(CallPlan::Call {
            callee: 1,
            entries: vec![
                ChainEntry { kind: ChainKind::Mut, target: 2 },
                ChainEntry { kind: ChainKind::Owned, target: 3 },
                ChainEntry { kind: ChainKind::Mut, target: 4 },
            ],
            args: vec![InnerArg::Var(0), InnerArg::Var(1), InnerArg::Var(2)],
            mutated: vec![2, 4],
            methods: vec![],
            awaited: false,
            question_mark: false,
        })
    );
    let awaited = CallExpr::Await {
        base: Box::new(CallExpr::Call { callee: 1, args: vec![CallArg::MutRef { operand: 2 }], whole: 3 }),
        whole: 6,
    };
    assert_eq!(
        fcall(awaited),
        Ok(CallPlan::Call {
            callee: 1,
            entries: vec![ChainEntry { kind: ChainKind::Mut, target: 2 }],
            args: vec![InnerArg::Var(0)],
            mutated: vec![],
            methods: vec![],
            awaited: true,
            question_mark: false,
        })
    );
}
