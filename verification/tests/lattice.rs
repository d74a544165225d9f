use filament_ifc::compare::{LabeledAnd, LabeledCmp, LabeledOr};
use filament_ifc::function_rewrite::{SecureChain, SecureChainMut, SecureChainRef};
use filament_ifc::implicit::{
    check_isef, inspect_condition, join_labels, pc_guard_assign, secure_assign_with_pc,
    unchecked_operation, ConditionInspect, PcCallResult, PcCallResultFallback, PcIsef,
    PcIsefFallback, Vetted,
};
use filament_ifc::lattice::{
    __relabel_checked, declassify, labeled_transpose, Labeled, PcContext, Public, A, AB, B,
};
use std::cmp::Ordering;
use std::collections::HashSet;

#[test]
fn new_then_declassify_gives_the_value_back() {
    let x = Labeled::<String, A>::new("secret".to_string());
    assert_eq!(x.declassify_ref(), "secret");
    assert_eq!(declassify(x), "secret");
}

#[test]
fn as_ref_and_mutable_declassify() {
    let mut x = Labeled::<u32, B>::new(7);
    let r = x.as_ref();
    assert_eq!(*declassify(r), 7);
    *x.declassify_ref_mut() = 9;
    assert_eq!(declassify(x), 9);
}

#[test]
fn option_and_result_transposes() {
    let some = Labeled::<Option<u32>, A>::new(Some(3));
    assert_eq!(*declassify(some.as_option_ref().unwrap()), 3);
    assert_eq!(declassify(labeled_transpose(some).unwrap()), 3);

    let none = Labeled::<Option<u32>, A>::new(None);
    assert!(none.as_option_ref().is_none());
    assert!(labeled_transpose(none).is_none());

    let ok = Labeled::<Result<u32, String>, B>::new(Ok(4));
    assert_eq!(declassify(ok.transpose().unwrap()), 4);
    let err = Labeled::<Result<u32, String>, B>::new(Err("bad".to_string()));
    assert_eq!(err.transpose().err().unwrap(), "bad");
}

#[test]
fn arithmetic_joins_labels() {
    let a = Labeled::<u32, A>::new(12);
    let b = Labeled::<u32, B>::new(5);
    let sum: Labeled<u32, AB> = a + b;
    assert_eq!(declassify(sum), 17);
    let diff: Labeled<u32, AB> = a - b;
    assert_eq!(declassify(diff), 7);
    let prod: Labeled<u32, AB> = a * b;
    assert_eq!(declassify(prod), 60);
    let quot: Labeled<u32, AB> = a / b;
    assert_eq!(declassify(quot), 2);
    let rem: Labeled<u32, AB> = a % b;
    assert_eq!(declassify(rem), 2);
    let or: Labeled<u32, AB> = a | b;
    assert_eq!(declassify(or), 13);
    let with_public: Labeled<u32, A> = a + Labeled::<u32, Public>::new(1);
    assert_eq!(declassify(with_public), 13);
}

#[test]
fn arithmetic_with_raw_values_keeps_label() {
    let a = Labeled::<i64, A>::new(10);
    let r: Labeled<i64, A> = a + 5;
    assert_eq!(declassify(r), 15);
    assert_eq!(declassify(a - 20), -10);
    assert_eq!(declassify(a * 3), 30);
    assert_eq!(declassify(a / 3), 3);
    assert_eq!(declassify(a % 3), 1);
    let n: Labeled<bool, B> = !Labeled::<bool, B>::new(true);
    assert!(!declassify(n));
}

#[test]
fn comparisons_look_through_labels() {
    let a = Labeled::<u32, A>::new(2);
    let b = Labeled::<u32, A>::new(2);
    let c = Labeled::<u32, A>::new(3);
    assert!(a == b);
    assert!(a != c);
    assert!(a == 2u32);
    assert!(a < c);
    assert_eq!(a.partial_cmp(&c), Some(Ordering::Less));
    assert_eq!(c.partial_cmp(&2u32), Some(Ordering::Greater));

    let mut set = HashSet::new();
    set.insert(a);
    assert!(set.contains(&b));
    assert!(!set.contains(&c));
}

#[test]
fn labeled_comparisons_keep_labels() {
    let a = Labeled::<u32, A>::new(2);
    let b = Labeled::<u32, B>::new(2);
    let eq: Labeled<bool, AB> = a.labeled_eq(b);
    assert!(declassify(eq));
    let ne: Labeled<bool, AB> = a.labeled_ne(b);
    assert!(!declassify(ne));
    let raw: Labeled<bool, A> = a.labeled_eq(3u32);
    assert!(!declassify(raw));
    assert!(declassify(a.labeled_ne(3u32)));
}

#[test]
fn labeled_logic_keeps_labels() {
    let t = Labeled::<bool, A>::new(true);
    let f = Labeled::<bool, B>::new(false);
    let and: Labeled<bool, AB> = t.labeled_and(f);
    assert!(!declassify(and));
    let or: Labeled<bool, AB> = t.labeled_or(f);
    assert!(declassify(or));
    assert!(declassify(t.labeled_and(true)));
    assert!(!declassify(Labeled::<bool, A>::new(false).labeled_or(false)));
    assert!(!true.labeled_and(false));
    assert!(false.labeled_or(true));
}

#[test]
fn default_and_clone() {
    let d: Labeled<u32, A> = Default::default();
    assert_eq!(declassify(d), 0);
    let s = Labeled::<String, B>::new("x".to_string());
    let t = s.clone();
    assert_eq!(declassify(s), declassify(t));
}

#[test]
fn labeled_arrays() {
    let mut arr = Labeled::<[u32; 3], A>::new([1, 2, 3]);
    assert_eq!(*declassify(arr.index(1)), 2);
    assert_eq!(*declassify(arr.index_labeled(Labeled::<usize, B>::new(2))), 3);
    arr.index_set(0, Labeled::new(10));
    arr.index_set_labeled(Labeled::<usize, B>::new(2), Labeled::new(30));
    assert_eq!(declassify(arr), [10, 2, 30]);
}

#[test]
fn relabel_upwards_keeps_value() {
    let p = Labeled::<u32, Public>::new(4);
    let a: Labeled<u32, A> = __relabel_checked(p);
    let ab: Labeled<u32, AB> = __relabel_checked(a);
    assert_eq!(declassify(ab), 4);
}

#[test]
fn chains_join_labels() {
    let a = Labeled::<u32, A>::new(2);
    let r: Labeled<u32, AB> = a.__chain(|x| Labeled::<u32, B>::new(x + 1));
    assert_eq!(declassify(r), 3);

    let r: Labeled<usize, A> = a.__chain_ref(|x| Labeled::<usize, Public>::new(*x as usize * 10));
    assert_eq!(declassify(r), 20);

    let r: Labeled<(u32, bool), AB> = a.__chain_mut(|x| {
        *x += 5;
        Labeled::<bool, B>::new(true)
    });
    assert_eq!(declassify(r), (7, true));

    let raw: Labeled<u32, B> = SecureChain::__chain(6u32, |x| Labeled::<u32, B>::new(x * 2));
    assert_eq!(declassify(raw), 12);
    let raw: Labeled<u32, A> = SecureChainRef::__chain_ref(&6u32, |x| Labeled::<u32, A>::new(*x + 1));
    assert_eq!(declassify(raw), 7);
    let raw: Labeled<(u32, u32), B> = SecureChainMut::__chain_mut(6u32, |x| {
        *x = 0;
        Labeled::<u32, B>::new(1)
    });
    assert_eq!(declassify(raw), (0, 1));
}

#[test]
fn private_accessors() {
    let mut x = Labeled::<u32, A>::new(1);
    assert_eq!(*x.__private_value(), 1);
    *x.__private_value_mut() = 2;
    assert_eq!(x.__private_into_value(), 2);
    let m = Labeled::<u32, A>::new(3).__map(|v| v * 2);
    assert_eq!(declassify(m), 6);
    let m = Labeled::<u32, A>::new(3).__map_ref(|v| *v + 1);
    assert_eq!(declassify(m), 4);
}

#[test]
fn conditions_and_program_counter() {
    let (v, _label): (bool, Public) = inspect_condition(true);
    assert!(v);
    let (v, _label): (bool, A) = inspect_condition(Labeled::<bool, A>::new(false));
    assert!(!v);
    let (v, _label) = Labeled::<bool, B>::new(true).inspect();
    assert!(v);
    let _pc: AB = join_labels(A, B);
    let _pc: A = join_labels(Public, A);
    let _ctx = PcContext::<A>::new();
}

#[test]
fn guarded_assignments() {
    let mut dest = Labeled::<u32, AB>::new(0);
    secure_assign_with_pc(&mut dest, Labeled::<u32, A>::new(5), B);
    assert_eq!(*dest.declassify_ref(), 5);
    pc_guard_assign(&mut dest, A);
    assert_eq!(declassify(dest), 5);

    let mut public_dest = Labeled::<u32, Public>::new(1);
    secure_assign_with_pc(&mut public_dest, Labeled::<u32, Public>::new(2), Public);
    assert_eq!(declassify(public_dest), 2);
}

#[test]
fn side_effect_free_helpers() {
    assert_eq!(check_isef(3u8), 3);
    assert_eq!(unchecked_operation("x"), "x");
    let v = Vetted::wrap(5u32);
    assert_eq!(v.unwrap(), 5);
    assert_eq!(PcCallResult(Vetted::wrap(7u32)).wrap_result(), 7);
    let labeled: Labeled<u32, Public> = PcCallResult(8u32).wrap_result();
    assert_eq!(declassify(labeled), 8);

    let public_checker = PcIsef::new(&Public);
    assert_eq!(public_checker.check(String::from("io ok")), "io ok");
    assert_eq!(public_checker.reject_side_effecting_macro(1), 1);
    let secret_checker = PcIsef::new(&A);
    assert_eq!(PcIsefFallback::check(&secret_checker, 4u32), 4);
}

#[test]
fn assignment_inside_a_secret_branch_reaches_a_secret_destination() {
    let pc = join_labels(Public, A);
    let mut dest = Labeled::<u32, A>::new(0);
    secure_assign_with_pc(&mut dest, Labeled::<u32, Public>::new(9), pc);
    assert_eq!(declassify(dest), 9);
}

#[test]
fn mutating_chain_gives_back_the_value_to_assign() {
    let mut x = Labeled::<u32, A>::new(1);
    let y = Labeled::<u32, A>::new(5);
    let pair = x.__chain_mut(|v: &mut u32| {
        y.__chain(|w: u32| {
            *v += w;
            Labeled::<u32, Public>::new(*v * 10)
        })
    });
    let (mutated, result) = pair.split();
    x = mutated;
    assert_eq!(declassify(x), 6);
    assert_eq!(declassify(result), 60);
}
