use leo_synth::compiler::circuit::Circuit;
use leo_synth::compiler::namespace::allocate_namespace;
use leo_synth::compiler::span::Span;
use leo_synth::compiler::text::render_signed;
use leo_synth::compiler::text::render_unsigned;
use leo_synth::compiler::value::is_plain_text;
use leo_synth::compiler::value::Integer;
use leo_synth::compiler::value::IntegerType;
use leo_synth::compiler::value::Kind;
use leo_synth::compiler::value::Member;
use leo_synth::compiler::value::Value;

#[test]
fn decimal_text_of_unsigned_numbers() {
    assert_eq!(render_unsigned(0), "0");
    assert_eq!(render_unsigned(7), "7");
    assert_eq!(render_unsigned(10), "10");
    assert_eq!(render_unsigned(1905), "1905");
    assert_eq!(render_unsigned(u128::MAX), "340282366920938463463374607431768211455");
    for n in [0u128, 9, 99, 100, 12345678901234567890] {
        assert_eq!(render_unsigned(n), n.to_string());
    }
}

#[test]
fn decimal_text_of_signed_numbers() {
    assert_eq!(render_signed(0), "0");
    assert_eq!(render_signed(-1), "-1");
    assert_eq!(render_signed(42), "42");
    assert_eq!(render_signed(i128::MIN), "-170141183460469231731687303715884105728");
    assert_eq!(render_signed(i128::MAX), "170141183460469231731687303715884105727");
}

#[test]
fn integers_render_as_their_number() {
    assert_eq!(Integer::U8(255).render(), "255");
    assert_eq!(Integer::U16(65535).render(), "65535");
    assert_eq!(Integer::U32(5).render(), "5");
    assert_eq!(Integer::U64(u64::MAX).render(), "18446744073709551615");
    assert_eq!(Integer::U128(0).render(), "0");
    assert_eq!(Integer::I8(-128).render(), "-128");
    assert_eq!(Integer::I16(-1).render(), "-1");
    assert_eq!(Integer::I32(i32::MIN).render(), "-2147483648");
    assert_eq!(Integer::I64(64).render(), "64");
    assert_eq!(Integer::I128(-5).render(), "-5");
}

#[test]
fn integers_know_their_type() {
    assert_eq!(Integer::U8(0).get_type(), IntegerType::U8);
    assert_eq!(Integer::U16(0).get_type(), IntegerType::U16);
    assert_eq!(Integer::U32(0).get_type(), IntegerType::U32);
    assert_eq!(Integer::U64(0).get_type(), IntegerType::U64);
    assert_eq!(Integer::U128(0).get_type(), IntegerType::U128);
    assert_eq!(Integer::I8(0).get_type(), IntegerType::I8);
    assert_eq!(Integer::I16(0).get_type(), IntegerType::I16);
    assert_eq!(Integer::I32(0).get_type(), IntegerType::I32);
    assert_eq!(Integer::I64(0).get_type(), IntegerType::I64);
    assert_eq!(Integer::I128(0).get_type(), IntegerType::I128);
}

#[test]
fn values_render_by_variant() {
    assert_eq!(Value::Boolean(true).render(), "true");
    assert_eq!(Value::Boolean(false).render(), "false");
    assert_eq!(Value::Integer(Integer::I32(-12)).render(), "-12");
    assert_eq!(Value::Field("8444461749428370424248824938781546531375899335154063827935233455917409239040".to_string()).render(),
        "8444461749428370424248824938781546531375899335154063827935233455917409239040");
    assert_eq!(Value::Group("(0, 1)group".to_string()).render(), "(0, 1)group");
    assert_eq!(Value::Address("aleo1abc".to_string()).render(), "aleo1abc");
    assert_eq!(Value::Array(vec![]).render(), "[]");
    assert_eq!(Value::Array(vec![Value::Boolean(true)]).render(), "[true]");
    assert_eq!(
        Value::Array(vec![
            Value::Integer(Integer::U8(1)),
            Value::Integer(Integer::U8(2)),
            Value::Integer(Integer::U8(3)),
        ])
        .render(),
        "[1, 2, 3]"
    );
    assert_eq!(Value::Tuple(vec![]).render(), "()");
    assert_eq!(
        Value::Tuple(vec![Value::Boolean(false), Value::Array(vec![Value::Integer(Integer::I8(-1))])]).render(),
        "(false, [-1])"
    );
    assert_eq!(Value::Record(vec![]).render(), "{}");
    assert_eq!(
        Value::Record(vec![
            Member { name: "x".to_string(), value: Value::Integer(Integer::U32(1)) },
            Member { name: "inner".to_string(), value: Value::Tuple(vec![Value::Boolean(true), Value::Boolean(false)]) },
        ])
        .render(),
        "{x: 1, inner: (true, false)}"
    );
}

#[test]
fn values_know_their_kind() {
    assert_eq!(Value::Boolean(true).get_kind(), Kind::Boolean);
    assert_eq!(Value::Integer(Integer::U8(1)).get_kind(), Kind::Integer);
    assert_eq!(Value::Field("1".to_string()).get_kind(), Kind::Field);
    assert_eq!(Value::Group("0group".to_string()).get_kind(), Kind::Group);
    assert_eq!(Value::Address("aleo1".to_string()).get_kind(), Kind::Address);
    assert_eq!(Value::Array(vec![]).get_kind(), Kind::Array);
    assert_eq!(Value::Tuple(vec![]).get_kind(), Kind::Tuple);
    assert_eq!(Value::Record(vec![]).get_kind(), Kind::Record);
}

#[test]
fn plain_texts_hold_no_separator() {
    assert!(is_plain_text(""));
    assert!(is_plain_text("evaluate 5 > 3 1:1"));
    assert!(!is_plain_text("/"));
    assert!(!is_plain_text("a/b"));
    assert!(!is_plain_text("trailing/"));
    assert!(is_plain_text("caf\u{e9} \u{2215}"));
}

#[test]
fn well_formed_values() {
    assert!(Value::Boolean(true).is_well_formed());
    assert!(Value::Integer(Integer::I128(i128::MIN)).is_well_formed());
    assert!(Value::Field("12".to_string()).is_well_formed());
    assert!(!Value::Field("1/2".to_string()).is_well_formed());
    assert!(!Value::Group("(1/2, 0)group".to_string()).is_well_formed());
    assert!(!Value::Address("/".to_string()).is_well_formed());
    assert!(Value::Array(vec![]).is_well_formed());
    assert!(Value::Array(vec![Value::Field("1".to_string()), Value::Field("2".to_string())]).is_well_formed());
    assert!(!Value::Array(vec![Value::Field("1".to_string()), Value::Field("/".to_string())]).is_well_formed());
    assert!(!Value::Tuple(vec![Value::Array(vec![Value::Address("a/b".to_string())])]).is_well_formed());
    assert!(Value::Record(vec![
        Member { name: "a".to_string(), value: Value::Boolean(true) },
        Member { name: "b".to_string(), value: Value::Boolean(true) },
    ])
    .is_well_formed());
    assert!(!Value::Record(vec![
        Member { name: "a".to_string(), value: Value::Boolean(true) },
        Member { name: "b".to_string(), value: Value::Boolean(true) },
        Member { name: "a".to_string(), value: Value::Boolean(false) },
    ])
    .is_well_formed());
    assert!(!Value::Record(vec![Member { name: "a/b".to_string(), value: Value::Boolean(true) }]).is_well_formed());
    assert!(!Value::Record(vec![Member { name: "a".to_string(), value: Value::Field("/".to_string()) }]).is_well_formed());
}

#[test]
fn namespace_has_the_documented_form() {
    let span = Span::new(12, 13, 4, 9);
    assert_eq!(allocate_namespace(">", "5", "3", &span), "evaluate 5 > 3 12:4");
    assert_eq!(allocate_namespace("&&", "true", "false", &Span::new(0, 0, 0, 0)), "evaluate true && false 0:0");
    assert_eq!(allocate_namespace("", "", "", &Span::new(1, 1, 1, 1)), "evaluate    1:1");
}

#[test]
fn namespaces_at_distinct_positions_differ() {
    let spans = [
        Span::new(1, 1, 1, 2),
        Span::new(1, 1, 2, 3),
        Span::new(2, 2, 1, 2),
        Span::new(11, 11, 1, 2),
        Span::new(1, 1, 11, 12),
        Span::new(1, 1, 12, 13),
        Span::new(11, 11, 2, 3),
        Span::new(1, 1, 112, 113),
        Span::new(111, 111, 2, 3),
    ];
    for (i, first) in spans.iter().enumerate() {
        for (j, second) in spans.iter().enumerate() {
            let a = allocate_namespace(">", "1", "1", first);
            let b = allocate_namespace(">", "1", "1", second);
            assert_eq!(a == b, i == j);
        }
    }
    let tricky = allocate_namespace(">", "1", "1 1:1", &Span::new(2, 2, 2, 2));
    let plain = allocate_namespace(">", "1", "1", &Span::new(1, 1, 1, 1));
    assert_ne!(tricky, plain);
}

#[test]
fn namespace_is_a_function_of_its_inputs() {
    let span = Span::new(3, 3, 9, 12);
    assert_eq!(allocate_namespace(">", "a", "b", &span), allocate_namespace(">", "a", "b", &span));
    let wider = Span::new(3, 8, 9, 40);
    assert_eq!(allocate_namespace(">", "a", "b", &span), allocate_namespace(">", "a", "b", &wider));
}

#[test]
fn a_new_circuit_holds_only_the_constant() {
    let cs = Circuit::new();
    assert_eq!(cs.len(), 1);
    assert!(cs.contains("ONE"));
    assert!(!cs.contains("one"));
    assert!(!cs.contains(""));
}

#[test]
fn an_opened_scope_is_recorded() {
    let mut cs = Circuit::new();
    cs.open("first");
    cs.open("second");
    assert_eq!(cs.len(), 3);
    assert!(cs.contains("first"));
    assert!(cs.contains("second"));
    assert!(!cs.contains("third"));
}

#[test]
fn gadgets_of_the_circuit() {
    let mut cs = Circuit::new();
    assert_eq!(cs.greater_than("a", &Integer::U8(2), &Integer::U8(1)), Ok(Some(true)));
    assert_eq!(cs.greater_than("b", &Integer::U8(1), &Integer::U8(2)), Ok(Some(false)));
    assert_eq!(
        cs.greater_than("c", &Integer::U8(1), &Integer::I8(2)),
        Err(leo_synth::compiler::circuit::GadgetFailure::OperandMismatch)
    );
    assert_eq!(cs.and("d", true, true), Ok(Some(true)));
    assert_eq!(cs.and("e", true, false), Ok(Some(false)));
    assert_eq!(cs.len(), 6);
    for name in ["a", "b", "c", "d", "e"] {
        assert!(cs.contains(name));
    }
}

#[test]
fn a_circuit_stays_satisfied() {
    let mut cs = Circuit::new();
    assert!(cs.is_satisfied());
    cs.open("empty");
    assert!(cs.is_satisfied());
    assert_eq!(cs.greater_than("first", &Integer::I32(-4), &Integer::I32(-5)), Ok(Some(true)));
    assert!(cs.is_satisfied());
    assert_eq!(cs.greater_than("second", &Integer::U64(4), &Integer::I64(5)).is_err(), true);
    assert!(cs.is_satisfied());
    assert_eq!(cs.and("third", false, true), Ok(Some(false)));
    assert!(cs.is_satisfied());
}
