use atat::attributes::{
    command_len, default_variant, separators_len, sorted_positions, variant_value, ArgAttributes,
    TooManyDefaults,
};
use atat::tx_mock::{IoError, TxMock};

fn at(position: Option<usize>) -> Option<ArgAttributes> {
    Some(ArgAttributes { value: None, position, len: None, default: false })
}

#[test]
fn arguments_sorted_by_position() {
    // Declared order 0, 1, 2; positions 2, none (1), 0.
    let attrs = vec![at(Some(2)), None, at(Some(0))];
    assert_eq!(sorted_positions(&attrs), vec![2, 1, 0]);
}

#[test]
fn arguments_keep_declaration_order_on_ties() {
    let attrs = vec![at(Some(1)), at(Some(0)), at(Some(1)), at(None)];
    assert_eq!(sorted_positions(&attrs), vec![1, 0, 2, 3]);
    assert_eq!(sorted_positions(&[]), Vec::<usize>::new());
}

#[test]
fn tx_mock_collects_text() {
    let mut tx = TxMock::new();
    assert_eq!(tx.write(b"AT\r\n"), Ok(4));
    assert_eq!(tx.write(&[0xe9]), Ok(1));
    assert_eq!(tx.flush(), "AT\r\n\u{e9}".as_bytes().to_vec());
    assert_eq!(tx.flush(), Vec::<u8>::new());
}

#[test]
fn tx_mock_overflows() {
    let mut tx = TxMock::new();
    assert_eq!(tx.write(&[b'a'; 63]), Ok(63));
    assert_eq!(tx.write(&[0xe9]), Err(IoError));
    assert_eq!(tx.write(b"b"), Ok(1));
    assert_eq!(tx.write(b"c"), Err(IoError));
    assert_eq!(tx.flush().len(), 64);
}

fn ty(len: usize, escaped: usize) -> atat::attributes::FieldLen {
    atat::attributes::FieldLen { len: None, is_ref_str: false, ty_len: len, ty_escaped_len: escaped }
}

fn with_len(len: usize, is_ref_str: bool) -> atat::attributes::FieldLen {
    atat::attributes::FieldLen { len: Some(len), is_ref_str, ty_len: 0, ty_escaped_len: 0 }
}

#[test]
fn struct_lengths() {
    let fields = vec![ty(3, 3), with_len(10, true), with_len(4, false)];
    // 2 separators + 3 + (1 + 10 + 1) + 4
    assert_eq!(atat::attributes::struct_len(&fields, 2, false), 21);
    // 2 separators + 3 + (3 * 10 + 2) + 4
    assert_eq!(atat::attributes::struct_len(&fields, 2, true), 41);
    assert_eq!(atat::attributes::struct_len(&[], 0, false), 0);
}

#[test]
fn enum_lengths() {
    let variants = vec![
        None,
        Some(vec![ty(3, 3)]),
        Some(vec![ty(3, 5), with_len(10, true)]),
    ];
    // discriminant 3 + longest variant (3 + 1) + (10 + 1)
    assert_eq!(atat::attributes::enum_len(&variants, 3, false), 18);
    // escaped: (5 + 1) + (32 + 1)
    assert_eq!(atat::attributes::enum_len(&variants, 3, true), 42);
    assert_eq!(atat::attributes::enum_len(&[None], 1, false), 1);
}

fn arg(value: Option<i64>, default: bool) -> Option<ArgAttributes> {
    Some(ArgAttributes { value, position: None, len: None, default })
}

#[test]
fn enum_variant_values() {
    assert_eq!(variant_value(&arg(Some(4), false), 2), 4);
    assert_eq!(variant_value(&arg(None, false), 2), 2);
    assert_eq!(variant_value(&None, 7), 7);
}

#[test]
fn enum_default_variant() {
    assert_eq!(default_variant(&[None, arg(None, false)]), Ok(None));
    assert_eq!(default_variant(&[None, arg(Some(1), true), arg(None, false)]), Ok(Some(1)));
    assert_eq!(
        default_variant(&[arg(None, true), None, arg(None, true)]),
        Err(TooManyDefaults)
    );
}

#[test]
fn command_lengths() {
    // "AT" + "+CFUN" + "=" + "\r\n"
    assert_eq!(command_len(2, 5, 2, true), 10);
    assert_eq!(command_len(2, 5, 2, false), 9);
    assert_eq!(separators_len(0), 0);
    assert_eq!(separators_len(3), 2);
}
