use nullscan::ports::{parse_port, parse_port_spec, parse_port_specification, PortSpecError};

fn chars(s: &str) -> Vec<char> {
    s.chars().collect()
}

#[test]
fn ports_come_in_declaration_order_with_inclusive_ranges() {
    assert_eq!(
        parse_port_specification("80,443,1000-1003"),
        Ok(vec![80, 443, 1000, 1001, 1002, 1003])
    );
    assert_eq!(parse_port_specification("443,80"), Ok(vec![443, 80]));
    assert_eq!(parse_port_specification("1-3"), Ok(vec![1, 2, 3]));
    assert_eq!(parse_port_specification("5-5"), Ok(vec![5]));
    assert_eq!(parse_port_specification("80,80"), Ok(vec![80, 80]));
}

#[test]
fn items_are_trimmed_but_bounds_are_not() {
    assert_eq!(parse_port_specification(" 80 , 443 "), Ok(vec![80, 443]));
    assert_eq!(parse_port_specification(" 1-2 "), Ok(vec![1, 2]));
    assert_eq!(parse_port_specification("1 - 2"), Err(PortSpecError::MalformedNumber));
    assert_eq!(parse_port_specification("\u{a0}80\u{2003}"), Ok(vec![80]));
}

#[test]
fn descending_range_is_empty() {
    assert_eq!(parse_port_specification("10-1"), Ok(vec![]));
    assert_eq!(parse_port_specification("10-1,7"), Ok(vec![7]));
}

#[test]
fn whole_port_space() {
    let all = parse_port_specification("0-65535").unwrap();
    assert_eq!(all.len(), 65536);
    assert_eq!(all[0], 0);
    assert_eq!(all[65535], 65535);
    let top = parse_port_specification("65534-65535").unwrap();
    assert_eq!(top, vec![65534, 65535]);
}

#[test]
fn plus_sign_and_leading_zeros_are_read() {
    assert_eq!(parse_port_specification("+80,0443"), Ok(vec![80, 443]));
    assert_eq!(parse_port(&chars("+0")), Ok(0));
    assert_eq!(parse_port(&chars("000065535")), Ok(65535));
}

#[test]
fn malformed_numbers_are_rejected() {
    assert_eq!(parse_port_specification(""), Err(PortSpecError::MalformedNumber));
    assert_eq!(parse_port_specification("80,"), Err(PortSpecError::MalformedNumber));
    assert_eq!(parse_port_specification("80,,443"), Err(PortSpecError::MalformedNumber));
    assert_eq!(parse_port_specification("http"), Err(PortSpecError::MalformedNumber));
    assert_eq!(parse_port_specification("8o"), Err(PortSpecError::MalformedNumber));
    assert_eq!(parse_port_specification("+"), Err(PortSpecError::MalformedNumber));
    assert_eq!(parse_port_specification("1-"), Err(PortSpecError::MalformedNumber));
    assert_eq!(parse_port_specification("-5"), Err(PortSpecError::MalformedNumber));
    assert_eq!(parse_port_specification("1_000"), Err(PortSpecError::MalformedNumber));
    assert_eq!(parse_port_specification("٣"), Err(PortSpecError::MalformedNumber));
    assert_eq!(parse_port(&chars("99999x")), Err(PortSpecError::MalformedNumber));
}

#[test]
fn numbers_above_65535_are_rejected() {
    assert_eq!(parse_port_specification("65536"), Err(PortSpecError::OutOfRange));
    assert_eq!(parse_port_specification("1-70000"), Err(PortSpecError::OutOfRange));
    assert_eq!(
        parse_port_specification("99999999999999999999999999999999"),
        Err(PortSpecError::OutOfRange)
    );
}

#[test]
fn the_first_rejected_item_decides() {
    assert_eq!(parse_port_specification("70000,x"), Err(PortSpecError::OutOfRange));
    assert_eq!(parse_port_specification("x,70000"), Err(PortSpecError::MalformedNumber));
    assert_eq!(parse_port_specification("1-2-3,x"), Err(PortSpecError::TooManyParts));
    assert_eq!(parse_port_specification("x-70000"), Err(PortSpecError::MalformedNumber));
    assert_eq!(parse_port_specification("70000-x"), Err(PortSpecError::OutOfRange));
}

#[test]
fn more_than_one_dash() {
    assert_eq!(parse_port_specification("1-2-3"), Err(PortSpecError::TooManyParts));
    assert_eq!(parse_port_specification("1--3"), Err(PortSpecError::TooManyParts));
    assert_eq!(parse_port_specification("80,1-2-3"), Err(PortSpecError::TooManyParts));
}

#[test]
fn dashboard_specifications_are_read_alike() {
    assert_eq!(parse_port_spec("80,443,1000-1002"), Ok(vec![80, 443, 1000, 1001, 1002]));
    assert_eq!(parse_port_spec("1-2-3"), Err(PortSpecError::TooManyParts));
    assert_eq!(parse_port_spec("80,1-2-3"), Err(PortSpecError::TooManyParts));
    assert_eq!(parse_port_spec("80,1-2-3,443"), Err(PortSpecError::TooManyParts));
    assert_eq!(parse_port_spec("x"), Err(PortSpecError::MalformedNumber));
    assert_eq!(parse_port_spec("65536"), Err(PortSpecError::OutOfRange));
}
