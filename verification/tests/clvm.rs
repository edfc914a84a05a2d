use gcdevproxy::clvm::{simplify_int_bytes, FromClvm, FromClvmError, Node};

fn hex_value(c: u8) -> u8 {
    match c {
        b'0'..=b'9' => c - b'0',
        b'a'..=b'f' => c - b'a' + 10,
        b'A'..=b'F' => c - b'A' + 10,
        _ => panic!("invalid hex digit"),
    }
}

fn hex_to_bytes(hex: &str) -> Vec<u8> {
    let digits = hex.as_bytes();
    assert!(digits.len() % 2 == 0);
    let mut bytes = Vec::new();
    let mut i = 0;
    while i < digits.len() {
        bytes.push(hex_value(digits[i]) * 16 + hex_value(digits[i + 1]));
        i += 2;
    }
    bytes
}

fn str_to_node(input: &str) -> (&str, Node) {
    let input = input.trim_start();
    let (token, rest) = match input.find(' ') {
        Some(at) => (&input[..at], &input[at + 1..]),
        None => (input, ""),
    };
    if token == "(" {
        let (rest, first) = str_to_node(rest);
        let (rest, second) = str_to_node(rest);
        (rest, Node::Pair(Box::new(first), Box::new(second)))
    } else if token == "NIL" {
        (rest, Node::Atom(Vec::new()))
    } else {
        (rest, Node::Atom(hex_to_bytes(token)))
    }
}

fn decode<T>(hex: &str) -> Result<T, FromClvmError>
where
    T: FromClvm,
{
    let (rest, actual) = str_to_node(hex);
    assert_eq!(rest, "");
    T::from_clvm(&actual)
}

#[test]
fn from_clvm_test_primitives() {
    assert_eq!(decode("NIL"), Ok(0u8));
    assert_eq!(decode("NIL"), Ok(0i8));
    assert_eq!(decode("05"), Ok(5u8));
    assert_eq!(decode("05"), Ok(5u32));
    assert_eq!(decode("05"), Ok(5i32));
    assert_eq!(decode("e5"), Ok(-27i32));
    assert_eq!(decode("NIL"), Ok(-0));
    assert_eq!(decode("80"), Ok(-128i8));
}

#[test]
fn from_clvm_test_pair() {
    assert_eq!(decode("( 05 02"), Ok((5, 2)));
    assert_eq!(decode("( b8 ( 016009 NIL"), Ok((-72, (90121, ()))));
    assert_eq!(
        decode("( ( NIL ( NIL ( NIL ( ( NIL ( NIL ( NIL NIL NIL NIL"),
        Ok((((), ((), ((), (((), ((), ((), ()))), ())))), ()))
    );
}

#[test]
fn from_clvm_test_nil() {
    assert_eq!(decode("NIL"), Ok(()));
}

#[test]
fn from_clvm_test_array() {
    assert_eq!(decode("( 01 ( 02 ( 03 ( 04 NIL"), Ok([1, 2, 3, 4]));
    assert_eq!(decode("NIL"), Ok([] as [i32; 0]));
}

#[test]
fn from_clvm_test_vec() {
    assert_eq!(decode("( 01 ( 02 ( 03 ( 04 NIL"), Ok(vec![1, 2, 3, 4]));
    assert_eq!(decode("NIL"), Ok(Vec::<i32>::new()));
}

#[test]
fn from_clvm_test_option() {
    assert_eq!(decode("68656c6c6f"), Ok(Some("hello".to_string())));
    assert_eq!(decode("NIL"), Ok(None::<String>));

    // An empty text is decoded as nothing: both are written as nil.
    assert_ne!(decode("NIL"), Ok(Some("".to_string())));
}

#[test]
fn from_clvm_test_string() {
    assert_eq!(decode("68656c6c6f"), Ok("hello".to_string()));
    assert_eq!(decode("NIL"), Ok("".to_string()));
}

#[test]
fn integers_wrap_as_their_type_does() {
    assert_eq!(decode("e5"), Ok(229u8));
    assert_eq!(decode("ff"), Ok(-1i64));
    assert_eq!(decode("00ff"), Ok(255u8));
    assert_eq!(decode("0080"), Ok(-128i8));
    assert_eq!(decode("8000"), Ok(32768u16));
}

#[test]
fn an_integer_that_does_not_fit_is_refused() {
    assert_eq!(
        decode::<u8>("0100"),
        Err(FromClvmError::WrongAtomLength { expected: 1, found: 2 })
    );
    assert_eq!(
        decode::<i8>("fe00"),
        Err(FromClvmError::WrongAtomLength { expected: 1, found: 2 })
    );
    // The magnitude of -129 fits into one byte, so the value wraps.
    assert_eq!(decode::<i8>("ff7f"), Ok(127i8));
}

#[test]
fn shapes_that_do_not_match_are_refused() {
    assert_eq!(decode::<u8>("( 01 02"), Err(FromClvmError::ExpectedAtom));
    assert_eq!(decode::<(u8, u8)>("01"), Err(FromClvmError::ExpectedPair));
    assert_eq!(
        decode::<()>("01"),
        Err(FromClvmError::WrongAtomLength { expected: 0, found: 1 })
    );
    assert_eq!(
        decode::<Vec<u8>>("( 01 02"),
        Err(FromClvmError::WrongAtomLength { expected: 0, found: 1 })
    );
    assert_eq!(decode::<[u8; 1]>("( 01 ( 02 NIL"), Err(FromClvmError::ExpectedAtom));
    assert_eq!(decode::<[u8; 3]>("( 01 ( 02 NIL"), Err(FromClvmError::ExpectedPair));
    assert_eq!(decode::<String>("ff"), Err(FromClvmError::InvalidUtf8));
}

#[test]
fn wide_integers_are_decoded() {
    assert_eq!(decode("00ffffffffffffffffffffffffffffffff"), Ok(u128::MAX));
    assert_eq!(decode("ff"), Ok(u128::MAX));
    assert_eq!(decode("ff"), Ok(-1i128));
    assert_eq!(decode("80"), Ok(-128i128));
    assert_eq!(decode("7fffffffffffffffffffffffffffffff"), Ok(i128::MAX));
    assert_eq!(decode("80000000000000000000000000000000"), Ok(i128::MIN));
    assert_eq!(
        decode::<u128>("0100000000000000000000000000000000"),
        Err(FromClvmError::WrongAtomLength { expected: 16, found: 17 })
    );
    assert_eq!(decode("05"), Ok(5usize));
    assert_eq!(decode("e5"), Ok(-27isize));
    assert_eq!(decode("NIL"), Ok(0usize));
    assert_eq!(
        decode::<usize>("010000000000000000"),
        Err(FromClvmError::WrongAtomLength {
            expected: std::mem::size_of::<usize>(),
            found: 9
        })
    );
}

#[test]
fn needless_zero_bytes_are_dropped() {
    assert_eq!(simplify_int_bytes(&[0, 0, 5]), &[5]);
    assert_eq!(simplify_int_bytes(&[0, 0x80]), &[0, 0x80]);
    assert_eq!(simplify_int_bytes(&[0, 0, 0x80]), &[0, 0x80]);
    assert_eq!(simplify_int_bytes(&[0, 0x7f]), &[0x7f]);
    assert_eq!(simplify_int_bytes(&[0]), &[] as &[u8]);
    assert_eq!(simplify_int_bytes(&[]), &[] as &[u8]);
    assert_eq!(simplify_int_bytes(&[1, 0]), &[1, 0]);
    assert_eq!(simplify_int_bytes(&[0xff, 0]), &[0xff, 0]);
}
