use crate::headers::copy_bytes;
use crate::text::string_from_utf8;
use vstd::prelude::*;
use vstd::utf8::{decode_utf8, valid_utf8};

verus! {

/// A node of a CLVM value: an atom of bytes, or a pair of nodes.
pub enum Node {
    Atom(Vec<u8>),
    Pair(Box<Node>, Box<Node>),
}

/// Why a node could not be decoded.
#[derive(Debug, Clone, PartialEq, Eq)]
pub enum FromClvmError {
    /// A pair stands where an atom is needed.
    ExpectedAtom,
    /// An atom stands where a pair is needed.
    ExpectedPair,
    /// An atom has the wrong number of bytes.
    WrongAtomLength { expected: usize, found: usize },
    /// The bytes of an atom are no UTF-8 text.
    InvalidUtf8,
    /// Anything else.
    Custom(String),
}

/// The number that `bytes` spell in big-endian base 256.
pub open spec fn unsigned_value(bytes: Seq<u8>) -> nat
    decreases bytes.len(),
{
    if bytes.len() == 0 {
        0
    } else {
        unsigned_value(bytes.drop_last()) * 256 + bytes.last() as nat
    }
}

/// 256 to the power of `n`.
pub open spec fn pow256(n: nat) -> nat
    decreases n,
{
    if n == 0 {
        1
    } else {
        256 * pow256((n - 1) as nat)
    }
}

/// The number that `bytes` spell in big-endian two's complement. No bytes
/// spell zero.
pub open spec fn signed_value(bytes: Seq<u8>) -> int {
    if bytes.len() > 0 && bytes[0] >= 128 {
        unsigned_value(bytes) - pow256(bytes.len())
    } else {
        unsigned_value(bytes) as int
    }
}

/// The absolute value of `n`.
pub open spec fn magnitude(n: int) -> nat {
    if n < 0 {
        (-n) as nat
    } else {
        n as nat
    }
}

/// The value of an integer type with `modulus` values that comes out when
/// the magnitude `m` is read as a value of the type and negated, with
/// wrapping, where `negative` says so.
pub open spec fn wrapped(negative: bool, m: int, modulus: int, signed: bool) -> int {
    if signed {
        let read = if 2 * m >= modulus {
            m - modulus
        } else {
            m
        };
        if negative && 2 * read != -modulus {
            -read
        } else {
            read
        }
    } else {
        if negative && m != 0 {
            modulus - m
        } else {
            m
        }
    }
}

/// What decoding the atom `bytes` as an integer of `len` bytes gives: the
/// number that the bytes spell in two's complement, wrapped into the type;
/// an error where its magnitude does not fit into `len` bytes.
pub open spec fn integer_of(bytes: Seq<u8>, len: nat, signed: bool) -> Result<int, FromClvmError> {
    let value = signed_value(bytes);
    if magnitude(value) >= pow256(len) {
        Err(FromClvmError::WrongAtomLength { expected: len as usize, found: bytes.len() as usize })
    } else {
        Ok(wrapped(value < 0, magnitude(value) as int, pow256(len) as int, signed))
    }
}

/// What decoding `node` as an integer of `len` bytes gives.
pub open spec fn integer_decoded(node: Node, len: nat, signed: bool) -> Result<int, FromClvmError> {
    match node {
        Node::Atom(bytes) => integer_of(bytes@, len, signed),
        Node::Pair(_, _) => Err(FromClvmError::ExpectedAtom),
    }
}

/// Splits a number in two's complement into its sign and its magnitude.
///
/// Trusted: calls `num_bigint::BigInt::from_signed_bytes_be` and, on its
/// result, `BigInt::to_bytes_be`. The first reads big-endian bytes in two's
/// complement; the second gives the sign and the big-endian bytes of the
/// magnitude, as few as spell it, a single zero byte for zero.
#[verifier::external_body]
fn sign_and_magnitude(bytes: &[u8]) -> (parts: (bool, Vec<u8>))
    ensures
        parts.0 == (signed_value(bytes@) < 0),
        unsigned_value(parts.1@) == magnitude(signed_value(bytes@)),
        parts.1@.len() >= 1,
        parts.1@.len() > 1 ==> parts.1@[0] != 0,
{
    let (sign, digits) = num_bigint::BigInt::from_signed_bytes_be(bytes).to_bytes_be();
    (sign == num_bigint::Sign::Minus, digits)
}

/// A longer text of digits can spell a larger number.
pub proof fn lemma_pow256_grows(a: nat, b: nat)
    requires
        a <= b,
    ensures
        pow256(a) <= pow256(b),
        pow256(a) >= 1,
    decreases b,
{
    if b == 0 {
    } else if a == b {
        lemma_pow256_grows(0, (b - 1) as nat);
    } else {
        lemma_pow256_grows(a, (b - 1) as nat);
    }
}

/// The number that bytes spell is below 256 to the power of their count; it
/// is not below the power before that where there are several bytes and the
/// first is not zero.
pub proof fn lemma_unsigned_bounds(bytes: Seq<u8>)
    ensures
        unsigned_value(bytes) < pow256(bytes.len()),
        bytes.len() > 1 && bytes[0] != 0 ==> unsigned_value(bytes) >= pow256(
            (bytes.len() - 1) as nat,
        ),
    decreases bytes.len(),
{
    if bytes.len() > 0 {
        let front = bytes.drop_last();
        lemma_unsigned_bounds(front);
        reveal_with_fuel(pow256, 2);
        if bytes.len() > 1 && bytes[0] != 0 {
            assert(front[0] == bytes[0]);
            if front.len() == 1 {
                assert(front.drop_last() =~= Seq::<u8>::empty());
                assert(unsigned_value(front.drop_last()) == 0);
                assert(front.last() == front[0]);
                assert(unsigned_value(front) >= 1);
            }
        }
    }
}

/// The powers of 256 that are the sizes of the integer types.
pub proof fn lemma_sizes()
    ensures
        pow256(1) == 0x100,
        pow256(2) == 0x1_0000,
        pow256(4) == 0x1_0000_0000,
        pow256(8) == 0x1_0000_0000_0000_0000,
        pow256(16) == 0x1_0000_0000_0000_0000_0000_0000_0000_0000,
{
    reveal_with_fuel(pow256, 17);
}

/// The sign and the magnitude of the number that the atom `node` spells,
/// where the magnitude fits into `len` bytes.
fn decode_magnitude(node: &Node, len: usize) -> (parts: Result<(bool, u128), FromClvmError>)
    requires
        1 <= len <= 16,
    ensures
        match parts {
            Ok((negative, m)) => node matches Node::Atom(bytes) && negative == (signed_value(bytes@)
                < 0) && m == magnitude(signed_value(bytes@)) && m < pow256(len as nat),
            Err(e) => match node {
                Node::Atom(bytes) => magnitude(signed_value(bytes@)) >= pow256(len as nat) && e
                    == (FromClvmError::WrongAtomLength { expected: len, found: bytes@.len() as usize }),
                Node::Pair(_, _) => e == FromClvmError::ExpectedAtom,
            },
        },
{
    let bytes = match node {
        Node::Atom(bytes) => bytes,
        Node::Pair(_, _) => { return Err(FromClvmError::ExpectedAtom); },
    };
    let (negative, digits) = sign_and_magnitude(bytes.as_slice());
    proof {
        lemma_unsigned_bounds(digits@);
        lemma_sizes();
    }
    if digits.len() > len {
        proof {
            lemma_pow256_grows(len as nat, (digits@.len() - 1) as nat);
        }
        return Err(FromClvmError::WrongAtomLength { expected: len, found: bytes.len() });
    }
    let mut m: u128 = 0;
    let mut i: usize = 0;
    assert(digits@.subrange(0, 0) =~= Seq::<u8>::empty());
    while i < digits.len()
        invariant
            i <= digits@.len() <= len <= 16,
            m == unsigned_value(digits@.subrange(0, i as int)),
            m < pow256(i as nat),
        decreases digits@.len() - i,
    {
        proof {
            lemma_pow256_grows(i as nat, 15);
            lemma_pow256_grows((i + 1) as nat, 16);
            lemma_sizes();
            assert(pow256(15) * 256 == pow256(16)) by {
                reveal_with_fuel(pow256, 2);
            }
            assert(digits@.subrange(0, i as int + 1).drop_last() =~= digits@.subrange(
                0,
                i as int,
            ));
            assert(pow256((i + 1) as nat) == 256 * pow256(i as nat)) by {
                reveal_with_fuel(pow256, 2);
            }
        }
        m = m * 256 + digits[i] as u128;
        i += 1;
    }
    proof {
        assert(digits@.subrange(0, i as int) =~= digits@);
        lemma_pow256_grows(digits@.len(), len as nat);
    }
    Ok((negative, m))
}

/// The value of an integer type of at most eight bytes that a sign and a
/// magnitude stand for.
fn wrap(negative: bool, m: u128, modulus: u128, signed: bool) -> (value: i128)
    requires
        m < modulus <= 0x1_0000_0000_0000_0000,
        modulus % 2 == 0,
    ensures
        value == wrapped(negative, m as int, modulus as int, signed),
        signed ==> -(modulus as int) <= 2 * value < modulus,
        !signed ==> 0 <= value < modulus,
{
    if signed {
        let read: i128 = if 2 * m >= modulus {
            m as i128 - modulus as i128
        } else {
            m as i128
        };
        if negative && 2 * read != -(modulus as i128) {
            -read
        } else {
            read
        }
    } else {
        if negative && m != 0 {
            (modulus - m) as i128
        } else {
            m as i128
        }
    }
}

/// `bytes` without the zero bytes at its front that its value in two's
/// complement does not need: a zero byte is needed only before a byte that
/// would make the number negative.
pub open spec fn simplified(bytes: Seq<u8>) -> Seq<u8>
    decreases bytes.len(),
{
    if bytes.len() > 0 && bytes[0] == 0 && !(bytes.len() > 1 && bytes[1] >= 128) {
        simplified(bytes.drop_first())
    } else {
        bytes
    }
}

/// The bytes of a number in two's complement without the zero bytes at the
/// front that its value does not need.
pub fn simplify_int_bytes(slice: &[u8]) -> (out: &[u8])
    ensures
        out@ == simplified(slice@),
{
    let n = slice.len();
    let mut start: usize = 0;
    assert(slice@.subrange(0, n as int) =~= slice@);
    while start < n && slice[start] == 0 && !(n - start > 1 && slice[start + 1] >= 128)
        invariant
            n == slice@.len(),
            start <= n,
            simplified(slice@.subrange(start as int, n as int)) == simplified(slice@),
        decreases n - start,
    {
        assert(slice@.subrange(start as int, n as int).drop_first() =~= slice@.subrange(
            start as int + 1,
            n as int,
        ));
        start += 1;
    }
    vstd::slice::slice_subrange(slice, start, n)
}

/// A zero byte at the front adds nothing to the number that bytes spell.
pub proof fn lemma_leading_zero(bytes: Seq<u8>)
    requires
        bytes.len() > 0,
        bytes[0] == 0,
    ensures
        unsigned_value(bytes) == unsigned_value(bytes.drop_first()),
    decreases bytes.len(),
{
    if bytes.len() == 1 {
        assert(bytes.drop_last() =~= Seq::<u8>::empty());
        assert(bytes.drop_first() =~= Seq::<u8>::empty());
    } else {
        lemma_leading_zero(bytes.drop_last());
        assert(bytes.drop_first().drop_last() =~= bytes.drop_last().drop_first());
    }
}

/// Simplifying the bytes of a number leaves the number what it was.
pub proof fn law_simplified_spells_the_same_number(bytes: Seq<u8>)
    ensures
        signed_value(simplified(bytes)) == signed_value(bytes),
    decreases bytes.len(),
{
    if bytes.len() > 0 && bytes[0] == 0 && !(bytes.len() > 1 && bytes[1] >= 128) {
        let rest = bytes.drop_first();
        law_simplified_spells_the_same_number(rest);
        lemma_leading_zero(bytes);
        if rest.len() > 0 {
            assert(rest[0] == bytes[1]);
        }
    }
}

/// What can be decoded from a CLVM node.
pub trait FromClvm: Sized {
    /// What a decoded value amounts to.
    type Model;

    /// What this value amounts to.
    spec fn model(&self) -> Self::Model;

    /// What decoding `node` gives.
    spec fn decoded(node: Node) -> Result<Self::Model, FromClvmError>;

    /// Decodes `node`.
    fn from_clvm(node: &Node) -> (outcome: Result<Self, FromClvmError>)
        ensures
            match outcome {
                Ok(value) => Self::decoded(*node) == Ok::<Self::Model, FromClvmError>(value.model()),
                Err(e) => Self::decoded(*node) == Err::<Self::Model, FromClvmError>(e),
            },
    ;
}

impl FromClvm for u8 {
    type Model = int;

    open spec fn model(&self) -> int {
        *self as int
    }

    open spec fn decoded(node: Node) -> Result<int, FromClvmError> {
        integer_decoded(node, 1, false)
    }

    fn from_clvm(node: &Node) -> (outcome: Result<Self, FromClvmError>) {
        proof {
            lemma_sizes();
        }
        match decode_magnitude(node, 1) {
            Ok((negative, m)) => Ok(wrap(negative, m, 0x100, false) as u8),
            Err(e) => Err(e),
        }
    }
}

impl FromClvm for i8 {
    type Model = int;

    open spec fn model(&self) -> int {
        *self as int
    }

    open spec fn decoded(node: Node) -> Result<int, FromClvmError> {
        integer_decoded(node, 1, true)
    }

    fn from_clvm(node: &Node) -> (outcome: Result<Self, FromClvmError>) {
        proof {
            lemma_sizes();
        }
        match decode_magnitude(node, 1) {
            Ok((negative, m)) => Ok(wrap(negative, m, 0x100, true) as i8),
            Err(e) => Err(e),
        }
    }
}

impl FromClvm for u16 {
    type Model = int;

    open spec fn model(&self) -> int {
        *self as int
    }

    open spec fn decoded(node: Node) -> Result<int, FromClvmError> {
        integer_decoded(node, 2, false)
    }

    fn from_clvm(node: &Node) -> (outcome: Result<Self, FromClvmError>) {
        proof {
            lemma_sizes();
        }
        match decode_magnitude(node, 2) {
            Ok((negative, m)) => Ok(wrap(negative, m, 0x1_0000, false) as u16),
            Err(e) => Err(e),
        }
    }
}

impl FromClvm for i16 {
    type Model = int;

    open spec fn model(&self) -> int {
        *self as int
    }

    open spec fn decoded(node: Node) -> Result<int, FromClvmError> {
        integer_decoded(node, 2, true)
    }

    fn from_clvm(node: &Node) -> (outcome: Result<Self, FromClvmError>) {
        proof {
            lemma_sizes();
        }
        match decode_magnitude(node, 2) {
            Ok((negative, m)) => Ok(wrap(negative, m, 0x1_0000, true) as i16),
            Err(e) => Err(e),
        }
    }
}

impl FromClvm for u32 {
    type Model = int;

    open spec fn model(&self) -> int {
        *self as int
    }

    open spec fn decoded(node: Node) -> Result<int, FromClvmError> {
        integer_decoded(node, 4, false)
    }

    fn from_clvm(node: &Node) -> (outcome: Result<Self, FromClvmError>) {
        proof {
            lemma_sizes();
        }
        match decode_magnitude(node, 4) {
            Ok((negative, m)) => Ok(wrap(negative, m, 0x1_0000_0000, false) as u32),
            Err(e) => Err(e),
        }
    }
}

impl FromClvm for i32 {
    type Model = int;

    open spec fn model(&self) -> int {
        *self as int
    }

    open spec fn decoded(node: Node) -> Result<int, FromClvmError> {
        integer_decoded(node, 4, true)
    }

    fn from_clvm(node: &Node) -> (outcome: Result<Self, FromClvmError>) {
        proof {
            lemma_sizes();
        }
        match decode_magnitude(node, 4) {
            Ok((negative, m)) => Ok(wrap(negative, m, 0x1_0000_0000, true) as i32),
            Err(e) => Err(e),
        }
    }
}

impl FromClvm for u64 {
    type Model = int;

    open spec fn model(&self) -> int {
        *self as int
    }

    open spec fn decoded(node: Node) -> Result<int, FromClvmError> {
        integer_decoded(node, 8, false)
    }

    fn from_clvm(node: &Node) -> (outcome: Result<Self, FromClvmError>) {
        proof {
            lemma_sizes();
        }
        match decode_magnitude(node, 8) {
            Ok((negative, m)) => Ok(wrap(negative, m, 0x1_0000_0000_0000_0000, false) as u64),
            Err(e) => Err(e),
        }
    }
}

impl FromClvm for i64 {
    type Model = int;

    open spec fn model(&self) -> int {
        *self as int
    }

    open spec fn decoded(node: Node) -> Result<int, FromClvmError> {
        integer_decoded(node, 8, true)
    }

    fn from_clvm(node: &Node) -> (outcome: Result<Self, FromClvmError>) {
        proof {
            lemma_sizes();
        }
        match decode_magnitude(node, 8) {
            Ok((negative, m)) => Ok(wrap(negative, m, 0x1_0000_0000_0000_0000, true) as i64),
            Err(e) => Err(e),
        }
    }
}

/// The value of `u128` that a sign and a magnitude stand for.
fn wrap_u128(negative: bool, m: u128) -> (value: u128)
    ensures
        value == wrapped(negative, m as int, u128::MAX as int + 1, false),
{
    if negative && m != 0 {
        (u128::MAX - m) + 1
    } else {
        m
    }
}

/// The value of `i128` that a sign and a magnitude stand for.
fn wrap_i128(negative: bool, m: u128) -> (value: i128)
    ensures
        value == wrapped(negative, m as int, u128::MAX as int + 1, true),
{
    let half: u128 = 0x8000_0000_0000_0000_0000_0000_0000_0000;
    let read: i128 = if m >= half {
        ((m - half) as i128) + i128::MIN
    } else {
        m as i128
    };
    if negative && read != i128::MIN {
        -read
    } else {
        read
    }
}

impl FromClvm for u128 {
    type Model = int;

    open spec fn model(&self) -> int {
        *self as int
    }

    open spec fn decoded(node: Node) -> Result<int, FromClvmError> {
        integer_decoded(node, 16, false)
    }

    fn from_clvm(node: &Node) -> (outcome: Result<Self, FromClvmError>) {
        proof {
            lemma_sizes();
        }
        match decode_magnitude(node, 16) {
            Ok((negative, m)) => Ok(wrap_u128(negative, m)),
            Err(e) => Err(e),
        }
    }
}

impl FromClvm for i128 {
    type Model = int;

    open spec fn model(&self) -> int {
        *self as int
    }

    open spec fn decoded(node: Node) -> Result<int, FromClvmError> {
        integer_decoded(node, 16, true)
    }

    fn from_clvm(node: &Node) -> (outcome: Result<Self, FromClvmError>) {
        proof {
            lemma_sizes();
        }
        match decode_magnitude(node, 16) {
            Ok((negative, m)) => Ok(wrap_i128(negative, m)),
            Err(e) => Err(e),
        }
    }
}

/// The number of bytes of a `usize`.
pub open spec fn word_len() -> nat {
    (usize::BITS / 8) as nat
}

impl FromClvm for usize {
    type Model = int;

    open spec fn model(&self) -> int {
        *self as int
    }

    open spec fn decoded(node: Node) -> Result<int, FromClvmError> {
        integer_decoded(node, word_len(), false)
    }

    fn from_clvm(node: &Node) -> (outcome: Result<Self, FromClvmError>) {
        proof {
            lemma_sizes();
        }
        if usize::BITS == 32 {
            match decode_magnitude(node, 4) {
                Ok((negative, m)) => Ok(wrap(negative, m, 0x1_0000_0000, false) as usize),
                Err(e) => Err(e),
            }
        } else {
            match decode_magnitude(node, 8) {
                Ok((negative, m)) => Ok(wrap(negative, m, 0x1_0000_0000_0000_0000, false) as usize),
                Err(e) => Err(e),
            }
        }
    }
}

impl FromClvm for isize {
    type Model = int;

    open spec fn model(&self) -> int {
        *self as int
    }

    open spec fn decoded(node: Node) -> Result<int, FromClvmError> {
        integer_decoded(node, word_len(), true)
    }

    fn from_clvm(node: &Node) -> (outcome: Result<Self, FromClvmError>) {
        proof {
            lemma_sizes();
        }
        if usize::BITS == 32 {
            match decode_magnitude(node, 4) {
                Ok((negative, m)) => Ok(wrap(negative, m, 0x1_0000_0000, true) as isize),
                Err(e) => Err(e),
            }
        } else {
            match decode_magnitude(node, 8) {
                Ok((negative, m)) => Ok(wrap(negative, m, 0x1_0000_0000_0000_0000, true) as isize),
                Err(e) => Err(e),
            }
        }
    }
}

impl<A: FromClvm, B: FromClvm> FromClvm for (A, B) {
    type Model = (A::Model, B::Model);

    open spec fn model(&self) -> (A::Model, B::Model) {
        (self.0.model(), self.1.model())
    }

    open spec fn decoded(node: Node) -> Result<(A::Model, B::Model), FromClvmError> {
        match node {
            Node::Pair(first, rest) => match A::decoded(*first) {
                Ok(a) => match B::decoded(*rest) {
                    Ok(b) => Ok((a, b)),
                    Err(e) => Err(e),
                },
                Err(e) => Err(e),
            },
            Node::Atom(_) => Err(FromClvmError::ExpectedPair),
        }
    }

    fn from_clvm(node: &Node) -> (outcome: Result<Self, FromClvmError>) {
        match node {
            Node::Pair(first, rest) => {
                let a = match A::from_clvm(first) {
                    Ok(a) => a,
                    Err(e) => { return Err(e); },
                };
                let b = match B::from_clvm(rest) {
                    Ok(b) => b,
                    Err(e) => { return Err(e); },
                };
                Ok((a, b))
            },
            Node::Atom(_) => Err(FromClvmError::ExpectedPair),
        }
    }
}

/// What decoding `node` as nil gives.
pub open spec fn nil_decoded(node: Node) -> Result<(), FromClvmError> {
    match node {
        Node::Atom(bytes) => if bytes@.len() == 0 {
            Ok(())
        } else {
            Err(FromClvmError::WrongAtomLength { expected: 0, found: bytes@.len() as usize })
        },
        Node::Pair(_, _) => Err(FromClvmError::ExpectedAtom),
    }
}

impl FromClvm for () {
    type Model = ();

    open spec fn model(&self) -> () {
        ()
    }

    open spec fn decoded(node: Node) -> Result<(), FromClvmError> {
        nil_decoded(node)
    }

    fn from_clvm(node: &Node) -> (outcome: Result<Self, FromClvmError>) {
        match node {
            Node::Atom(bytes) => {
                if bytes.len() == 0 {
                    Ok(())
                } else {
                    Err(FromClvmError::WrongAtomLength { expected: 0, found: bytes.len() })
                }
            },
            Node::Pair(_, _) => Err(FromClvmError::ExpectedAtom),
        }
    }
}

/// What the items of a vector amount to.
pub open spec fn models<T: FromClvm>(items: Seq<T>) -> Seq<T::Model> {
    Seq::new(items.len(), |i: int| items[i].model())
}

/// A list with `prefix` before what `rest` gives, where that is a list.
pub open spec fn prepend<M>(prefix: Seq<M>, rest: Result<Seq<M>, FromClvmError>) -> Result<
    Seq<M>,
    FromClvmError,
> {
    match rest {
        Ok(items) => Ok(prefix + items),
        Err(e) => Err(e),
    }
}

/// What decoding `node` as a list gives: the items of the chain of pairs
/// that ends in nil. The first item that fails, or an end that is not nil,
/// fails the list.
pub open spec fn list_decoded<T: FromClvm>(node: Node) -> Result<Seq<T::Model>, FromClvmError>
    decreases node,
{
    match node {
        Node::Pair(first, rest) => match T::decoded(*first) {
            Ok(item) => prepend(seq![item], list_decoded::<T>(*rest)),
            Err(e) => Err(e),
        },
        Node::Atom(bytes) => if bytes@.len() == 0 {
            Ok(Seq::empty())
        } else {
            Err(FromClvmError::WrongAtomLength { expected: 0, found: bytes@.len() as usize })
        },
    }
}

impl<T: FromClvm> FromClvm for Vec<T> {
    type Model = Seq<T::Model>;

    open spec fn model(&self) -> Seq<T::Model> {
        models(self@)
    }

    open spec fn decoded(node: Node) -> Result<Seq<T::Model>, FromClvmError> {
        list_decoded::<T>(node)
    }

    fn from_clvm(node: &Node) -> (outcome: Result<Self, FromClvmError>) {
        let mut items: Vec<T> = Vec::new();
        let mut at: &Node = node;
        assert(models(items@) =~= Seq::<T::Model>::empty());
        assert(prepend(models(items@), list_decoded::<T>(*at)) == list_decoded::<T>(*node)) by {
            match list_decoded::<T>(*at) {
                Ok(rest) => {
                    assert(Seq::<T::Model>::empty() + rest =~= rest);
                },
                Err(_) => {},
            }
        }
        loop
            invariant
                prepend(models(items@), list_decoded::<T>(*at)) == list_decoded::<T>(*node),
            decreases at,
        {
            match at {
                Node::Pair(first, rest) => {
                    let item = match T::from_clvm(first) {
                        Ok(item) => item,
                        Err(e) => { return Err(e); },
                    };
                    let ghost before = models(items@);
                    items.push(item);
                    proof {
                        assert(models(items@) =~= before + seq![item.model()]);
                        match list_decoded::<T>(**rest) {
                            Ok(tail) => {
                                assert(before + (seq![item.model()] + tail) =~= (before
                                    + seq![item.model()]) + tail);
                            },
                            Err(_) => {},
                        }
                    }
                    at = rest;
                },
                Node::Atom(bytes) => {
                    if bytes.len() == 0 {
                        assert(models(items@) + Seq::<T::Model>::empty() =~= models(items@));
                        return Ok(items);
                    } else {
                        return Err(
                            FromClvmError::WrongAtomLength { expected: 0, found: bytes.len() },
                        );
                    }
                },
            }
        }
    }
}

/// What decoding `node` as the rest of an array of `len` items gives, when
/// `taken` items have been decoded: the items of the chain of pairs that
/// ends in nil, where they are as many as are missing.
pub open spec fn array_decoded<T: FromClvm>(node: Node, taken: nat, len: nat) -> Result<
    Seq<T::Model>,
    FromClvmError,
>
    decreases node,
{
    match node {
        Node::Pair(first, rest) => if taken >= len {
            Err(FromClvmError::ExpectedAtom)
        } else {
            match T::decoded(*first) {
                Ok(item) => prepend(seq![item], array_decoded::<T>(*rest, taken + 1, len)),
                Err(e) => Err(e),
            }
        },
        Node::Atom(bytes) => if bytes@.len() == 0 {
            if taken == len {
                Ok(Seq::empty())
            } else {
                Err(FromClvmError::ExpectedPair)
            }
        } else {
            Err(FromClvmError::WrongAtomLength { expected: 0, found: bytes@.len() as usize })
        },
    }
}

/// Turns a vector into an array of its length.
///
/// Trusted: wraps the conversion `TryFrom<Vec<T>>` of arrays, which the
/// standard library documents as giving the items of the vector where their
/// number is the length of the array, and an error otherwise.
#[verifier::external_body]
fn into_array<T, const LEN: usize>(items: Vec<T>) -> (array: Option<[T; LEN]>)
    ensures
        array is Some == (items@.len() == LEN),
        array matches Some(a) ==> a@ == items@,
{
    items.try_into().ok()
}

impl<T: FromClvm, const LEN: usize> FromClvm for [T; LEN] {
    type Model = Seq<T::Model>;

    open spec fn model(&self) -> Seq<T::Model> {
        models(self@)
    }

    open spec fn decoded(node: Node) -> Result<Seq<T::Model>, FromClvmError> {
        array_decoded::<T>(node, 0, LEN as nat)
    }

    fn from_clvm(node: &Node) -> (outcome: Result<Self, FromClvmError>) {
        let mut items: Vec<T> = Vec::new();
        let mut at: &Node = node;
        assert(models(items@) =~= Seq::<T::Model>::empty());
        assert(prepend(models(items@), array_decoded::<T>(*at, 0, LEN as nat)) == array_decoded::<
            T,
        >(*node, 0, LEN as nat)) by {
            match array_decoded::<T>(*at, 0, LEN as nat) {
                Ok(rest) => {
                    assert(Seq::<T::Model>::empty() + rest =~= rest);
                },
                Err(_) => {},
            }
        }
        loop
            invariant
                prepend(
                    models(items@),
                    array_decoded::<T>(*at, items@.len() as nat, LEN as nat),
                ) == array_decoded::<T>(*node, 0, LEN as nat),
            decreases at,
        {
            match at {
                Node::Pair(first, rest) => {
                    if items.len() >= LEN {
                        return Err(FromClvmError::ExpectedAtom);
                    }
                    let item = match T::from_clvm(first) {
                        Ok(item) => item,
                        Err(e) => { return Err(e); },
                    };
                    let ghost before = models(items@);
                    items.push(item);
                    proof {
                        assert(models(items@) =~= before + seq![item.model()]);
                        match array_decoded::<T>(**rest, items@.len() as nat, LEN as nat) {
                            Ok(tail) => {
                                assert(before + (seq![item.model()] + tail) =~= (before
                                    + seq![item.model()]) + tail);
                            },
                            Err(_) => {},
                        }
                    }
                    at = rest;
                },
                Node::Atom(bytes) => {
                    if bytes.len() == 0 {
                        assert(models(items@) + Seq::<T::Model>::empty() =~= models(items@));
                        let ghost all = items@;
                        return match into_array::<T, LEN>(items) {
                            Some(array) => {
                                assert(models(array@) =~= models(all));
                                Ok(array)
                            },
                            None => Err(FromClvmError::ExpectedPair),
                        };
                    } else {
                        return Err(
                            FromClvmError::WrongAtomLength { expected: 0, found: bytes.len() },
                        );
                    }
                },
            }
        }
    }
}

/// Whether `node` is nil: an atom without bytes.
pub open spec fn is_nil(node: Node) -> bool {
    node matches Node::Atom(bytes) && bytes@.len() == 0
}

impl<T: FromClvm> FromClvm for Option<T> {
    type Model = Option<T::Model>;

    open spec fn model(&self) -> Option<T::Model> {
        match self {
            Some(value) => Some(value.model()),
            None => None,
        }
    }

    open spec fn decoded(node: Node) -> Result<Option<T::Model>, FromClvmError> {
        if is_nil(node) {
            Ok(None)
        } else {
            match T::decoded(node) {
                Ok(value) => Ok(Some(value)),
                Err(e) => Err(e),
            }
        }
    }

    fn from_clvm(node: &Node) -> (outcome: Result<Self, FromClvmError>) {
        let nil = match node {
            Node::Atom(bytes) => bytes.len() == 0,
            Node::Pair(_, _) => false,
        };
        if nil {
            Ok(None)
        } else {
            match T::from_clvm(node) {
                Ok(value) => Ok(Some(value)),
                Err(e) => Err(e),
            }
        }
    }
}

impl FromClvm for String {
    type Model = Seq<char>;

    open spec fn model(&self) -> Seq<char> {
        self@
    }

    open spec fn decoded(node: Node) -> Result<Seq<char>, FromClvmError> {
        match node {
            Node::Atom(bytes) => if valid_utf8(bytes@) {
                Ok(decode_utf8(bytes@))
            } else {
                Err(FromClvmError::InvalidUtf8)
            },
            Node::Pair(_, _) => Err(FromClvmError::ExpectedAtom),
        }
    }

    fn from_clvm(node: &Node) -> (outcome: Result<Self, FromClvmError>) {
        match node {
            Node::Atom(bytes) => match string_from_utf8(copy_bytes(bytes)) {
                Some(text) => Ok(text),
                None => Err(FromClvmError::InvalidUtf8),
            },
            Node::Pair(_, _) => Err(FromClvmError::ExpectedAtom),
        }
    }
}

} // verus!
