//! How values are laid out in a payload.
//!
//! Integers take their own width, lowest byte first. The fields of a value follow one another
//! without padding, and a choice between variants is written as the number of the variant in four
//! bytes, followed by the variant's fields.

use crate::error::DecodeFailure;
use crate::types::{LockAction, LockParams, LockType, LockWhence};
use vstd::bytes::{
    lemma_auto_spec_u32_to_from_le_bytes, lemma_auto_spec_u64_to_from_le_bytes,
    spec_u32_from_le_bytes, spec_u32_to_le_bytes, spec_u64_from_le_bytes, spec_u64_to_le_bytes,
};
use vstd::prelude::*;
use vstd::slice::slice_subrange;

verus! {

/// `bincode::serialize` on a `u32`: four bytes, the lowest first. With this type it does not fail.
#[verifier::external_body]
fn serialize_u32(value: u32) -> (bytes: Vec<u8>)
    ensures
        bytes@ == spec_u32_to_le_bytes(value),
{
    bincode::serialize(&value).unwrap()
}

/// `bincode::serialize` on a `u64`: eight bytes, the lowest first. With this type it does not fail.
#[verifier::external_body]
fn serialize_u64(value: u64) -> (bytes: Vec<u8>)
    ensures
        bytes@ == spec_u64_to_le_bytes(value),
{
    bincode::serialize(&value).unwrap()
}

/// `bincode::deserialize` to a `u32`: reads the first four bytes and ignores the rest. It fails where
/// there are fewer. Its failure is then an input/output error of the kind `UnexpectedEof`, for which
/// `DecodeFailure::EndOfInput` stands.
#[verifier::external_body]
fn deserialize_u32(bytes: &[u8]) -> (value: Result<u32, DecodeFailure>)
    ensures
        value == (if bytes@.len() >= 4 {
            Ok(spec_u32_from_le_bytes(bytes@.take(4)))
        } else {
            Err(DecodeFailure::EndOfInput)
        }),
{
    bincode::deserialize(bytes).map_err(|_end_of_input| DecodeFailure::EndOfInput)
}

/// `bincode::deserialize` to a `u64`: reads the first eight bytes and ignores the rest. It fails
/// where there are fewer. Its failure is then an input/output error of the kind `UnexpectedEof`, for
/// which `DecodeFailure::EndOfInput` stands.
#[verifier::external_body]
fn deserialize_u64(bytes: &[u8]) -> (value: Result<u64, DecodeFailure>)
    ensures
        value == (if bytes@.len() >= 8 {
            Ok(spec_u64_from_le_bytes(bytes@.take(8)))
        } else {
            Err(DecodeFailure::EndOfInput)
        }),
{
    bincode::deserialize(bytes).map_err(|_end_of_input| DecodeFailure::EndOfInput)
}

/// Whether `read` is the value at the start of `bytes`: the one whose layout begins them, if there
/// is one, else why there is none.
pub open spec fn begins<T: Wire>(bytes: Seq<u8>, read: Result<T, DecodeFailure>) -> bool {
    match read {
        Ok(value) => value.layout().is_prefix_of(bytes),
        Err(failure) => {
            &&& forall|value: T| !(#[trigger] value.layout()).is_prefix_of(bytes)
            &&& failure == T::failing(bytes)
        },
    }
}

/// A type whose values have a layout of their own.
pub trait Wire: Sized {
    /// The bytes of a value.
    spec fn layout(self) -> Seq<u8>;

    /// What is wrong with bytes that begin with the layout of no value.
    spec fn failing(bytes: Seq<u8>) -> DecodeFailure;

    /// Bytes begin with the layout of at most one value.
    proof fn layout_is_prefix_free(a: Self, b: Self, bytes: Seq<u8>)
        requires
            a.layout().is_prefix_of(bytes),
            b.layout().is_prefix_of(bytes),
        ensures
            a == b,
    ;

    /// Appends the bytes of the value.
    fn write(&self, out: &mut Vec<u8>)
        ensures
            final(out)@ == old(out)@ + self.layout(),
    ;

    /// Reads a value from the bytes that start at `at`, and says where they end.
    fn read(bytes: &[u8], at: usize) -> (found: Result<(Self, usize), DecodeFailure>)
        requires
            at <= bytes@.len(),
        ensures
            match found {
                Ok((value, end)) => {
                    &&& at <= end <= bytes@.len()
                    &&& bytes@.subrange(at as int, end as int) == value.layout()
                },
                Err(failure) => {
                    &&& forall|value: Self|
                        !(#[trigger] value.layout()).is_prefix_of(bytes@.skip(at as int))
                    &&& failure == Self::failing(bytes@.skip(at as int))
                },
            },
    ;
}

/// The bytes of a sequence up to `end` begin what starts at `at`.
proof fn subrange_begins(bytes: Seq<u8>, at: int, end: int)
    requires
        0 <= at <= end <= bytes.len(),
    ensures
        bytes.subrange(at, end).is_prefix_of(bytes.skip(at)),
{
    assert(bytes.subrange(at, end) =~= bytes.skip(at).subrange(0, end - at));
}

/// The layout of a pair of consecutive values: its parts are found one behind the other.
proof fn concat_begins(first: Seq<u8>, second: Seq<u8>, bytes: Seq<u8>)
    requires
        (first + second).is_prefix_of(bytes),
    ensures
        first.is_prefix_of(bytes),
        second.is_prefix_of(bytes.skip(first.len() as int)),
{
    let whole = first + second;
    assert(first =~= whole.subrange(0, first.len() as int));
    assert(first =~= bytes.subrange(0, first.len() as int));
    assert(second =~= whole.subrange(first.len() as int, whole.len() as int));
    assert(second =~= bytes.skip(first.len() as int).subrange(0, second.len() as int));
}

impl Wire for u32 {
    open spec fn layout(self) -> Seq<u8> {
        spec_u32_to_le_bytes(self)
    }

    open spec fn failing(bytes: Seq<u8>) -> DecodeFailure {
        DecodeFailure::EndOfInput
    }

    proof fn layout_is_prefix_free(a: Self, b: Self, bytes: Seq<u8>) {
        lemma_auto_spec_u32_to_from_le_bytes();
        assert(a.layout() == b.layout());
    }

    fn write(&self, out: &mut Vec<u8>) {
        let mut bytes = serialize_u32(*self);
        out.append(&mut bytes);
    }

    fn read(bytes: &[u8], at: usize) -> (found: Result<(Self, usize), DecodeFailure>) {
        proof {
            lemma_auto_spec_u32_to_from_le_bytes();
        }
        let rest = slice_subrange(bytes, at, bytes.len());
        assert(rest@ =~= bytes@.skip(at as int));
        match deserialize_u32(rest) {
            Ok(value) => {
                assert(rest@.take(4) =~= bytes@.subrange(at as int, at + 4));
                Ok((value, at + 4))
            },
            Err(failure) => {
                assert forall|value: u32| !(#[trigger] value.layout()).is_prefix_of(
                    bytes@.skip(at as int),
                ) by {
                    assert(spec_u32_to_le_bytes(value).len() == 4);
                }
                Err(failure)
            },
        }
    }
}

impl Wire for u64 {
    open spec fn layout(self) -> Seq<u8> {
        spec_u64_to_le_bytes(self)
    }

    open spec fn failing(bytes: Seq<u8>) -> DecodeFailure {
        DecodeFailure::EndOfInput
    }

    proof fn layout_is_prefix_free(a: Self, b: Self, bytes: Seq<u8>) {
        lemma_auto_spec_u64_to_from_le_bytes();
        assert(a.layout() == b.layout());
    }

    fn write(&self, out: &mut Vec<u8>) {
        let mut bytes = serialize_u64(*self);
        out.append(&mut bytes);
    }

    fn read(bytes: &[u8], at: usize) -> (found: Result<(Self, usize), DecodeFailure>) {
        proof {
            lemma_auto_spec_u64_to_from_le_bytes();
        }
        let rest = slice_subrange(bytes, at, bytes.len());
        assert(rest@ =~= bytes@.skip(at as int));
        match deserialize_u64(rest) {
            Ok(value) => {
                assert(rest@.take(8) =~= bytes@.subrange(at as int, at + 8));
                Ok((value, at + 8))
            },
            Err(failure) => {
                assert forall|value: u64| !(#[trigger] value.layout()).is_prefix_of(
                    bytes@.skip(at as int),
                ) by {
                    assert(spec_u64_to_le_bytes(value).len() == 8);
                }
                Err(failure)
            },
        }
    }
}

impl Wire for i32 {
    open spec fn layout(self) -> Seq<u8> {
        (self as u32).layout()
    }

    open spec fn failing(bytes: Seq<u8>) -> DecodeFailure {
        DecodeFailure::EndOfInput
    }

    proof fn layout_is_prefix_free(a: Self, b: Self, bytes: Seq<u8>) {
        u32::layout_is_prefix_free(a as u32, b as u32, bytes);
        assert(a as u32 == b as u32 ==> a == b) by (bit_vector);
    }

    fn write(&self, out: &mut Vec<u8>) {
        (*self as u32).write(out);
    }

    fn read(bytes: &[u8], at: usize) -> (found: Result<(Self, usize), DecodeFailure>) {
        match u32::read(bytes, at) {
            Ok((value, end)) => {
                assert((value as i32) as u32 == value) by (bit_vector);
                Ok((value as i32, end))
            },
            Err(failure) => {
                assert forall|value: i32| !(#[trigger] value.layout()).is_prefix_of(
                    bytes@.skip(at as int),
                ) by {
                    assert(!(value as u32).layout().is_prefix_of(bytes@.skip(at as int)));
                }
                Err(failure)
            },
        }
    }
}

impl Wire for i64 {
    open spec fn layout(self) -> Seq<u8> {
        (self as u64).layout()
    }

    open spec fn failing(bytes: Seq<u8>) -> DecodeFailure {
        DecodeFailure::EndOfInput
    }

    proof fn layout_is_prefix_free(a: Self, b: Self, bytes: Seq<u8>) {
        u64::layout_is_prefix_free(a as u64, b as u64, bytes);
        assert(a as u64 == b as u64 ==> a == b) by (bit_vector);
    }

    fn write(&self, out: &mut Vec<u8>) {
        (*self as u64).write(out);
    }

    fn read(bytes: &[u8], at: usize) -> (found: Result<(Self, usize), DecodeFailure>) {
        match u64::read(bytes, at) {
            Ok((value, end)) => {
                assert((value as i64) as u64 == value) by (bit_vector);
                Ok((value as i64, end))
            },
            Err(failure) => {
                assert forall|value: i64| !(#[trigger] value.layout()).is_prefix_of(
                    bytes@.skip(at as int),
                ) by {
                    assert(!(value as u64).layout().is_prefix_of(bytes@.skip(at as int)));
                }
                Err(failure)
            },
        }
    }
}

impl Wire for () {
    open spec fn layout(self) -> Seq<u8> {
        Seq::empty()
    }

    open spec fn failing(bytes: Seq<u8>) -> DecodeFailure {
        DecodeFailure::EndOfInput
    }

    proof fn layout_is_prefix_free(a: Self, b: Self, bytes: Seq<u8>) {
    }

    fn write(&self, out: &mut Vec<u8>) {
        assert(out@ + self.layout() =~= out@);
    }

    fn read(bytes: &[u8], at: usize) -> (found: Result<(Self, usize), DecodeFailure>) {
        assert(bytes@.subrange(at as int, at as int) =~= Seq::<u8>::empty());
        Ok(((), at))
    }
}

impl<A: Wire, B: Wire> Wire for (A, B) {
    open spec fn layout(self) -> Seq<u8> {
        self.0.layout() + self.1.layout()
    }

    /// The first part is to blame, unless there is one.
    open spec fn failing(bytes: Seq<u8>) -> DecodeFailure {
        if exists|first: A| (#[trigger] first.layout()).is_prefix_of(bytes) {
            let first = choose|first: A| (#[trigger] first.layout()).is_prefix_of(bytes);
            B::failing(bytes.skip(first.layout().len() as int))
        } else {
            A::failing(bytes)
        }
    }

    proof fn layout_is_prefix_free(a: Self, b: Self, bytes: Seq<u8>) {
        concat_begins(a.0.layout(), a.1.layout(), bytes);
        concat_begins(b.0.layout(), b.1.layout(), bytes);
        A::layout_is_prefix_free(a.0, b.0, bytes);
        B::layout_is_prefix_free(a.1, b.1, bytes.skip(a.0.layout().len() as int));
    }

    fn write(&self, out: &mut Vec<u8>) {
        let ghost before = out@;
        self.0.write(out);
        self.1.write(out);
        assert(out@ =~= before + self.layout());
    }

    fn read(bytes: &[u8], at: usize) -> (found: Result<(Self, usize), DecodeFailure>) {
        let (first, middle) = match A::read(bytes, at) {
            Ok(found) => found,
            Err(failure) => {
                assert forall|value: (A, B)| !(#[trigger] value.layout()).is_prefix_of(
                    bytes@.skip(at as int),
                ) by {
                    if value.layout().is_prefix_of(bytes@.skip(at as int)) {
                        concat_begins(value.0.layout(), value.1.layout(), bytes@.skip(at as int));
                    }
                }
                return Err(failure);
            },
        };
        proof {
            subrange_begins(bytes@, at as int, middle as int);
        }
        match B::read(bytes, middle) {
            Ok((second, end)) => {
                assert(bytes@.subrange(at as int, end as int) =~= bytes@.subrange(
                    at as int,
                    middle as int,
                ) + bytes@.subrange(middle as int, end as int));
                Ok(((first, second), end))
            },
            Err(failure) => {
                proof {
                    pair_is_absent::<A, B>(bytes@, at as int, middle as int, first);
                    let rest = bytes@.skip(at as int);
                    let other = choose|other: A| (#[trigger] other.layout()).is_prefix_of(rest);
                    assert(first.layout().is_prefix_of(rest));
                    A::layout_is_prefix_free(first, other, rest);
                    assert(rest.skip(first.layout().len() as int) =~= bytes@.skip(middle as int));
                }
                assert forall|value: (A, B)| !(#[trigger] value.layout()).is_prefix_of(
                    bytes@.skip(at as int),
                ) by {
                    if value.layout().is_prefix_of(bytes@.skip(at as int)) {
                        concat_begins(value.0.layout(), value.1.layout(), bytes@.skip(at as int));
                        A::layout_is_prefix_free(first, value.0, bytes@.skip(at as int));
                        assert(value.layout() == (first, value.1).layout());
                    }
                }
                Err(failure)
            },
        }
    }
}

/// Where no value of the second type follows a first value, no pair starts with that value.
proof fn pair_is_absent<A: Wire, B: Wire>(bytes: Seq<u8>, at: int, middle: int, first: A)
    requires
        0 <= at <= middle <= bytes.len(),
        bytes.subrange(at, middle) == first.layout(),
        forall|second: B| !(#[trigger] second.layout()).is_prefix_of(bytes.skip(middle)),
    ensures
        forall|second: B| !(#[trigger] (first, second).layout()).is_prefix_of(bytes.skip(at)),
{
    assert forall|second: B| !(#[trigger] (first, second).layout()).is_prefix_of(
        bytes.skip(at),
    ) by {
        if (first, second).layout().is_prefix_of(bytes.skip(at)) {
            concat_begins(first.layout(), second.layout(), bytes.skip(at));
            assert(bytes.skip(at).skip(first.layout().len() as int) =~= bytes.skip(middle));
        }
    }
}

/// The number of the variant at the start of some bytes.
pub open spec fn tag_of(bytes: Seq<u8>) -> u32 {
    spec_u32_from_le_bytes(bytes.take(4))
}

/// A type whose values are laid out as the number of their variant, followed by fields.
pub trait Tagged: Sized {
    /// How many variants there are.
    spec fn count() -> u32;

    /// The number of the variant of a value.
    spec fn variant(self) -> u32;

    /// The layout of the fields of a value.
    spec fn fields(self) -> Seq<u8>;

    /// What is wrong with a number that stands for no variant.
    spec fn unknown(found: u32) -> DecodeFailure;

    /// The variants are numbered from zero.
    proof fn variant_is_counted(self)
        ensures
            self.variant() < Self::count(),
    ;

    /// What is wrong with a number, if it stands for no variant.
    fn refuse(found: u32) -> (failure: Option<DecodeFailure>)
        ensures
            failure == (if found < Self::count() {
                None
            } else {
                Some(Self::unknown(found))
            }),
    ;
}

/// The layout of a value: the number of its variant, followed by its fields.
pub open spec fn tagged_layout<T: Tagged>(value: T) -> Seq<u8> {
    value.variant().layout() + value.fields()
}

/// Whether some bytes begin with the number of a variant.
pub open spec fn has_tag<T: Tagged>(bytes: Seq<u8>) -> bool {
    bytes.len() >= 4 && tag_of(bytes) < T::count()
}

/// What is wrong with bytes that do not begin with the number of a variant.
pub open spec fn tag_failing<T: Tagged>(bytes: Seq<u8>) -> DecodeFailure {
    if bytes.len() < 4 {
        DecodeFailure::EndOfInput
    } else {
        T::unknown(tag_of(bytes))
    }
}

/// A value at the start of some bytes has the variant whose number begins them, and its fields
/// follow.
pub proof fn tag_begins<T: Tagged>(value: T, bytes: Seq<u8>)
    requires
        tagged_layout(value).is_prefix_of(bytes),
    ensures
        has_tag::<T>(bytes),
        value.variant() == tag_of(bytes),
        value.fields().is_prefix_of(bytes.skip(4)),
{
    lemma_auto_spec_u32_to_from_le_bytes();
    concat_begins(value.variant().layout(), value.fields(), bytes);
    assert(bytes.take(4) =~= value.variant().layout());
    value.variant_is_counted();
}

/// Two values at the start of the same bytes have the same variant, and the fields of both follow.
pub proof fn tags_agree<T: Tagged>(a: T, b: T, bytes: Seq<u8>)
    requires
        tagged_layout(a).is_prefix_of(bytes),
        tagged_layout(b).is_prefix_of(bytes),
    ensures
        a.variant() == b.variant(),
        a.fields().is_prefix_of(bytes.skip(4)),
        b.fields().is_prefix_of(bytes.skip(4)),
{
    tag_begins(a, bytes);
    tag_begins(b, bytes);
}

/// Reads the number of a variant, and says where the fields start.
pub fn read_tag<T: Tagged>(bytes: &[u8], at: usize) -> (found: Result<(u32, usize), DecodeFailure>)
    requires
        at <= bytes@.len(),
    ensures
        match found {
            Ok((tag, middle)) => {
                &&& middle == at + 4 <= bytes@.len()
                &&& has_tag::<T>(bytes@.skip(at as int))
                &&& tag == tag_of(bytes@.skip(at as int))
                &&& bytes@.subrange(at as int, middle as int) == tag.layout()
                &&& bytes@.skip(at as int).skip(4) == bytes@.skip(middle as int)
                &&& forall|value: T| #[trigger]
                    tagged_layout(value).is_prefix_of(bytes@.skip(at as int)) ==> value.variant()
                        == tag && value.fields().is_prefix_of(bytes@.skip(middle as int))
            },
            Err(failure) => {
                &&& !has_tag::<T>(bytes@.skip(at as int))
                &&& failure == tag_failing::<T>(bytes@.skip(at as int))
                &&& forall|value: T|
                    !(#[trigger] tagged_layout(value)).is_prefix_of(bytes@.skip(at as int))
            },
        },
{
    let ghost rest = bytes@.skip(at as int);
    proof {
        lemma_auto_spec_u32_to_from_le_bytes();
        assert forall|value: T| #[trigger] tagged_layout(value).is_prefix_of(rest) implies {
            &&& has_tag::<T>(rest)
            &&& value.variant() == tag_of(rest)
            &&& value.fields().is_prefix_of(rest.skip(4))
        } by {
            tag_begins(value, rest);
        }
    }
    let (tag, middle) = match u32::read(bytes, at) {
        Ok(found) => found,
        Err(failure) => {
            proof {
                if rest.len() >= 4 {
                    assert(rest.take(4) =~= tag_of(rest).layout());
                    assert(tag_of(rest).layout().is_prefix_of(rest));
                }
            }
            return Err(failure);
        },
    };
    proof {
        assert(tag.layout().len() == 4);
        assert(middle == at + 4);
        assert(rest.take(4) =~= bytes@.subrange(at as int, middle as int));
        assert(rest.skip(4) =~= bytes@.skip(middle as int));
    }
    match T::refuse(tag) {
        Some(failure) => Err(failure),
        None => Ok((tag, middle)),
    }
}

/// The number of a variant and the fields behind it make up a value.
pub proof fn tagged_value_is_read<T: Tagged>(
    bytes: Seq<u8>,
    at: int,
    middle: int,
    end: int,
    value: T,
)
    requires
        0 <= at <= middle <= end <= bytes.len(),
        bytes.subrange(at, middle) == value.variant().layout(),
        bytes.subrange(middle, end) == value.fields(),
    ensures
        bytes.subrange(at, end) == tagged_layout(value),
{
    assert(bytes.subrange(at, end) =~= bytes.subrange(at, middle) + bytes.subrange(middle, end));
}

impl<T: Wire> Tagged for Result<T, i32> {
    open spec fn count() -> u32 {
        2
    }

    open spec fn variant(self) -> u32 {
        match self {
            Ok(_) => 0,
            Err(_) => 1,
        }
    }

    open spec fn fields(self) -> Seq<u8> {
        match self {
            Ok(value) => value.layout(),
            Err(number) => number.layout(),
        }
    }

    open spec fn unknown(found: u32) -> DecodeFailure {
        DecodeFailure::UnknownOutcome { number: found }
    }

    proof fn variant_is_counted(self) {
    }

    fn refuse(found: u32) -> (failure: Option<DecodeFailure>) {
        if found < 2 {
            None
        } else {
            Some(DecodeFailure::UnknownOutcome { number: found })
        }
    }
}

impl<T: Wire> Wire for Result<T, i32> {
    open spec fn layout(self) -> Seq<u8> {
        tagged_layout(self)
    }

    open spec fn failing(bytes: Seq<u8>) -> DecodeFailure {
        if !has_tag::<Result<T, i32>>(bytes) {
            tag_failing::<Result<T, i32>>(bytes)
        } else if tag_of(bytes) == 0 {
            T::failing(bytes.skip(4))
        } else {
            i32::failing(bytes.skip(4))
        }
    }

    proof fn layout_is_prefix_free(a: Self, b: Self, bytes: Seq<u8>) {
        tags_agree(a, b, bytes);
        match (a, b) {
            (Ok(x), Ok(y)) => T::layout_is_prefix_free(x, y, bytes.skip(4)),
            (Err(x), Err(y)) => i32::layout_is_prefix_free(x, y, bytes.skip(4)),
            _ => {},
        }
    }

    fn write(&self, out: &mut Vec<u8>) {
        let ghost before = out@;
        match self {
            Ok(value) => {
                0u32.write(out);
                value.write(out);
            },
            Err(number) => {
                1u32.write(out);
                number.write(out);
            },
        }
        assert(out@ =~= before + self.layout());
    }

    fn read(bytes: &[u8], at: usize) -> (found: Result<(Self, usize), DecodeFailure>) {
        let (tag, middle) = match read_tag::<Result<T, i32>>(bytes, at) {
            Ok(found) => found,
            Err(failure) => return Err(failure),
        };
        if tag == 0 {
            match T::read(bytes, middle) {
                Ok((value, end)) => {
                    let read: Result<T, i32> = Ok(value);
                    proof {
                        tagged_value_is_read(bytes@, at as int, middle as int, end as int, read);
                    }
                    Ok((read, end))
                },
                Err(failure) => Err(failure),
            }
        } else {
            match i32::read(bytes, middle) {
                Ok((number, end)) => {
                    let read: Result<T, i32> = Err(number);
                    proof {
                        tagged_value_is_read(bytes@, at as int, middle as int, end as int, read);
                    }
                    Ok((read, end))
                },
                Err(failure) => Err(failure),
            }
        }
    }
}

/// A type whose values are told apart by the number of their variant alone.
pub trait Plain: Tagged {
    /// The values have no fields, and no two of them have the same variant.
    proof fn variant_says_all(a: Self, b: Self)
        ensures
            a.fields() == Seq::<u8>::empty(),
            a.variant() == b.variant() ==> a == b,
    ;

    /// The number of the variant.
    fn to_variant(&self) -> (number: u32)
        ensures
            number == self.variant(),
    ;

    /// The value whose variant has a number.
    fn from_variant(number: u32) -> (value: Self)
        requires
            number < Self::count(),
        ensures
            value.variant() == number,
    ;
}

/// Appends the bytes of a value without fields.
fn write_plain<T: Plain>(value: &T, out: &mut Vec<u8>)
    ensures
        final(out)@ == old(out)@ + tagged_layout(*value),
{
    proof {
        T::variant_says_all(*value, *value);
        assert(tagged_layout(*value) =~= value.variant().layout());
    }
    value.to_variant().write(out);
}

/// Reads a value without fields.
fn read_plain<T: Plain>(bytes: &[u8], at: usize) -> (found: Result<(T, usize), DecodeFailure>)
    requires
        at <= bytes@.len(),
    ensures
        match found {
            Ok((value, end)) => {
                &&& at <= end <= bytes@.len()
                &&& bytes@.subrange(at as int, end as int) == tagged_layout(value)
            },
            Err(failure) => {
                &&& forall|value: T|
                    !(#[trigger] tagged_layout(value)).is_prefix_of(bytes@.skip(at as int))
                &&& failure == tag_failing::<T>(bytes@.skip(at as int))
            },
        },
{
    let (tag, end) = match read_tag::<T>(bytes, at) {
        Ok(found) => found,
        Err(failure) => return Err(failure),
    };
    let value = T::from_variant(tag);
    proof {
        T::variant_says_all(value, value);
        assert(bytes@.subrange(end as int, end as int) =~= Seq::<u8>::empty());
        tagged_value_is_read(bytes@, at as int, end as int, end as int, value);
    }
    Ok((value, end))
}

/// Bytes begin with at most one value without fields.
proof fn plain_is_prefix_free<T: Plain>(a: T, b: T, bytes: Seq<u8>)
    requires
        tagged_layout(a).is_prefix_of(bytes),
        tagged_layout(b).is_prefix_of(bytes),
    ensures
        a == b,
{
    tags_agree(a, b, bytes);
    T::variant_says_all(a, b);
}

impl Tagged for LockAction {
    open spec fn count() -> u32 {
        3
    }

    open spec fn variant(self) -> u32 {
        match self {
            LockAction::SetLockNonBlocking => 0,
            LockAction::SetLockBlocking => 1,
            LockAction::GetLockStatus => 2,
        }
    }

    open spec fn fields(self) -> Seq<u8> {
        Seq::empty()
    }

    open spec fn unknown(found: u32) -> DecodeFailure {
        DecodeFailure::UnknownVariant { found, count: 3 }
    }

    proof fn variant_is_counted(self) {
    }

    fn refuse(found: u32) -> (failure: Option<DecodeFailure>) {
        if found < 3 {
            None
        } else {
            Some(DecodeFailure::UnknownVariant { found, count: 3 })
        }
    }
}

impl Plain for LockAction {
    proof fn variant_says_all(a: Self, b: Self) {
    }

    fn to_variant(&self) -> (number: u32) {
        match self {
            LockAction::SetLockNonBlocking => 0,
            LockAction::SetLockBlocking => 1,
            LockAction::GetLockStatus => 2,
        }
    }

    fn from_variant(number: u32) -> (value: Self) {
        if number == 0 {
            LockAction::SetLockNonBlocking
        } else if number == 1 {
            LockAction::SetLockBlocking
        } else {
            LockAction::GetLockStatus
        }
    }
}

impl Wire for LockAction {
    open spec fn layout(self) -> Seq<u8> {
        tagged_layout(self)
    }

    open spec fn failing(bytes: Seq<u8>) -> DecodeFailure {
        tag_failing::<LockAction>(bytes)
    }

    proof fn layout_is_prefix_free(a: Self, b: Self, bytes: Seq<u8>) {
        plain_is_prefix_free(a, b, bytes);
    }

    fn write(&self, out: &mut Vec<u8>) {
        write_plain(self, out);
    }

    fn read(bytes: &[u8], at: usize) -> (found: Result<(Self, usize), DecodeFailure>) {
        read_plain(bytes, at)
    }
}

impl Tagged for LockType {
    open spec fn count() -> u32 {
        3
    }

    open spec fn variant(self) -> u32 {
        match self {
            LockType::Read => 0,
            LockType::Write => 1,
            LockType::Unlock => 2,
        }
    }

    open spec fn fields(self) -> Seq<u8> {
        Seq::empty()
    }

    open spec fn unknown(found: u32) -> DecodeFailure {
        DecodeFailure::UnknownVariant { found, count: 3 }
    }

    proof fn variant_is_counted(self) {
    }

    fn refuse(found: u32) -> (failure: Option<DecodeFailure>) {
        if found < 3 {
            None
        } else {
            Some(DecodeFailure::UnknownVariant { found, count: 3 })
        }
    }
}

impl Plain for LockType {
    proof fn variant_says_all(a: Self, b: Self) {
    }

    fn to_variant(&self) -> (number: u32) {
        match self {
            LockType::Read => 0,
            LockType::Write => 1,
            LockType::Unlock => 2,
        }
    }

    fn from_variant(number: u32) -> (value: Self) {
        if number == 0 {
            LockType::Read
        } else if number == 1 {
            LockType::Write
        } else {
            LockType::Unlock
        }
    }
}

impl Wire for LockType {
    open spec fn layout(self) -> Seq<u8> {
        tagged_layout(self)
    }

    open spec fn failing(bytes: Seq<u8>) -> DecodeFailure {
        tag_failing::<LockType>(bytes)
    }

    proof fn layout_is_prefix_free(a: Self, b: Self, bytes: Seq<u8>) {
        plain_is_prefix_free(a, b, bytes);
    }

    fn write(&self, out: &mut Vec<u8>) {
        write_plain(self, out);
    }

    fn read(bytes: &[u8], at: usize) -> (found: Result<(Self, usize), DecodeFailure>) {
        read_plain(bytes, at)
    }
}

impl Tagged for LockWhence {
    open spec fn count() -> u32 {
        3
    }

    open spec fn variant(self) -> u32 {
        match self {
            LockWhence::Start => 0,
            LockWhence::Current => 1,
            LockWhence::End => 2,
        }
    }

    open spec fn fields(self) -> Seq<u8> {
        Seq::empty()
    }

    open spec fn unknown(found: u32) -> DecodeFailure {
        DecodeFailure::UnknownVariant { found, count: 3 }
    }

    proof fn variant_is_counted(self) {
    }

    fn refuse(found: u32) -> (failure: Option<DecodeFailure>) {
        if found < 3 {
            None
        } else {
            Some(DecodeFailure::UnknownVariant { found, count: 3 })
        }
    }
}

impl Plain for LockWhence {
    proof fn variant_says_all(a: Self, b: Self) {
    }

    fn to_variant(&self) -> (number: u32) {
        match self {
            LockWhence::Start => 0,
            LockWhence::Current => 1,
            LockWhence::End => 2,
        }
    }

    fn from_variant(number: u32) -> (value: Self) {
        if number == 0 {
            LockWhence::Start
        } else if number == 1 {
            LockWhence::Current
        } else {
            LockWhence::End
        }
    }
}

impl Wire for LockWhence {
    open spec fn layout(self) -> Seq<u8> {
        tagged_layout(self)
    }

    open spec fn failing(bytes: Seq<u8>) -> DecodeFailure {
        tag_failing::<LockWhence>(bytes)
    }

    proof fn layout_is_prefix_free(a: Self, b: Self, bytes: Seq<u8>) {
        plain_is_prefix_free(a, b, bytes);
    }

    fn write(&self, out: &mut Vec<u8>) {
        write_plain(self, out);
    }

    fn read(bytes: &[u8], at: usize) -> (found: Result<(Self, usize), DecodeFailure>) {
        read_plain(bytes, at)
    }
}

/// The fields of a lock, in the order in which they are laid out.
pub open spec fn lock_fields(params: LockParams) -> (LockType, (LockWhence, (i64, (i64, i32)))) {
    (params.lock_type, (params.whence, (params.start, (params.len, params.pid))))
}

impl Wire for LockParams {
    open spec fn layout(self) -> Seq<u8> {
        lock_fields(self).layout()
    }

    open spec fn failing(bytes: Seq<u8>) -> DecodeFailure {
        <(LockType, (LockWhence, (i64, (i64, i32))))>::failing(bytes)
    }

    proof fn layout_is_prefix_free(a: Self, b: Self, bytes: Seq<u8>) {
        <(LockType, (LockWhence, (i64, (i64, i32))))>::layout_is_prefix_free(
            lock_fields(a),
            lock_fields(b),
            bytes,
        );
    }

    fn write(&self, out: &mut Vec<u8>) {
        (self.lock_type, (self.whence, (self.start, (self.len, self.pid)))).write(out);
    }

    fn read(bytes: &[u8], at: usize) -> (found: Result<(Self, usize), DecodeFailure>) {
        match <(LockType, (LockWhence, (i64, (i64, i32))))>::read(bytes, at) {
            Ok(((lock_type, (whence, (start, (len, pid)))), end)) => {
                Ok((LockParams { lock_type, whence, start, len, pid }, end))
            },
            Err(failure) => {
                assert forall|value: LockParams| !(#[trigger] value.layout()).is_prefix_of(
                    bytes@.skip(at as int),
                ) by {
                    assert(!lock_fields(value).layout().is_prefix_of(bytes@.skip(at as int)));
                }
                Err(failure)
            },
        }
    }
}

/// The bytes of a value.
pub fn serialize<T: Wire>(value: &T) -> (bytes: Vec<u8>)
    ensures
        bytes@ == value.layout(),
{
    let mut bytes = Vec::new();
    value.write(&mut bytes);
    assert(bytes@ =~= value.layout());
    bytes
}

/// The value at the start of some bytes. What follows it is ignored.
pub fn deserialize<T: Wire>(bytes: &[u8]) -> (read: Result<T, DecodeFailure>)
    ensures
        begins(bytes@, read),
{
    assert(bytes@.skip(0) =~= bytes@);
    match T::read(bytes, 0) {
        Ok((value, _end)) => Ok(value),
        Err(failure) => Err(failure),
    }
}

/// A value is read back from its bytes, whatever follows them.
pub proof fn value_is_read_back<T: Wire>(
    value: T,
    trailing: Seq<u8>,
    read: Result<T, DecodeFailure>,
)
    requires
        begins(value.layout() + trailing, read),
    ensures
        read == Ok::<T, DecodeFailure>(value),
{
    let bytes = value.layout() + trailing;
    assert(value.layout() =~= bytes.subrange(0, value.layout().len() as int));
    assert(value.layout().is_prefix_of(bytes));
    T::layout_is_prefix_free(value, read->Ok_0, bytes);
}

} // verus!
