//! The command lines of the helper processes.

use crate::types::Ttl;
use vstd::prelude::*;

verus! {

/// The digit of a number below ten.
pub open spec fn digit(value: nat) -> char {
    (48 + value) as char
}

/// A number in decimal notation, without leading zeros.
pub open spec fn digits(value: nat) -> Seq<char>
    decreases value,
{
    if value < 10 {
        seq![digit(value)]
    } else {
        digits(value / 10).push(digit(value % 10))
    }
}

/// A number in decimal notation, with a minus sign if it is negative.
pub open spec fn decimal(value: int) -> Seq<char> {
    if value < 0 {
        seq!['-'] + digits((-value) as nat)
    } else {
        digits(value as nat)
    }
}

/// `<i128 as std::string::ToString>::to_string`: the number in decimal notation.
#[verifier::external_body]
pub(crate) fn to_decimal(value: i128) -> (text: String)
    ensures
        text@ == decimal(value as int),
{
    value.to_string()
}

/// The arguments of an owner process: its socket, and how long it outlives its last use.
pub fn owner_arguments(fd: i32, ttl: Ttl) -> (arguments: Vec<String>)
    ensures
        arguments@.len() == 6,
        arguments@[0]@ == "owner"@,
        arguments@[1]@ == decimal(fd as int),
        arguments@[2]@ == "--ttl-secs"@,
        arguments@[3]@ == decimal(ttl.secs as int),
        arguments@[4]@ == "--ttl-nsecs"@,
        arguments@[5]@ == decimal(ttl.nanos as int),
{
    let mut arguments: Vec<String> = Vec::new();
    arguments.push("owner".to_string());
    arguments.push(to_decimal(fd as i128));
    arguments.push("--ttl-secs".to_string());
    arguments.push(to_decimal(ttl.secs as i128));
    arguments.push("--ttl-nsecs".to_string());
    arguments.push(to_decimal(ttl.nanos as i128));
    arguments
}

/// The arguments of a coordinator: its socket.
pub fn coordinator_arguments(fd: i32) -> (arguments: Vec<String>)
    ensures
        arguments@.len() == 2,
        arguments@[0]@ == "coordinator"@,
        arguments@[1]@ == decimal(fd as int),
{
    let mut arguments: Vec<String> = Vec::new();
    arguments.push("coordinator".to_string());
    arguments.push(to_decimal(fd as i128));
    arguments
}

/// No two numbers without a sign are written alike.
proof fn digits_tell_apart(a: nat, b: nat)
    requires
        digits(a) == digits(b),
    ensures
        a == b,
    decreases a,
{
    assert(digits(a).last() == digit(a % 10)) by {
        if a < 10 {
            assert(a % 10 == a);
        }
    }
    assert(digits(b).last() == digit(b % 10)) by {
        if b < 10 {
            assert(b % 10 == b);
        }
    }
    assert(a % 10 == b % 10);
    if a >= 10 {
        some_digit(a / 10);
        assert(digits(a).len() >= 2);
        assert(b >= 10);
        assert(digits(a).drop_last() =~= digits(a / 10));
        assert(digits(b).drop_last() =~= digits(b / 10));
        digits_tell_apart(a / 10, b / 10);
    } else {
        if b >= 10 {
            some_digit(b / 10);
            assert(digits(b).len() >= 2);
        }
    }
}

/// A number has a first digit, which is no sign.
proof fn some_digit(value: nat)
    ensures
        digits(value).len() >= 1,
        '0' <= digits(value)[0] <= '9',
    decreases value,
{
    if value >= 10 {
        some_digit(value / 10);
    }
}

/// No two numbers are written alike, so a command line tells which socket and which time to live a
/// process was given.
pub proof fn decimal_tells_apart(a: int, b: int)
    requires
        decimal(a) == decimal(b),
    ensures
        a == b,
{
    let size_a = if a < 0 { (-a) as nat } else { a as nat };
    let size_b = if b < 0 { (-b) as nat } else { b as nat };
    some_digit(size_a);
    some_digit(size_b);
    if a < 0 {
        assert(decimal(a)[0] == '-');
        assert(decimal(a).drop_first() =~= digits(size_a));
    }
    if b < 0 {
        assert(decimal(b)[0] == '-');
        assert(decimal(b).drop_first() =~= digits(size_b));
    }
    digits_tell_apart(size_a, size_b);
}

} // verus!
