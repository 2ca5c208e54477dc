//! Constants and small helpers shared by the other modules.

use vstd::prelude::*;
use vstd::string::StringExecFns;

pub mod fixed_map;
pub mod signal_safe_spinlock;
pub mod text;

verus! {

/// The stack size, in bytes, of the short-lived child that runs until `exec`.
///
/// A process stack is usually 8 MiB, but the child touches almost none of it
/// before the target program replaces it.
pub const CHILD_STACK_SIZE: usize = 65_536;

/// The number of retired instructions counted as one second of measured time.
pub const CYCLES_PER_SECOND: i64 = 2_000_000_000;

/// Reads the answer of a call that reports failure by returning the error
/// number itself: 0 is success, and anything else is the error.
pub fn cvt_no_errno(argument: i32) -> (answer: Result<(), i32>)
    ensures
        answer == (if argument == 0 {
            Ok::<(), i32>(())
        } else {
            Err::<(), i32>(argument)
        }),
{
    if argument == 0 {
        Ok(())
    } else {
        Err(argument)
    }
}

/// The character that writes the decimal digit `d`.
pub open spec fn digit_char(d: int) -> char {
    if d == 0 {
        '0'
    } else if d == 1 {
        '1'
    } else if d == 2 {
        '2'
    } else if d == 3 {
        '3'
    } else if d == 4 {
        '4'
    } else if d == 5 {
        '5'
    } else if d == 6 {
        '6'
    } else if d == 7 {
        '7'
    } else if d == 8 {
        '8'
    } else {
        '9'
    }
}

/// The decimal digits of `n`, most significant first, without leading zeros.
pub open spec fn decimal_digits(n: nat) -> Seq<char>
    decreases n,
{
    if n < 10 {
        seq![digit_char(n as int)]
    } else {
        decimal_digits(n / 10).push(digit_char((n % 10) as int))
    }
}

/// The decimal text of `n`, with a leading minus sign when `n` is negative.
pub open spec fn decimal_text(n: int) -> Seq<char> {
    if n < 0 {
        seq!['-'] + decimal_digits((-n) as nat)
    } else {
        decimal_digits(n as nat)
    }
}

fn digit_str(d: u64) -> (s: &'static str)
    requires
        d < 10,
    ensures
        s@ == seq![digit_char(d as int)],
{
    proof {
        reveal_strlit("0");
        reveal_strlit("1");
        reveal_strlit("2");
        reveal_strlit("3");
        reveal_strlit("4");
        reveal_strlit("5");
        reveal_strlit("6");
        reveal_strlit("7");
        reveal_strlit("8");
        reveal_strlit("9");
    }
    let s: &'static str = if d == 0 {
        "0"
    } else if d == 1 {
        "1"
    } else if d == 2 {
        "2"
    } else if d == 3 {
        "3"
    } else if d == 4 {
        "4"
    } else if d == 5 {
        "5"
    } else if d == 6 {
        "6"
    } else if d == 7 {
        "7"
    } else if d == 8 {
        "8"
    } else {
        "9"
    };
    assert(s@ =~= seq![digit_char(d as int)]);
    s
}

fn append_digits(text: &mut String, n: u64)
    ensures
        final(text)@ == old(text)@ + decimal_digits(n as nat),
    decreases n,
{
    if n >= 10 {
        append_digits(text, n / 10);
    }
    text.append(digit_str(n % 10));
    assert(text@ =~= old(text)@ + decimal_digits(n as nat));
}

/// Appends the decimal text of `n` to `text`.
pub fn append_decimal(text: &mut String, n: i32)
    ensures
        final(text)@ == old(text)@ + decimal_text(n as int),
{
    if n < 0 {
        proof {
            reveal_strlit("-");
        }
        text.append("-");
        let magnitude: u64 = (-(n as i64)) as u64;
        append_digits(text, magnitude);
        assert(text@ =~= old(text)@ + decimal_text(n as int));
    } else {
        append_digits(text, n as u64);
    }
}

} // verus!
