//! Number-to-text conversion for diagnostic output: renders a 32-bit value
//! in radix 2, 10 or 16, most significant digit first, with the usual
//! prefix for the binary and hexadecimal radices.

use vstd::prelude::*;

verus! {

/// The character for one digit value, `0..=9` then `a..=f`.
pub open spec fn digit_char(d: int) -> char {
    if d == 0 {
        '0'
    } else if d == 1 {
        '1'
    } else if d == 2 {
        '2'
    } else if d == 3 {
        '3'
    } else if d == 4 {
        '4'
    } else if d == 5 {
        '5'
    } else if d == 6 {
        '6'
    } else if d == 7 {
        '7'
    } else if d == 8 {
        '8'
    } else if d == 9 {
        '9'
    } else if d == 10 {
        'a'
    } else if d == 11 {
        'b'
    } else if d == 12 {
        'c'
    } else if d == 13 {
        'd'
    } else if d == 14 {
        'e'
    } else {
        'f'
    }
}

/// The digits of `n` in the given radix, most significant first; empty
/// for zero.
pub open spec fn digit_seq(n: nat, radix: nat) -> Seq<char>
    decreases n,
    via digit_seq_decreases
{
    if radix < 2 || n == 0 {
        Seq::empty()
    } else {
        digit_seq(n / radix, radix).push(digit_char((n % radix) as int))
    }
}

#[via_fn]
proof fn digit_seq_decreases(n: nat, radix: nat) {
    if !(radix < 2 || n == 0) {
        vstd::arithmetic::div_mod::lemma_div_decreases(n as int, radix as int);
    }
}

/// The prefix announcing the radix: `0b` for binary, `0x` for hexadecimal,
/// nothing otherwise.
pub open spec fn radix_prefix(radix: nat) -> Seq<char> {
    if radix == 2 {
        seq!['0', 'b']
    } else if radix == 16 {
        seq!['0', 'x']
    } else {
        Seq::empty()
    }
}

/// The full rendering of a value in a radix: the radix prefix, then the
/// digits, with a single `0` for the value zero.
pub open spec fn converted(value: nat, radix: nat) -> Seq<char> {
    radix_prefix(radix) + (if value == 0 {
        seq!['0']
    } else {
        digit_seq(value, radix)
    })
}

/// Reversing after appending puts the appended element first.
pub proof fn lemma_reverse_push(s: Seq<char>, c: char)
    ensures
        s.push(c).reverse() == seq![c] + s.reverse(),
{
    assert(s.push(c).reverse() =~= seq![c] + s.reverse());
}

/// The character for one digit value, `0..=9` then `a..=f`.
fn digit(d: u32) -> (c: char)
    requires
        d < 16,
    ensures
        c == digit_char(d as int),
{
    if d == 0 {
        '0'
    } else if d == 1 {
        '1'
    } else if d == 2 {
        '2'
    } else if d == 3 {
        '3'
    } else if d == 4 {
        '4'
    } else if d == 5 {
        '5'
    } else if d == 6 {
        '6'
    } else if d == 7 {
        '7'
    } else if d == 8 {
        '8'
    } else if d == 9 {
        '9'
    } else if d == 10 {
        'a'
    } else if d == 11 {
        'b'
    } else if d == 12 {
        'c'
    } else if d == 13 {
        'd'
    } else if d == 14 {
        'e'
    } else {
        'f'
    }
}

/// Render `value` in the given radix, most significant digit first, with
/// the radix prefix.
pub fn convert_radix(value: u32, radix: u32) -> (out: Vec<char>)
    requires
        radix == 2 || radix == 10 || radix == 16,
    ensures
        out@ == converted(value as nat, radix as nat),
{
    let mut out: Vec<char> = Vec::new();
    if radix == 2 {
        out.push('0');
        out.push('b');
    } else if radix == 16 {
        out.push('0');
        out.push('x');
    }
    proof {
        assert(out@ =~= radix_prefix(radix as nat));
    }

    if value == 0 {
        out.push('0');
        proof {
            assert(out@ =~= converted(value as nat, radix as nat));
        }
        return out;
    }

    let mut buf: Vec<char> = Vec::new();
    let mut n: u32 = value;
    while n > 0
        invariant
            radix == 2 || radix == 10 || radix == 16,
            digit_seq(value as nat, radix as nat) == digit_seq(n as nat, radix as nat)
                + buf@.reverse(),
        decreases n,
    {
        let ghost buf0 = buf@;
        let ghost n0 = n as nat;
        let d = n % radix;
        let c = digit(d);
        buf.push(c);
        n = n / radix;
        proof {
            lemma_reverse_push(buf0, c);
            assert(digit_seq(n0, radix as nat) == digit_seq(n as nat, radix as nat).push(c));
            assert(digit_seq(n as nat, radix as nat).push(c) + buf0.reverse() =~= digit_seq(
                n as nat,
                radix as nat,
            ) + (seq![c] + buf0.reverse()));
        }
    }
    proof {
        assert(Seq::<char>::empty() + buf@.reverse() =~= buf@.reverse());
        assert(buf@.reverse() == digit_seq(value as nat, radix as nat));
    }

    let ghost prefix = out@;
    let ghost rendered = buf@.reverse();
    let ghost total = buf@.len() as int;
    let mut i: usize = buf.len();
    while i > 0
        invariant
            i <= buf@.len(),
            buf@.len() == total,
            rendered == buf@.reverse(),
            out@ == prefix + rendered.take(total - i),
        decreases i,
    {
        i = i - 1;
        let c = buf[i];
        out.push(c);
        proof {
            assert(buf@[i as int] == rendered[total - 1 - i]);
            assert(rendered.take(total - i) =~= rendered.take(total - i - 1).push(
                rendered[total - i - 1],
            ));
            assert(out@ =~= prefix + rendered.take(total - i));
        }
    }
    proof {
        assert(rendered.take(total) =~= rendered);
        assert(out@ == converted(value as nat, radix as nat));
    }
    out
}

/// Render `value` in decimal.
pub fn convert(value: u32) -> (out: Vec<char>)
    ensures
        out@ == converted(value as nat, 10),
{
    convert_radix(value, 10)
}

/// Call `f` once for each index from `start` up to, and excluding, `end`,
/// in ascending order: afterwards, `f`'s postcondition holds at every
/// index of the range. That it was called exactly once per index, and in
/// order, is more than a stateless `Fn` can surface in a contract.
pub fn range(start: usize, end: usize, f: impl Fn(usize))
    requires
        forall|i: usize| start <= i < end ==> call_requires(f, (i,)),
    ensures
        forall|i: usize| start <= i < end ==> #[trigger] call_ensures(f, (i,), ()),
{
    let mut i: usize = start;
    while i < end
        invariant
            start <= i,
            forall|j: usize| start <= j < end ==> call_requires(f, (j,)),
            forall|j: usize| start <= j < i ==> #[trigger] call_ensures(f, (j,), ()),
        decreases end - i,
    {
        let r: () = f(i);
        proof {
            assert(call_ensures(f, (i,), r));
        }
        i = i + 1;
    }
}

} // verus!
