use vstd::prelude::*;
use vstd::arithmetic::div_mod::lemma_fundamental_div_mod;
use vstd::arithmetic::div_mod::lemma_fundamental_div_mod_converse;

use crate::config::AccountId;
use crate::config::Balance;

verus! {

/// The closed, versioned set of operation kinds a proposal's action bytes
/// may encode.  Decoding is exact: a byte string decodes to an operation
/// if and only if it is that operation's encoding, with nothing trailing.
#[derive(Clone, Copy, PartialEq, Eq, Structural, Debug)]
pub enum Operation {
    /// Move `value` units from the execution principal to `dest`.
    Transfer { dest: AccountId, value: Balance },
    /// Do nothing; dispatch always succeeds and leaves the ledger unchanged.
    Noop,
}

/// 256 raised to `n`: the number of byte strings of length `n`.
pub open spec fn pow256(n: nat) -> nat
    decreases n,
{
    if n == 0 {
        1
    } else {
        256 * pow256((n - 1) as nat)
    }
}

/// The `n`-byte little-endian representation of `x` (modulo `pow256(n)`).
pub open spec fn le_bytes(x: nat, n: nat) -> Seq<u8>
    decreases n,
{
    if n == 0 {
        Seq::empty()
    } else {
        seq![(x % 256) as u8] + le_bytes(x / 256, (n - 1) as nat)
    }
}

/// The value of a little-endian byte string.
pub open spec fn le_value(s: Seq<u8>) -> nat
    decreases s.len(),
{
    if s.len() == 0 {
        0
    } else {
        s[0] as nat + 256 * le_value(s.drop_first())
    }
}

/// The encoding of an operation: a one-byte tag followed by the operation's
/// fields in fixed-width little-endian order.
pub open spec fn spec_encode(op: Operation) -> Seq<u8> {
    match op {
        Operation::Transfer { dest, value } => seq![0u8] + le_bytes(dest as nat, 8) + le_bytes(
            value as nat,
            16,
        ),
        Operation::Noop => seq![1u8],
    }
}

/// The decoding of a byte string: `Some(op)` exactly when the string is the
/// encoding of `op`, `None` otherwise.
pub open spec fn spec_decode(s: Seq<u8>) -> Option<Operation> {
    if s.len() == 25 && s[0] == 0u8 {
        Some(
            Operation::Transfer {
                dest: le_value(s.subrange(1, 9)) as u64,
                value: le_value(s.subrange(9, 25)) as u128,
            },
        )
    } else if s.len() == 1 && s[0] == 1u8 {
        Some(Operation::Noop)
    } else {
        None
    }
}

pub proof fn lemma_pow256_values()
    ensures
        pow256(8) == 0x1_0000_0000_0000_0000,
        pow256(16) == 0x1_0000_0000_0000_0000_0000_0000_0000_0000,
{
    reveal_with_fuel(pow256, 17);
}

/// Each step of `pow256` multiplies by 256, so it never decreases.
pub proof fn lemma_pow256_increases(a: nat, b: nat)
    requires
        a <= b,
    ensures
        pow256(a) <= pow256(b),
    decreases b,
{
    if a < b {
        lemma_pow256_increases(a, (b - 1) as nat);
        assert(pow256(b) == 256 * pow256((b - 1) as nat));
        assert(pow256((b - 1) as nat) >= 1) by {
            lemma_pow256_positive((b - 1) as nat);
        }
    }
}

pub proof fn lemma_pow256_positive(n: nat)
    ensures
        pow256(n) >= 1,
    decreases n,
{
    if n > 0 {
        lemma_pow256_positive((n - 1) as nat);
    }
}

pub proof fn lemma_le_bytes_len(x: nat, n: nat)
    ensures
        le_bytes(x, n).len() == n,
    decreases n,
{
    if n > 0 {
        lemma_le_bytes_len(x / 256, (n - 1) as nat);
    }
}

/// A little-endian byte string of length `n` denotes a value below `pow256(n)`.
pub proof fn lemma_le_value_bound(s: Seq<u8>)
    ensures
        le_value(s) < pow256(s.len()),
    decreases s.len(),
{
    if s.len() > 0 {
        lemma_le_value_bound(s.drop_first());
    }
}

/// Reading back the bytes of `x` yields `x`, for `x` in range.
pub proof fn lemma_le_round_trip(x: nat, n: nat)
    requires
        x < pow256(n),
    ensures
        le_value(le_bytes(x, n)) == x,
    decreases n,
{
    if n > 0 {
        lemma_le_bytes_len(x / 256, (n - 1) as nat);
        assert(le_bytes(x, n).drop_first() =~= le_bytes(x / 256, (n - 1) as nat));
        assert(x / 256 < pow256((n - 1) as nat)) by {
            lemma_fundamental_div_mod(x as int, 256);
        }
        lemma_le_round_trip(x / 256, (n - 1) as nat);
        lemma_fundamental_div_mod(x as int, 256);
    }
}

/// Re-encoding the value of a byte string yields the same bytes.
pub proof fn lemma_le_bytes_of_value(s: Seq<u8>)
    ensures
        le_bytes(le_value(s), s.len()) == s,
    decreases s.len(),
{
    if s.len() == 0 {
        assert(le_bytes(le_value(s), 0) =~= s);
    } else {
        let rest = s.drop_first();
        let v = le_value(s);
        lemma_fundamental_div_mod_converse(v as int, 256, le_value(rest) as int, s[0] as int);
        lemma_le_bytes_of_value(rest);
        lemma_le_bytes_len(le_value(rest), rest.len());
        assert(le_bytes(v, s.len()) =~= s);
    }
}

/// Round trip: every operation's encoding decodes back to it.
pub proof fn lemma_encode_decode(op: Operation)
    ensures
        spec_decode(spec_encode(op)) == Some(op),
{
    match op {
        Operation::Transfer { dest, value } => {
            let s = spec_encode(op);
            lemma_le_bytes_len(dest as nat, 8);
            lemma_le_bytes_len(value as nat, 16);
            assert(s.len() == 25);
            assert(s[0] == 0u8);
            assert(s.subrange(1, 9) =~= le_bytes(dest as nat, 8));
            assert(s.subrange(9, 25) =~= le_bytes(value as nat, 16));
            lemma_pow256_values();
            lemma_le_round_trip(dest as nat, 8);
            lemma_le_round_trip(value as nat, 16);
        },
        Operation::Noop => {
            assert(spec_encode(op).len() == 1);
        },
    }
}

/// Injectivity of the wire format: a byte string that decodes to `op` is
/// exactly `op`'s encoding, so no two distinct byte strings decode to the
/// same operation.
pub proof fn lemma_decode_encode(s: Seq<u8>, op: Operation)
    requires
        spec_decode(s) == Some(op),
    ensures
        spec_encode(op) == s,
{
    if s.len() == 25 && s[0] == 0u8 {
        let dest_bytes = s.subrange(1, 9);
        let value_bytes = s.subrange(9, 25);
        lemma_le_value_bound(dest_bytes);
        lemma_le_value_bound(value_bytes);
        lemma_pow256_values();
        lemma_le_bytes_of_value(dest_bytes);
        lemma_le_bytes_of_value(value_bytes);
        assert(spec_encode(op) =~= s);
    } else {
        assert(spec_encode(op) =~= s);
    }
}

/// Appends the `n`-byte little-endian representation of `x` to `out`.
fn push_le(out: &mut Vec<u8>, x: u128, n: usize)
    ensures
        final(out)@ == old(out)@ + le_bytes(x as nat, n as nat),
{
    let mut v: u128 = x;
    let mut i: usize = 0;
    while i < n
        invariant
            i <= n,
            out@ + le_bytes(v as nat, (n - i) as nat) == old(out)@ + le_bytes(
                x as nat,
                n as nat,
            ),
        decreases n - i,
    {
        let ghost prev = out@;
        let ghost prev_v = v as nat;
        let byte: u8 = (v % 256) as u8;
        out.push(byte);
        v = v / 256;
        i = i + 1;
        proof {
            assert(le_bytes(prev_v, (n - i + 1) as nat) == seq![(prev_v % 256) as u8] + le_bytes(
                prev_v / 256,
                (n - i) as nat,
            ));
            assert(out@ + le_bytes(v as nat, (n - i) as nat) =~= prev + le_bytes(
                prev_v,
                (n - i + 1) as nat,
            ));
        }
    }
    proof {
        assert(out@ + le_bytes(v as nat, 0) =~= out@);
    }
}

/// Reads the `n` bytes starting at `start` as a little-endian value.
fn read_le(bytes: &Vec<u8>, start: usize, n: usize) -> (r: u128)
    requires
        start + n <= bytes@.len(),
        n <= 16,
    ensures
        r as nat == le_value(bytes@.subrange(start as int, (start + n) as int)),
{
    let len: usize = bytes.len();
    let mut acc: u128 = 0;
    let mut j: usize = n;
    proof {
        assert(bytes@.subrange((start + n) as int, (start + n) as int) =~= Seq::empty());
    }
    while j > 0
        invariant
            j <= n,
            n <= 16,
            start + n <= bytes@.len(),
            bytes@.len() <= usize::MAX,
            acc as nat == le_value(bytes@.subrange((start + j) as int, (start + n) as int)),
            (acc as nat) < pow256((n - j) as nat),
        decreases j,
    {
        j = j - 1;
        let ghost tail = bytes@.subrange((start + j + 1) as int, (start + n) as int);
        let ghost whole = bytes@.subrange((start + j) as int, (start + n) as int);
        proof {
            assert(whole.drop_first() =~= tail);
            lemma_pow256_increases((n - j - 1) as nat, 15);
            lemma_pow256_values();
            assert(pow256(15) * 256 == pow256(16)) by {
                reveal_with_fuel(pow256, 17);
            }
        }
        acc = acc * 256 + bytes[start + j] as u128;
    }
    proof {
        assert(bytes@.subrange((start + j) as int, (start + n) as int) =~= bytes@.subrange(
            start as int,
            (start + n) as int,
        ));
    }
    acc
}

/// Encodes an operation into its exact wire bytes.
pub fn encode_operation(op: &Operation) -> (r: Vec<u8>)
    ensures
        r@ == spec_encode(*op),
{
    let mut out: Vec<u8> = Vec::new();
    match op {
        Operation::Transfer { dest, value } => {
            out.push(0u8);
            push_le(&mut out, *dest as u128, 8);
            push_le(&mut out, *value, 16);
            proof {
                assert(out@ =~= spec_encode(*op));
            }
        },
        Operation::Noop => {
            out.push(1u8);
            proof {
                assert(out@ =~= spec_encode(*op));
            }
        },
    }
    out
}

/// Decodes wire bytes into an operation; `None` on any malformed input.
pub fn decode_operation(bytes: &Vec<u8>) -> (r: Option<Operation>)
    ensures
        r == spec_decode(bytes@),
{
    if bytes.len() == 25 && bytes[0] == 0u8 {
        let dest_wide = read_le(bytes, 1, 8);
        let value = read_le(bytes, 9, 16);
        proof {
            lemma_le_value_bound(bytes@.subrange(1, 9));
            lemma_pow256_values();
        }
        let dest: u64 = dest_wide as u64;
        Some(Operation::Transfer { dest, value })
    } else if bytes.len() == 1 && bytes[0] == 1u8 {
        Some(Operation::Noop)
    } else {
        None
    }
}

} // verus!
