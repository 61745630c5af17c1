//! The rock plugin's decisions: its operations and opcodes, and which
//! addresses it accepts.

use vstd::prelude::*;
use crate::plugin::{plugin_opcode, plugin_opcode_text, PluginName};
use crate::text::str_eq;

verus! {

/// Operations the rock plugin carries out for scenes.
#[derive(Clone, Copy, Debug, PartialEq, Eq, Structural)]
pub enum RockOp {
    Balance,
    Holds,
}

pub open spec fn rock_op_text(op: RockOp) -> Seq<char> {
    match op {
        RockOp::Balance => "BALANCE"@,
        RockOp::Holds => "HOLDS"@,
    }
}

pub open spec fn rock_op_from_text(s: Seq<char>) -> Option<RockOp> {
    if s == "BALANCE"@ {
        Some(RockOp::Balance)
    } else if s == "HOLDS"@ {
        Some(RockOp::Holds)
    } else {
        None
    }
}

impl RockOp {
    pub fn as_str(&self) -> (r: &'static str)
        ensures
            r@ == rock_op_text(*self),
    {
        match self {
            RockOp::Balance => "BALANCE",
            RockOp::Holds => "HOLDS",
        }
    }

    pub fn parse(s: &str) -> (r: Option<RockOp>)
        ensures
            r == rock_op_from_text(s@),
    {
        if str_eq(s, "BALANCE") {
            Some(RockOp::Balance)
        } else if str_eq(s, "HOLDS") {
            Some(RockOp::Holds)
        } else {
            None
        }
    }
}

/// Parsing the text of an operation gives the operation back, and a text
/// that parses is the text of the operation it parses to.
pub proof fn lemma_rock_op_text_round_trip(op: RockOp, s: Seq<char>)
    ensures
        rock_op_from_text(rock_op_text(op)) == Some(op),
        rock_op_from_text(s) == Some(op) ==> rock_op_text(op) == s,
{
    reveal_strlit("BALANCE");
    reveal_strlit("HOLDS");
    match op {
        RockOp::Balance => {
        },
        RockOp::Holds => {
            assert("HOLDS"@.len() != "BALANCE"@.len());
        },
    }
}

/// The opcode scenes yield for a rock operation.
pub fn rock_opcode(op: RockOp) -> (r: String)
    ensures
        r@ == plugin_opcode_text(PluginName::Rock, rock_op_text(op)),
{
    plugin_opcode(PluginName::Rock, op.as_str())
}

pub open spec fn is_hex_digit(c: char) -> bool {
    ('0' <= c && c <= '9') || ('a' <= c && c <= 'f') || ('A' <= c && c <= 'F')
}

pub open spec fn all_hex(s: Seq<char>) -> bool {
    forall|i: int| 0 <= i < s.len() ==> is_hex_digit(#[trigger] s[i])
}

/// The texts an address parses from: 40 hex digits, optionally after `0x`
/// or `0X`.
pub open spec fn is_address_text(s: Seq<char>) -> bool {
    ||| (s.len() == 42 && s[0] == '0' && (s[1] == 'x' || s[1] == 'X') && all_hex(s.subrange(2, 42)))
    ||| (s.len() == 40 && all_hex(s))
}

/// The value of a hex digit.
pub open spec fn hex_value(c: char) -> int {
    if '0' <= c && c <= '9' {
        c as int - '0' as int
    } else if 'a' <= c && c <= 'f' {
        c as int - 'a' as int + 10
    } else {
        c as int - 'A' as int + 10
    }
}

/// The hex digits of an address text, without its `0x` or `0X`.
pub open spec fn address_digits(s: Seq<char>) -> Seq<char> {
    if s.len() == 42 {
        s.subrange(2, 42)
    } else {
        s
    }
}

/// The bytes that pairs of hex digits stand for, high digit first.
pub open spec fn hex_bytes(d: Seq<char>) -> Seq<u8> {
    Seq::new(d.len() / 2, |i: int| (hex_value(d[2 * i]) * 16 + hex_value(d[2 * i + 1])) as u8)
}

/// Calls `<alloy::primitives::Address as FromStr>::from_str` and hands back
/// the address's 20 bytes. The parser strips a `0x`/`0X` prefix and decodes
/// exactly 40 hex digits, either case, high digit first, so it succeeds
/// exactly on the texts of `is_address_text`. The parser's error text is
/// handed back and left unsaid.
#[verifier::external_body]
fn parse_address(s: &str) -> (r: Result<[u8; 20], String>)
    ensures
        r is Ok <==> is_address_text(s@),
        r matches Ok(b) ==> b@ == hex_bytes(address_digits(s@)),
{
    match <alloy::primitives::Address as std::str::FromStr>::from_str(s) {
        Ok(a) => Ok(a.into_array()),
        Err(e) => Err(e.to_string()),
    }
}

/// Why a rock operation was refused.
#[derive(Debug)]
pub enum RockError {
    /// The operation's text names no rock operation.
    UnknownOp(String),
    /// The address does not parse; the address given.
    InvalidAddress(String),
    /// The amount does not parse in the token's decimals; the amount given.
    InvalidAmount(String),
}

/// The operation a scene asked the rock plugin for.
pub fn parse_rock_op(op: &str) -> (r: Result<RockOp, RockError>)
    ensures
        match rock_op_from_text(op@) {
            Some(o) => r matches Ok(p) && p == o,
            None => r matches Err(RockError::UnknownOp(t)) && t@ == op@,
        },
{
    match RockOp::parse(op) {
        Some(o) => Ok(o),
        None => Err(RockError::UnknownOp(op.to_owned())),
    }
}

/// The 20 bytes of the address a balance or holdings check is about.
pub fn check_address(address: &str) -> (r: Result<[u8; 20], RockError>)
    ensures
        r is Ok <==> is_address_text(address@),
        r matches Ok(b) ==> b@ == hex_bytes(address_digits(address@)),
        r matches Err(RockError::InvalidAddress(t)) ==> t@ == address@,
{
    match parse_address(address) {
        Ok(a) => Ok(a),
        Err(_) => Err(RockError::InvalidAddress(address.to_owned())),
    }
}

/// The number that little-endian 64-bit limbs stand for.
pub open spec fn u256_value(l: Seq<u64>) -> int {
    l[0] + l[1] * 0x1_0000_0000_0000_0000int + l[2] * 0x1_0000_0000_0000_0000_0000_0000_0000_0000int + l[3]
        * 0x1_0000_0000_0000_0000_0000_0000_0000_0000_0000_0000_0000_0000int
}

/// The number of bytes a character takes in UTF-8.
pub open spec fn utf8_len(c: char) -> int {
    if (c as u32) < 0x80 {
        1
    } else if (c as u32) < 0x800 {
        2
    } else if (c as u32) < 0x10000 {
        3
    } else {
        4
    }
}

/// The number of bytes a text takes in UTF-8.
pub open spec fn utf8_bytes(s: Seq<char>) -> int
    decreases s.len(),
{
    if s.len() == 0 {
        0
    } else {
        utf8_bytes(s.drop_last()) + utf8_len(s.last())
    }
}

/// The position of the first `.` of `s`, if any.
pub open spec fn first_dot(s: Seq<char>) -> Option<int> {
    if exists|i: int| 0 <= i < s.len() && s[i] == '.' {
        Some(choose|i: int| 0 <= i < s.len() && s[i] == '.' && forall|j: int| 0 <= j < i ==> s[j] != '.')
    } else {
        None
    }
}

/// Whether parsing `amount` in `decimals` decimals cuts the fraction after
/// `decimals` bytes in the middle of a character. The parser drops the
/// fraction's bytes beyond `decimals` by slicing the text, which panics
/// there; a `decimals` above 77 is refused before any slicing.
pub open spec fn amount_cut_splits_char(amount: Seq<char>, decimals: u8) -> bool {
    decimals <= 77 && match first_dot(amount) {
        None => false,
        Some(d) => {
            let tail = amount.skip(d + 1);
            exists|j: int|
                0 <= j < tail.len() && utf8_bytes(#[trigger] tail.take(j)) < decimals && decimals < utf8_bytes(
                    tail.take(j + 1),
                )
        },
    }
}

/// What `alloy::primitives::utils::parse_units` gives for an amount text
/// and a number of decimals, as the limbs of the `U256` it converts to.
pub uninterp spec fn parsed_rock_amount(amount: Seq<char>, decimals: u8) -> Option<Seq<u64>>;

/// Calls `alloy::primitives::utils::parse_units(amount, decimals)` and
/// takes its absolute `U256` (`get_absolute`: a negative amount as its two's
/// complement), handing back its little-endian limbs. The result depends on
/// the two arguments alone and is named `parsed_rock_amount`; more than 77
/// decimals are refused. The inputs on which the parser's slicing panics are
/// left out.
#[verifier::external_body]
fn parse_rock_amount(amount: &str, decimals: u8) -> (r: Option<[u64; 4]>)
    requires
        !amount_cut_splits_char(amount@, decimals),
    ensures
        (match r {
            Some(a) => Some(a@),
            None => None,
        }) == parsed_rock_amount(amount@, decimals),
        decimals > 77 ==> r is None,
{
    match alloy::primitives::utils::parse_units(amount, decimals) {
        Ok(p) => Some(p.get_absolute().into_limbs()),
        Err(_) => None,
    }
}

/// Whether parsing `amount` in `decimals` decimals would cut a character
/// in two; `rock_holds` is only called where it would not.
pub fn amount_cut_splits(amount: &str, decimals: u8) -> (r: bool)
    ensures
        r == amount_cut_splits_char(amount@, decimals),
{
    if decimals > 77 {
        return false;
    }
    let n = amount.unicode_len();
    let mut d: usize = 0;
    let mut found = false;
    while d < n && !found
        invariant
            d <= n,
            n == amount@.len(),
            found ==> d < n && amount@[d as int] == '.',
            forall|j: int| 0 <= j < d ==> amount@[j] != '.',
        decreases n - d + if found { 0int } else { 1int },
    {
        if amount.get_char(d) == '.' {
            found = true;
        } else {
            d = d + 1;
        }
    }
    if !found {
        proof {
            assert(!(exists|i: int| 0 <= i < amount@.len() && amount@[i] == '.'));
        }
        return false;
    }
    let ghost dot = d as int;
    proof {
        assert(amount@[dot] == '.');
        let c = choose|i: int| 0 <= i < amount@.len() && amount@[i] == '.' && forall|j: int| 0 <= j < i ==> amount@[j] != '.';
        assert(c == dot) by {
            if c < dot {
                assert(amount@[c] != '.');
            }
            if dot < c {
                assert(amount@[dot] != '.');
            }
        }
        assert(first_dot(amount@) == Some(dot));
    }
    let ghost tail = amount@.skip(dot + 1);
    let mut acc: u32 = 0;
    let mut j: usize = d + 1;
    while j < n
        invariant
            0 <= dot,
            dot + 1 <= j <= n,
            first_dot(amount@) == Some(dot),
            n == amount@.len(),
            tail == amount@.skip(dot + 1),
            decimals <= 77,
            acc as int == utf8_bytes(tail.take(j - dot - 1)),
            acc <= decimals,
            forall|k: int| 0 <= k < j - dot - 1 ==> !(utf8_bytes(#[trigger] tail.take(k)) < decimals && decimals
                < utf8_bytes(tail.take(k + 1))),
        decreases n - j,
    {
        let c = amount.get_char(j);
        let len: u32 = if (c as u32) < 0x80 {
            1
        } else if (c as u32) < 0x800 {
            2
        } else if (c as u32) < 0x10000 {
            3
        } else {
            4
        };
        let ghost k = j - dot - 1;
        proof {
            assert(tail.len() == n - dot - 1);
            assert(tail[k] == amount@[j as int]);
            assert(tail.take(k + 1).drop_last() =~= tail.take(k));
            assert(tail.take(k + 1).last() == c);
        }
        assert(len as int == utf8_len(c));
        assert(utf8_bytes(tail.take(k + 1)) == acc + len);
        if acc < decimals as u32 && (decimals as u32) < acc + len {
            proof {
                assert(utf8_bytes(tail.take(k)) < decimals && decimals < utf8_bytes(tail.take(k + 1)));
                assert(0 <= k < tail.len());
                let t2 = amount@.skip(first_dot(amount@)->0 + 1);
                assert(t2 == tail);
                assert(utf8_bytes(t2.take(k)) < decimals && decimals < utf8_bytes(t2.take(k + 1)));
                assert(amount_cut_splits_char(amount@, decimals));
            }
            return true;
        }
        if acc + len > decimals as u32 {
            proof {
                assert(acc == decimals);
                lemma_no_later_split(tail, k, decimals);
            }
            return false;
        }
        acc = acc + len;
        j = j + 1;
    }
    proof {
        assert(tail.take(tail.len() as int) =~= tail);
    }
    false
}

proof fn lemma_utf8_bytes_grow(s: Seq<char>, a: int, b: int)
    requires
        0 <= a <= b <= s.len(),
    ensures
        utf8_bytes(s.take(a)) <= utf8_bytes(s.take(b)),
        a < b ==> utf8_bytes(s.take(a)) < utf8_bytes(s.take(b)),
    decreases b - a,
{
    if a < b {
        lemma_utf8_bytes_grow(s, a, b - 1);
        assert(s.take(b).drop_last() =~= s.take(b - 1));
    }
}

/// Once the fraction's bytes have reached `decimals` exactly at position
/// `k`, no later character straddles it.
proof fn lemma_no_later_split(tail: Seq<char>, k: int, decimals: u8)
    requires
        0 <= k < tail.len(),
        utf8_bytes(tail.take(k)) == decimals,
    ensures
        forall|m: int| 0 <= m < tail.len() ==> !(utf8_bytes(#[trigger] tail.take(m)) < decimals && decimals
            < utf8_bytes(tail.take(m + 1))),
{
    assert forall|m: int| 0 <= m < tail.len() implies !(utf8_bytes(#[trigger] tail.take(m)) < decimals
        && decimals < utf8_bytes(tail.take(m + 1))) by {
        if m < k {
            lemma_utf8_bytes_grow(tail, m + 1, k);
        } else {
            lemma_utf8_bytes_grow(tail, k, m);
        }
    }
}

/// Whether the limbs `a` stand for at least the number `b` stands for.
fn u256_ge(a: &[u64; 4], b: &[u64; 4]) -> (r: bool)
    ensures
        r == (u256_value(a@) >= u256_value(b@)),
{
    if a[3] != b[3] {
        a[3] > b[3]
    } else if a[2] != b[2] {
        a[2] > b[2]
    } else if a[1] != b[1] {
        a[1] > b[1]
    } else {
        a[0] >= b[0]
    }
}

/// `rock.holds`: whether the balance, as limbs, holds at least the amount,
/// parsed in the token's decimals; refused when the amount does not parse.
pub fn rock_holds(balance: [u64; 4], amount: &str, decimals: u8) -> (r: Result<bool, RockError>)
    requires
        !amount_cut_splits_char(amount@, decimals),
    ensures
        match parsed_rock_amount(amount@, decimals) {
            Some(a) => r == Ok::<bool, RockError>(u256_value(balance@) >= u256_value(a)),
            None => r matches Err(RockError::InvalidAmount(t)) && t@ == amount@,
        },
{
    match parse_rock_amount(amount, decimals) {
        Some(a) => Ok(u256_ge(&balance, &a)),
        None => Err(RockError::InvalidAmount(amount.to_owned())),
    }
}

} // verus!
