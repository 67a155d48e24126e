//! Human-readable byte counts: `"<n> B"`, `"<n> KB"`, `"<n> MB"`, `"<n> GB"`.

use vstd::prelude::*;
use vstd::string::*;

verus! {

/// One decimal digit, `0 <= d < 10`, as its character.
pub open spec fn digit_char(d: nat) -> char {
    seq!['0', '1', '2', '3', '4', '5', '6', '7', '8', '9'][d as int]
}

/// The decimal notation of `n`, without leading zeros (`"0"` for zero).
pub open spec fn decimal(n: nat) -> Seq<char>
    decreases n,
{
    if n < 10 {
        seq![digit_char(n)]
    } else {
        decimal(n / 10).push(digit_char(n % 10))
    }
}

pub open spec fn is_digit(c: char) -> bool {
    '0' <= c && c <= '9'
}

/// Which unit a byte count is shown in: 0 for B, 1 for KB, 2 for MB, 3 for GB.
pub open spec fn unit_index(bytes: nat) -> nat {
    if bytes < 1024 {
        0
    } else if bytes < 1024 * 1024 {
        1
    } else if bytes < 1024 * 1024 * 1024 {
        2
    } else {
        3
    }
}

/// The number of bytes in unit `k`.
pub open spec fn unit_bytes(k: nat) -> nat {
    if k == 0 {
        1
    } else if k == 1 {
        1024
    } else if k == 2 {
        1024 * 1024
    } else {
        1024 * 1024 * 1024
    }
}

/// The text that follows the number for unit `k`, leading space included.
pub open spec fn unit_suffix(k: nat) -> Seq<char> {
    if k == 0 {
        seq![' ', 'B']
    } else if k == 1 {
        seq![' ', 'K', 'B']
    } else if k == 2 {
        seq![' ', 'M', 'B']
    } else {
        seq![' ', 'G', 'B']
    }
}

/// The displayed size of `bytes`: the count in its unit, truncated, then the unit.
pub open spec fn size_text(bytes: nat) -> Seq<char> {
    decimal(bytes / unit_bytes(unit_index(bytes))) + unit_suffix(unit_index(bytes))
}

pub open spec fn ends_with(s: Seq<char>, suffix: Seq<char>) -> bool {
    s.len() >= suffix.len() && s.subrange(s.len() - suffix.len(), s.len() as int) == suffix
}

proof fn lemma_decimal_digits(n: nat)
    ensures
        decimal(n).len() >= 1,
        forall|i: int| 0 <= i < decimal(n).len() ==> is_digit(#[trigger] decimal(n)[i]),
    decreases n,
{
    if n >= 10 {
        lemma_decimal_digits(n / 10);
    }
}

/// A size text ends in exactly one of the four unit suffixes, the one its
/// threshold picks, and what precedes it is the byte count divided, truncating,
/// by that unit's size.
pub proof fn lemma_size_suffix(bytes: u64)
    ensures
        size_text(bytes as nat) == decimal(bytes as nat / unit_bytes(unit_index(bytes as nat)))
            + unit_suffix(unit_index(bytes as nat)),
        forall|k: nat|
            k < 4 ==> (ends_with(size_text(bytes as nat), #[trigger] unit_suffix(k)) <==> k
                == unit_index(bytes as nat)),
{
    let u = unit_index(bytes as nat);
    let d = decimal(bytes as nat / unit_bytes(u));
    let t = size_text(bytes as nat);
    lemma_decimal_digits(bytes as nat / unit_bytes(u));
    assert forall|k: nat| k < 4 implies (ends_with(t, #[trigger] unit_suffix(k)) <==> k == u) by {
        let s = unit_suffix(k);
        let last = d[d.len() - 1];
        assert(is_digit(last));
        if k == u {
            assert(t.subrange(t.len() - s.len(), t.len() as int) =~= s);
        } else if ends_with(t, s) {
            let tail = t.subrange(t.len() - s.len(), t.len() as int);
            assert(tail[s.len() - 1] == 'B');
            if s.len() == 2 && unit_suffix(u).len() == 3 {
                assert(tail[0] == t[t.len() - 2]);
                assert(t[t.len() - 2] == unit_suffix(u)[1]);
            } else if s.len() == 3 && unit_suffix(u).len() == 2 {
                assert(tail[1] == t[t.len() - 2]);
                assert(t[t.len() - 2] == ' ');
                assert(tail[0] == t[t.len() - 3]);
                assert(t[t.len() - 3] == last);
            } else {
                assert(tail[1] == t[t.len() - 2]);
                assert(t[t.len() - 2] == unit_suffix(u)[1]);
            }
        }
    }
}

/// The one-character string of digit `d`.
fn digit_str(d: u64) -> (r: &'static str)
    requires
        d < 10,
    ensures
        r@ == seq![digit_char(d as nat)],
{
    if d == 0 {
        proof { reveal_strlit("0"); }
        "0"
    } else if d == 1 {
        proof { reveal_strlit("1"); }
        "1"
    } else if d == 2 {
        proof { reveal_strlit("2"); }
        "2"
    } else if d == 3 {
        proof { reveal_strlit("3"); }
        "3"
    } else if d == 4 {
        proof { reveal_strlit("4"); }
        "4"
    } else if d == 5 {
        proof { reveal_strlit("5"); }
        "5"
    } else if d == 6 {
        proof { reveal_strlit("6"); }
        "6"
    } else if d == 7 {
        proof { reveal_strlit("7"); }
        "7"
    } else if d == 8 {
        proof { reveal_strlit("8"); }
        "8"
    } else {
        proof { reveal_strlit("9"); }
        "9"
    }
}

/// The decimal notation of `n`.
pub fn decimal_string(n: u64) -> (r: String)
    ensures
        r@ == decimal(n as nat),
    decreases n,
{
    if n < 10 {
        String::from_str(digit_str(n))
    } else {
        let mut s = decimal_string(n / 10);
        s.append(digit_str(n % 10));
        s
    }
}

pub const KB: u64 = 1024;

pub const MB: u64 = 1048576;

pub const GB: u64 = 1073741824;

/// The size column of a listing: `bytes` in B, KB, MB or GB, whichever is the
/// largest unit not above it (GB for everything from one gibibyte up), with
/// the count divided by the unit and truncated.
pub fn get_human_readable_size(bytes: u64) -> (r: String)
    ensures
        r@ == size_text(bytes as nat),
{
    let mut s: String;
    if bytes < KB {
        s = decimal_string(bytes);
        proof { reveal_strlit(" B"); }
        s.append(" B");
    } else if bytes < MB {
        s = decimal_string(bytes / KB);
        proof { reveal_strlit(" KB"); }
        s.append(" KB");
    } else if bytes < GB {
        s = decimal_string(bytes / MB);
        proof { reveal_strlit(" MB"); }
        s.append(" MB");
    } else {
        s = decimal_string(bytes / GB);
        proof { reveal_strlit(" GB"); }
        s.append(" GB");
    }
    assert(s@ =~= size_text(bytes as nat));
    s
}

} // verus!
