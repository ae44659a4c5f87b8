//! Deterministic text rendering used in finding evidence: decimal numbers and
//! lowercase hexadecimal byte strings.

use vstd::prelude::*;

verus! {

/// The ASCII character of a decimal or hexadecimal digit value (`0`-`9`, `a`-`f`).
pub open spec fn digit_char(d: nat) -> char {
    if d == 0 { '0' }
    else if d == 1 { '1' }
    else if d == 2 { '2' }
    else if d == 3 { '3' }
    else if d == 4 { '4' }
    else if d == 5 { '5' }
    else if d == 6 { '6' }
    else if d == 7 { '7' }
    else if d == 8 { '8' }
    else if d == 9 { '9' }
    else if d == 10 { 'a' }
    else if d == 11 { 'b' }
    else if d == 12 { 'c' }
    else if d == 13 { 'd' }
    else if d == 14 { 'e' }
    else { 'f' }
}

/// Decimal notation of a natural number, without sign or leading zeros.
pub open spec fn decimal(n: nat) -> Seq<char>
    decreases n,
{
    if n < 10 {
        seq![digit_char(n)]
    } else {
        decimal(n / 10).push(digit_char(n % 10))
    }
}

/// Lowercase hexadecimal notation of a natural number, without prefix or
/// leading zeros.
pub open spec fn hex_number(n: nat) -> Seq<char>
    decreases n,
{
    if n < 16 {
        seq![digit_char(n)]
    } else {
        hex_number(n / 16).push(digit_char(n % 16))
    }
}

/// Two lowercase hexadecimal digits per byte, most significant nibble first.
pub open spec fn hex_bytes(bytes: Seq<u8>) -> Seq<char>
    decreases bytes.len(),
{
    if bytes.len() == 0 {
        seq![]
    } else {
        let b = bytes.last();
        hex_bytes(bytes.drop_last()).push(digit_char((b / 16) as nat)).push(
            digit_char((b % 16) as nat),
        )
    }
}

/// The one-character string literal of a digit value below 16.
fn digit_str(d: u8) -> (s: &'static str)
    requires
        d < 16,
    ensures
        s@ == seq![digit_char(d as nat)],
{
    match d {
        0 => { proof { reveal_strlit("0"); } assert("0"@ =~= seq!['0']); "0" },
        1 => { proof { reveal_strlit("1"); } assert("1"@ =~= seq!['1']); "1" },
        2 => { proof { reveal_strlit("2"); } assert("2"@ =~= seq!['2']); "2" },
        3 => { proof { reveal_strlit("3"); } assert("3"@ =~= seq!['3']); "3" },
        4 => { proof { reveal_strlit("4"); } assert("4"@ =~= seq!['4']); "4" },
        5 => { proof { reveal_strlit("5"); } assert("5"@ =~= seq!['5']); "5" },
        6 => { proof { reveal_strlit("6"); } assert("6"@ =~= seq!['6']); "6" },
        7 => { proof { reveal_strlit("7"); } assert("7"@ =~= seq!['7']); "7" },
        8 => { proof { reveal_strlit("8"); } assert("8"@ =~= seq!['8']); "8" },
        9 => { proof { reveal_strlit("9"); } assert("9"@ =~= seq!['9']); "9" },
        10 => { proof { reveal_strlit("a"); } assert("a"@ =~= seq!['a']); "a" },
        11 => { proof { reveal_strlit("b"); } assert("b"@ =~= seq!['b']); "b" },
        12 => { proof { reveal_strlit("c"); } assert("c"@ =~= seq!['c']); "c" },
        13 => { proof { reveal_strlit("d"); } assert("d"@ =~= seq!['d']); "d" },
        14 => { proof { reveal_strlit("e"); } assert("e"@ =~= seq!['e']); "e" },
        _ => { proof { reveal_strlit("f"); } assert("f"@ =~= seq!['f']); "f" },
    }
}

/// Render `n` in decimal notation.
pub fn decimal_string(n: u128) -> (s: String)
    ensures
        s@ == decimal(n as nat),
    decreases n,
{
    if n < 10 {
        digit_str(n as u8).to_owned()
    } else {
        let mut s = decimal_string(n / 10);
        s.append(digit_str((n % 10) as u8));
        s
    }
}

/// Render bytes as lowercase hexadecimal, two digits per byte.
pub fn hex_string(bytes: &[u8]) -> (s: String)
    ensures
        s@ == hex_bytes(bytes@),
{
    let mut s = "".to_owned();
    proof { reveal_strlit(""); }
    assert(s@ =~= hex_bytes(bytes@.take(0)));
    let mut i: usize = 0;
    while i < bytes.len()
        invariant
            i <= bytes.len(),
            s@ == hex_bytes(bytes@.take(i as int)),
        decreases bytes.len() - i,
    {
        let b = bytes[i];
        s.append(digit_str(b / 16));
        s.append(digit_str(b % 16));
        assert(bytes@.take(i + 1).drop_last() =~= bytes@.take(i as int));
        i = i + 1;
    }
    assert(bytes@.take(bytes.len() as int) =~= bytes@);
    s
}

} // verus!

verus! {

/// Whether two strings hold the same characters.
pub fn str_equal(a: &str, b: &str) -> (r: bool)
    ensures
        r == (a@ == b@),
{
    let n = a.unicode_len();
    if n != b.unicode_len() {
        return false;
    }
    let mut i: usize = 0;
    while i < n
        invariant
            i <= n,
            n == a@.len(),
            n == b@.len(),
            forall|k: int| 0 <= k < i ==> a@[k] == b@[k],
        decreases n - i,
    {
        if a.get_char(i) != b.get_char(i) {
            return false;
        }
        i = i + 1;
    }
    assert(a@ =~= b@);
    true
}

} // verus!

verus! {

/// Whether two byte strings are equal.
pub fn bytes_equal(a: &[u8], b: &[u8]) -> (r: bool)
    ensures
        r == (a@ == b@),
{
    if a.len() != b.len() {
        return false;
    }
    let mut i: usize = 0;
    while i < a.len()
        invariant
            i <= a.len(),
            a.len() == b.len(),
            forall|k: int| 0 <= k < i ==> a@[k] == b@[k],
        decreases a.len() - i,
    {
        if a[i] != b[i] {
            return false;
        }
        i = i + 1;
    }
    assert(a@ =~= b@);
    true
}

} // verus!
