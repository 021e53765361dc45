//! Verified text building: decimal and hexadecimal rendering of integers,
//! string equality and prefix tests, and the label/string escapes used by the
//! emitted program text.
use vstd::prelude::*;

verus! {

use vstd::string::StrSliceExecFns;
use vstd::string::StringExecFns;

/// The decimal digit character for `d` (`d < 10`).
pub open spec fn dec_digit(d: nat) -> char {
    if d == 0 {
        '0'
    } else if d == 1 {
        '1'
    } else if d == 2 {
        '2'
    } else if d == 3 {
        '3'
    } else if d == 4 {
        '4'
    } else if d == 5 {
        '5'
    } else if d == 6 {
        '6'
    } else if d == 7 {
        '7'
    } else if d == 8 {
        '8'
    } else {
        '9'
    }
}

/// The lower-case hexadecimal digit character for `d` (`d < 16`).
pub open spec fn hex_digit(d: nat) -> char {
    if d < 10 {
        dec_digit(d)
    } else if d == 10 {
        'a'
    } else if d == 11 {
        'b'
    } else if d == 12 {
        'c'
    } else if d == 13 {
        'd'
    } else if d == 14 {
        'e'
    } else {
        'f'
    }
}

/// The decimal rendering of `n`, without leading zeros (a single `0` for 0).
pub open spec fn dec_seq(n: nat) -> Seq<char>
    decreases n,
{
    if n < 10 {
        seq![dec_digit(n)]
    } else {
        dec_seq(n / 10).push(dec_digit(n % 10))
    }
}

/// The hexadecimal rendering of `n`, lower case, without leading zeros.
pub open spec fn hex_seq(n: nat) -> Seq<char>
    decreases n,
{
    if n < 16 {
        seq![hex_digit(n)]
    } else {
        hex_seq(n / 16).push(hex_digit(n % 16))
    }
}

/// The decimal rendering of a signed value: a minus sign before the
/// magnitude when negative.
pub open spec fn dec_seq_signed(n: int) -> Seq<char> {
    if n < 0 {
        seq!['-'] + dec_seq((-n) as nat)
    } else {
        dec_seq(n as nat)
    }
}

fn dec_digit_str(d: u64) -> (r: &'static str)
    requires
        d < 10,
    ensures
        r@ == seq![dec_digit(d as nat)],
{
    proof {
        reveal_strlit("0");
        reveal_strlit("1");
        reveal_strlit("2");
        reveal_strlit("3");
        reveal_strlit("4");
        reveal_strlit("5");
        reveal_strlit("6");
        reveal_strlit("7");
        reveal_strlit("8");
        reveal_strlit("9");
    }
    if d == 0 {
        "0"
    } else if d == 1 {
        "1"
    } else if d == 2 {
        "2"
    } else if d == 3 {
        "3"
    } else if d == 4 {
        "4"
    } else if d == 5 {
        "5"
    } else if d == 6 {
        "6"
    } else if d == 7 {
        "7"
    } else if d == 8 {
        "8"
    } else {
        "9"
    }
}

fn hex_digit_str(d: u64) -> (r: &'static str)
    requires
        d < 16,
    ensures
        r@ == seq![hex_digit(d as nat)],
{
    proof {
        reveal_strlit("a");
        reveal_strlit("b");
        reveal_strlit("c");
        reveal_strlit("d");
        reveal_strlit("e");
        reveal_strlit("f");
    }
    if d < 10 {
        dec_digit_str(d)
    } else if d == 10 {
        "a"
    } else if d == 11 {
        "b"
    } else if d == 12 {
        "c"
    } else if d == 13 {
        "d"
    } else if d == 14 {
        "e"
    } else {
        "f"
    }
}

/// Renders `n` in decimal.
pub fn dec_u64(n: u64) -> (r: String)
    ensures
        r@ == dec_seq(n as nat),
    decreases n,
{
    if n < 10 {
        String::from_str(dec_digit_str(n))
    } else {
        let mut s = dec_u64(n / 10);
        s.append(dec_digit_str(n % 10));
        s
    }
}

/// Renders `n` in decimal.
pub fn dec_u32(n: u32) -> (r: String)
    ensures
        r@ == dec_seq(n as nat),
{
    dec_u64(n as u64)
}

/// Renders `n` in decimal, with a minus sign when negative.
pub fn dec_i64(n: i64) -> (r: String)
    ensures
        r@ == dec_seq_signed(n as int),
{
    if n < 0 {
        proof {
            reveal_strlit("-");
        }
        let mut s = String::from_str("-");
        let m: u64 = if n == i64::MIN {
            0x8000_0000_0000_0000u64
        } else {
            (-n) as u64
        };
        assert(m == -(n as int));
        let d = dec_u64(m);
        s.append(d.as_str());
        assert(s@ == seq!['-'] + dec_seq((-(n as int)) as nat));
        s
    } else {
        dec_u64(n as u64)
    }
}

/// Renders `n` in decimal, with a minus sign when negative.
pub fn dec_i32(n: i32) -> (r: String)
    ensures
        r@ == dec_seq_signed(n as int),
{
    dec_i64(n as i64)
}

/// Renders `n` in lower-case hexadecimal, without a prefix.
pub fn hex_u64(n: u64) -> (r: String)
    ensures
        r@ == hex_seq(n as nat),
    decreases n,
{
    if n < 16 {
        String::from_str(hex_digit_str(n))
    } else {
        let mut s = hex_u64(n / 16);
        s.append(hex_digit_str(n % 16));
        s
    }
}

/// Renders `n` in lower-case hexadecimal, without a prefix.
pub fn hex_u32(n: u32) -> (r: String)
    ensures
        r@ == hex_seq(n as nat),
{
    hex_u64(n as u64)
}

/// Character-wise string equality.
pub fn str_eq(a: &str, b: &str) -> (r: bool)
    ensures
        r == (a@ == b@),
{
    let la = a.unicode_len();
    let lb = b.unicode_len();
    if la != lb {
        assert(a@ != b@) by {
            assert(a@.len() != b@.len());
        }
        return false;
    }
    let mut i: usize = 0;
    while i < la
        invariant
            i <= la,
            la == a@.len(),
            la == b@.len(),
            forall|j: int| 0 <= j < i ==> a@[j] == b@[j],
        decreases la - i,
    {
        if a.get_char(i) != b.get_char(i) {
            return false;
        }
        i += 1;
    }
    proof {
        assert(a@ =~= b@);
    }
    true
}

/// Whether `p` is a prefix of `s`.
pub open spec fn has_prefix(s: Seq<char>, p: Seq<char>) -> bool {
    p.len() <= s.len() && s.subrange(0, p.len() as int) =~= p
}

/// Character-wise prefix test.
pub fn str_has_prefix(s: &str, p: &str) -> (r: bool)
    ensures
        r == has_prefix(s@, p@),
{
    let ls = s.unicode_len();
    let lp = p.unicode_len();
    if lp > ls {
        return false;
    }
    let mut i: usize = 0;
    while i < lp
        invariant
            i <= lp,
            lp <= ls,
            ls == s@.len(),
            lp == p@.len(),
            forall|j: int| 0 <= j < i ==> s@[j] == p@[j],
        decreases lp - i,
    {
        if s.get_char(i) != p.get_char(i) {
            assert(!has_prefix(s@, p@)) by {
                assert(s@.subrange(0, p@.len() as int)[i as int] != p@[i as int]);
            }
            return false;
        }
        i += 1;
    }
    proof {
        assert(s@.subrange(0, p@.len() as int) =~= p@);
    }
    true
}

/// Relies on char::to_string of std: the returned text is that one character.
#[verifier::external_body]
fn char_to_string(c: char) -> (r: String)
    ensures
        r@ == seq![c],
{
    c.to_string()
}

/// How one character of a label is escaped: `.` and `/` are replaced by
/// names that the target dialect accepts.
pub open spec fn escape_char(c: char) -> Seq<char> {
    if c == '.' {
        "_dot_"@
    } else if c == '/' {
        "_slash_"@
    } else {
        seq![c]
    }
}

/// The escaped form of a label.
pub open spec fn escape_seq(s: Seq<char>) -> Seq<char>
    decreases s.len(),
{
    if s.len() == 0 {
        Seq::empty()
    } else {
        escape_char(s[0]) + escape_seq(s.drop_first())
    }
}

proof fn lemma_escape_snoc(s: Seq<char>, c: char)
    ensures
        escape_seq(s.push(c)) == escape_seq(s) + escape_char(c),
    decreases s.len(),
{
    if s.len() == 0 {
        assert(s.push(c).drop_first() =~= s);
        assert(escape_seq(s.push(c)) =~= escape_seq(s) + escape_char(c));
    } else {
        assert(s.push(c).drop_first() =~= s.drop_first().push(c));
        lemma_escape_snoc(s.drop_first(), c);
        assert(escape_seq(s.push(c)) =~= escape_seq(s) + escape_char(c));
    }
}

/// Escapes a label for the target dialect: `.` becomes `_dot_`, `/` becomes
/// `_slash_`.
pub fn escape_label(l: &str) -> (r: String)
    ensures
        r@ == escape_seq(l@),
{
    let len = l.unicode_len();
    let mut r = String::new();
    let mut i: usize = 0;
    while i < len
        invariant
            i <= len,
            len == l@.len(),
            r@ == escape_seq(l@.take(i as int)),
        decreases len - i,
    {
        let c = l.get_char(i);
        if c == '.' {
            r.append("_dot_");
        } else if c == '/' {
            r.append("_slash_");
        } else {
            let cs = char_to_string(c);
            r.append(cs.as_str());
        }
        proof {
            assert(l@.take(i + 1) =~= l@.take(i as int).push(l@[i as int]));
            lemma_escape_snoc(l@.take(i as int), l@[i as int]);
        }
        i += 1;
    }
    proof {
        assert(l@.take(len as int) =~= l@);
    }
    r
}

/// How one character inside a quoted string is escaped: backslash and double
/// quote get a leading backslash.
pub open spec fn quote_escape_char(c: char) -> Seq<char> {
    if c == '\\' {
        "\\\\"@
    } else if c == '"' {
        "\\\""@
    } else {
        seq![c]
    }
}

/// The body of a quoted string: every character escaped.
pub open spec fn quote_escape_seq(s: Seq<char>) -> Seq<char>
    decreases s.len(),
{
    if s.len() == 0 {
        Seq::empty()
    } else {
        quote_escape_char(s[0]) + quote_escape_seq(s.drop_first())
    }
}

/// The quoted form of a string: escaped body between double quotes.
pub open spec fn quote_seq(s: Seq<char>) -> Seq<char> {
    seq!['"'] + quote_escape_seq(s) + seq!['"']
}

proof fn lemma_quote_escape_snoc(s: Seq<char>, c: char)
    ensures
        quote_escape_seq(s.push(c)) == quote_escape_seq(s) + quote_escape_char(c),
    decreases s.len(),
{
    if s.len() == 0 {
        assert(s.push(c).drop_first() =~= s);
        assert(quote_escape_seq(s.push(c)) =~= quote_escape_seq(s) + quote_escape_char(c));
    } else {
        assert(s.push(c).drop_first() =~= s.drop_first().push(c));
        lemma_quote_escape_snoc(s.drop_first(), c);
        assert(quote_escape_seq(s.push(c)) =~= quote_escape_seq(s) + quote_escape_char(c));
    }
}

/// Quotes a string for the emitted program text, escaping backslashes and
/// double quotes.
pub fn quote(s: &str) -> (r: String)
    ensures
        r@ == quote_seq(s@),
{
    proof {
        reveal_strlit("\"");
    }
    let len = s.unicode_len();
    let mut r = String::from_str("\"");
    let mut i: usize = 0;
    while i < len
        invariant
            i <= len,
            len == s@.len(),
            r@ == seq!['"'] + quote_escape_seq(s@.take(i as int)),
        decreases len - i,
    {
        let c = s.get_char(i);
        if c == '\\' {
            r.append("\\\\");
        } else if c == '"' {
            r.append("\\\"");
        } else {
            let cs = char_to_string(c);
            r.append(cs.as_str());
        }
        proof {
            assert(s@.take(i + 1) =~= s@.take(i as int).push(s@[i as int]));
            lemma_quote_escape_snoc(s@.take(i as int), s@[i as int]);
        }
        i += 1;
    }
    r.append("\"");
    proof {
        assert(s@.take(len as int) =~= s@);
        assert(r@ =~= quote_seq(s@));
    }
    r
}

} // verus!
