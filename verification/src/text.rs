//! Character-level helpers shared by the whole pipeline: identifier and
//! package-name validation, and decimal rendering of version numbers.

use vstd::prelude::*;

verus! {

/// A character that may begin a Rust identifier.
pub open spec fn is_ident_start(c: char) -> bool {
    ('a' <= c && c <= 'z') || ('A' <= c && c <= 'Z') || c == '_'
}

/// A character that may continue a Rust identifier.
pub open spec fn is_ident_continue(c: char) -> bool {
    is_ident_start(c) || ('0' <= c && c <= '9')
}

/// A syntactically valid Rust identifier: non-empty, a start character
/// followed by continue characters.
pub open spec fn is_identifier(s: Seq<char>) -> bool {
    &&& s.len() > 0
    &&& is_ident_start(s[0])
    &&& forall|i: int| 1 <= i < s.len() ==> is_ident_continue(#[trigger] s[i])
}

/// A character allowed anywhere in a package name.
pub open spec fn is_package_name_char(c: char) -> bool {
    is_ident_continue(c) || c == '-'
}

/// A valid package name: non-empty, starts with a letter or underscore,
/// and contains only letters, digits, underscores and hyphens.
pub open spec fn is_package_name(s: Seq<char>) -> bool {
    &&& s.len() > 0
    &&& is_ident_start(s[0])
    &&& forall|i: int| 0 <= i < s.len() ==> is_package_name_char(#[trigger] s[i])
}

/// Decides `is_ident_start`.
pub fn check_ident_start(c: char) -> (b: bool)
    ensures
        b == is_ident_start(c),
{
    ('a' <= c && c <= 'z') || ('A' <= c && c <= 'Z') || c == '_'
}

/// Decides `is_ident_continue`.
pub fn check_ident_continue(c: char) -> (b: bool)
    ensures
        b == is_ident_continue(c),
{
    check_ident_start(c) || ('0' <= c && c <= '9')
}

/// Decides `is_identifier` for a string slice.
pub fn check_identifier(s: &str) -> (b: bool)
    ensures
        b == is_identifier(s@),
{
    let n = s.unicode_len();
    if n == 0 {
        return false;
    }
    if !check_ident_start(s.get_char(0)) {
        return false;
    }
    let mut i: usize = 1;
    while i < n
        invariant
            1 <= i <= n,
            n == s@.len(),
            is_ident_start(s@[0]),
            forall|j: int| 1 <= j < i ==> is_ident_continue(#[trigger] s@[j]),
        decreases n - i,
    {
        if !check_ident_continue(s.get_char(i)) {
            return false;
        }
        i = i + 1;
    }
    true
}

/// Decides `is_package_name` for a string slice.
pub fn check_package_name(s: &str) -> (b: bool)
    ensures
        b == is_package_name(s@),
{
    let n = s.unicode_len();
    if n == 0 {
        return false;
    }
    if !check_ident_start(s.get_char(0)) {
        return false;
    }
    let mut i: usize = 0;
    while i < n
        invariant
            0 <= i <= n,
            n == s@.len(),
            is_ident_start(s@[0]),
            forall|j: int| 0 <= j < i ==> is_package_name_char(#[trigger] s@[j]),
        decreases n - i,
    {
        let c = s.get_char(i);
        if !(check_ident_continue(c) || c == '-') {
            return false;
        }
        i = i + 1;
    }
    true
}

/// The decimal digit character for a value below ten.
pub open spec fn dec_digit(d: nat) -> char {
    if d == 0 {
        '0'
    } else if d == 1 {
        '1'
    } else if d == 2 {
        '2'
    } else if d == 3 {
        '3'
    } else if d == 4 {
        '4'
    } else if d == 5 {
        '5'
    } else if d == 6 {
        '6'
    } else if d == 7 {
        '7'
    } else if d == 8 {
        '8'
    } else {
        '9'
    }
}

/// The decimal rendering of a natural number, most significant digit first.
pub open spec fn dec_of(n: nat) -> Seq<char>
    decreases n,
{
    if n < 10 {
        seq![dec_digit(n)]
    } else {
        dec_of(n / 10).push(dec_digit(n % 10))
    }
}

/// Whether a character is a decimal digit.
pub open spec fn is_dec_digit(c: char) -> bool {
    '0' <= c && c <= '9'
}

/// Every character of a decimal rendering is a digit.
pub proof fn lemma_dec_of_digits(n: nat)
    ensures
        dec_of(n).len() >= 1,
        forall|i: int| 0 <= i < dec_of(n).len() ==> is_dec_digit(#[trigger] dec_of(n)[i]),
    decreases n,
{
    if n >= 10 {
        lemma_dec_of_digits(n / 10);
    }
}

/// A number renders to a single digit exactly when it is below ten.
pub proof fn lemma_dec_of_len(n: nat)
    ensures
        n < 10 <==> dec_of(n).len() == 1,
    decreases n,
{
    if n >= 10 {
        lemma_dec_of_digits(n / 10);
    }
}

/// Distinct numbers have distinct decimal renderings.
pub proof fn lemma_dec_of_injective(a: nat, b: nat)
    ensures
        dec_of(a) == dec_of(b) ==> a == b,
    decreases a + b,
{
    if dec_of(a) == dec_of(b) {
        lemma_dec_of_len(a);
        lemma_dec_of_len(b);
        if a < 10 && b < 10 {
            assert(dec_of(a)[0] == dec_of(b)[0]);
            assert(a == b);
        } else if a >= 10 && b >= 10 {
            let la = dec_of(a / 10).len();
            assert(dec_of(a).len() == la + 1);
            assert(dec_of(b).len() == dec_of(b / 10).len() + 1);
            assert(dec_of(a)[la as int] == dec_of(b)[la as int]);
            assert(dec_digit(a % 10) == dec_digit(b % 10));
            assert(a % 10 == b % 10);
            assert(dec_of(a / 10) =~= dec_of(b / 10)) by {
                assert(forall|i: int|
                    0 <= i < la ==> #[trigger] dec_of(a / 10)[i] == dec_of(a)[i]
                        && dec_of(b / 10)[i] == dec_of(b)[i]);
            }
            lemma_dec_of_injective(a / 10, b / 10);
            assert(a == (a / 10) * 10 + a % 10) by (nonlinear_arith);
            assert(b == (b / 10) * 10 + b % 10) by (nonlinear_arith);
        } else {
            assert(dec_of(a).len() == dec_of(b).len());
            assert(false);
        }
    }
}

/// The string for one decimal digit.
fn digit_str(d: u64) -> (r: &'static str)
    requires
        d < 10,
    ensures
        r@ =~= seq![dec_digit(d as nat)],
{
    proof {
        reveal_strlit("0");
        reveal_strlit("1");
        reveal_strlit("2");
        reveal_strlit("3");
        reveal_strlit("4");
        reveal_strlit("5");
        reveal_strlit("6");
        reveal_strlit("7");
        reveal_strlit("8");
        reveal_strlit("9");
    }
    match d {
        0 => "0",
        1 => "1",
        2 => "2",
        3 => "3",
        4 => "4",
        5 => "5",
        6 => "6",
        7 => "7",
        8 => "8",
        _ => "9",
    }
}

/// How many newline characters a text holds.
pub open spec fn newline_count(s: Seq<char>) -> nat
    decreases s.len(),
{
    if s.len() == 0 {
        0
    } else {
        newline_count(s.drop_last()) + if s.last() == '\n' {
            1nat
        } else {
            0nat
        }
    }
}

/// No text holds more newlines than characters.
pub proof fn lemma_newline_count_le_len(s: Seq<char>)
    ensures
        newline_count(s) <= s.len(),
    decreases s.len(),
{
    if s.len() > 0 {
        lemma_newline_count_le_len(s.drop_last());
    }
}

/// The number of lines of a text: its newline count plus one, the count a
/// diagnostic's line number is measured against.
pub fn line_count(s: &str) -> (r: usize)
    requires
        s@.len() < usize::MAX,
    ensures
        r == newline_count(s@) + 1,
{
    proof {
        lemma_newline_count_le_len(s@);
    }
    let n = s.unicode_len();
    let mut count: usize = 0;
    let mut i: usize = 0;
    while i < n
        invariant
            0 <= i <= n,
            n == s@.len(),
            n < usize::MAX,
            count == newline_count(s@.take(i as int)),
            count <= i,
        decreases n - i,
    {
        let c = s.get_char(i);
        proof {
            let pre = s@.take(i as int);
            let cur = s@.take(i + 1);
            assert(cur.drop_last() =~= pre);
            assert(cur.last() == s@[i as int]);
        }
        if c == '\n' {
            count = count + 1;
        }
        i = i + 1;
    }
    assert(s@.take(n as int) =~= s@);
    count + 1
}

/// Renders a number in decimal, most significant digit first.
pub fn u64_to_dec(n: u64) -> (r: String)
    ensures
        r@ == dec_of(n as nat),
    decreases n,
{
    if n < 10 {
        let r = String::from_str(digit_str(n));
        assert(r@ =~= dec_of(n as nat));
        r
    } else {
        let mut r = u64_to_dec(n / 10);
        r.append(digit_str(n % 10));
        assert(r@ =~= dec_of(n as nat));
        r
    }
}

} // verus!
