//! Character-level string utilities: edge trimming, identifier heads,
//! decimal rendering and searching, each with an exact specification.

use vstd::prelude::*;
use vstd::string::*;

verus! {

/// Length of the longest prefix of `s` made of the character `c` alone.
pub open spec fn leading_count(s: Seq<char>, c: char) -> nat
    decreases s.len(),
{
    if s.len() > 0 && s[0] == c {
        1 + leading_count(s.skip(1), c)
    } else {
        0
    }
}

/// Length of the longest suffix of `s` made of the character `c` alone.
pub open spec fn trailing_count(s: Seq<char>, c: char) -> nat
    decreases s.len(),
{
    if s.len() > 0 && s[s.len() - 1] == c {
        1 + trailing_count(s.take(s.len() - 1), c)
    } else {
        0
    }
}

/// `s` with its maximal leading run and then its maximal trailing run of `c`
/// removed; interior occurrences of `c` are kept.
pub open spec fn trim_edges(s: Seq<char>, c: char) -> Seq<char> {
    let rest = s.skip(leading_count(s, c) as int);
    rest.take(rest.len() - trailing_count(rest, c))
}

pub proof fn lemma_leading_count_facts(s: Seq<char>, c: char)
    ensures
        leading_count(s, c) <= s.len(),
        forall|j: int| 0 <= j < leading_count(s, c) ==> s[j] == c,
        leading_count(s, c) < s.len() ==> s[leading_count(s, c) as int] != c,
    decreases s.len(),
{
    if s.len() > 0 && s[0] == c {
        lemma_leading_count_facts(s.skip(1), c);
        assert forall|j: int| 0 <= j < leading_count(s, c) implies s[j] == c by {
            if j > 0 {
                assert(s.skip(1)[j - 1] == c);
            }
        }
    }
}

pub proof fn lemma_leading_count_unique(s: Seq<char>, c: char, i: nat)
    requires
        i <= s.len(),
        forall|j: int| 0 <= j < i ==> s[j] == c,
        i < s.len() ==> s[i as int] != c,
    ensures
        leading_count(s, c) == i,
    decreases s.len(),
{
    if s.len() > 0 && s[0] == c {
        assert(i > 0);
        assert forall|j: int| 0 <= j < i - 1 implies s.skip(1)[j] == c by {
            assert(s[j + 1] == c);
        }
        lemma_leading_count_unique(s.skip(1), c, (i - 1) as nat);
    } else {
        assert(i == 0);
    }
}

pub proof fn lemma_trailing_count_facts(s: Seq<char>, c: char)
    ensures
        trailing_count(s, c) <= s.len(),
        forall|j: int| s.len() - trailing_count(s, c) <= j < s.len() ==> s[j] == c,
        trailing_count(s, c) < s.len() ==> s[s.len() - trailing_count(s, c) - 1] != c,
    decreases s.len(),
{
    if s.len() > 0 && s[s.len() - 1] == c {
        lemma_trailing_count_facts(s.take(s.len() - 1), c);
        assert forall|j: int| s.len() - trailing_count(s, c) <= j < s.len() implies s[j] == c by {
            if j < s.len() - 1 {
                assert(s.take(s.len() - 1)[j] == c);
            }
        }
    }
}

pub proof fn lemma_trailing_count_unique(s: Seq<char>, c: char, i: nat)
    requires
        i <= s.len(),
        forall|j: int| s.len() - i <= j < s.len() ==> s[j] == c,
        i < s.len() ==> s[s.len() - i - 1] != c,
    ensures
        trailing_count(s, c) == i,
    decreases s.len(),
{
    if s.len() > 0 && s[s.len() - 1] == c {
        assert(i > 0);
        lemma_trailing_count_unique(s.take(s.len() - 1), c, (i - 1) as nat);
    } else {
        if s.len() > 0 {
            assert(i == 0);
        }
    }
}

/// Count how many copies of `c` open the string.
pub fn count_leading(s: &str, c: char) -> (n: usize)
    ensures
        n == leading_count(s@, c),
{
    let len: usize = s.unicode_len();
    let mut i: usize = 0;
    while i < len && s.get_char(i) == c
        invariant
            i <= len,
            len == s@.len(),
            forall|j: int| 0 <= j < i ==> s@[j] == c,
        decreases len - i,
    {
        i = i + 1;
    }
    proof {
        lemma_leading_count_unique(s@, c, i as nat);
    }
    i
}

/// Count how many copies of `c` close the string.
pub fn count_trailing(s: &str, c: char) -> (n: usize)
    ensures
        n == trailing_count(s@, c),
{
    let len: usize = s.unicode_len();
    let mut i: usize = 0;
    while i < len && s.get_char(len - i - 1) == c
        invariant
            i <= len,
            len == s@.len(),
            forall|j: int| len - i <= j < len ==> s@[j] == c,
        decreases len - i,
    {
        i = i + 1;
    }
    proof {
        lemma_trailing_count_unique(s@, c, i as nat);
    }
    i
}

/// Slice of `s` with the maximal leading and trailing runs of `c` removed.
pub fn trim_edge_chars<'a>(s: &'a str, c: char) -> (r: &'a str)
    ensures
        r@ == trim_edges(s@, c),
{
    let len: usize = s.unicode_len();
    let lead: usize = count_leading(s, c);
    proof {
        lemma_leading_count_facts(s@, c);
    }
    let rest: &str = s.substring_char(lead, len);
    let trail: usize = count_trailing(rest, c);
    proof {
        lemma_trailing_count_facts(rest@, c);
    }
    let r: &str = rest.substring_char(0, rest.unicode_len() - trail);
    proof {
        assert(rest@ =~= s@.skip(leading_count(s@, c) as int));
        assert(r@ =~= trim_edges(s@, c));
    }
    r
}

/// The characters that may make up an identifier token.
pub open spec fn is_ident_char(c: char) -> bool {
    c == '_' || ('a' <= c && c <= 'z') || ('A' <= c && c <= 'Z') || ('0' <= c && c <= '9')
}

/// Length of the longest prefix of `s` made of identifier characters.
pub open spec fn ident_prefix_len(s: Seq<char>) -> nat
    decreases s.len(),
{
    if s.len() > 0 && is_ident_char(s[0]) {
        1 + ident_prefix_len(s.skip(1))
    } else {
        0
    }
}

/// The leading identifier token of a rendered type: the text of its first
/// token when that token is an identifier, and empty otherwise.
pub open spec fn head_of(s: Seq<char>) -> Seq<char> {
    s.take(ident_prefix_len(s) as int)
}

pub proof fn lemma_ident_prefix_facts(s: Seq<char>)
    ensures
        ident_prefix_len(s) <= s.len(),
        forall|j: int| 0 <= j < ident_prefix_len(s) ==> is_ident_char(s[j]),
        ident_prefix_len(s) < s.len() ==> !is_ident_char(s[ident_prefix_len(s) as int]),
    decreases s.len(),
{
    if s.len() > 0 && is_ident_char(s[0]) {
        lemma_ident_prefix_facts(s.skip(1));
        assert forall|j: int| 0 <= j < ident_prefix_len(s) implies is_ident_char(s[j]) by {
            if j > 0 {
                assert(is_ident_char(s.skip(1)[j - 1]));
            }
        }
    }
}

pub proof fn lemma_ident_prefix_unique(s: Seq<char>, i: nat)
    requires
        i <= s.len(),
        forall|j: int| 0 <= j < i ==> is_ident_char(s[j]),
        i < s.len() ==> !is_ident_char(s[i as int]),
    ensures
        ident_prefix_len(s) == i,
    decreases s.len(),
{
    if s.len() > 0 && is_ident_char(s[0]) {
        assert(i > 0);
        assert forall|j: int| 0 <= j < i - 1 implies is_ident_char(s.skip(1)[j]) by {
            assert(s[j + 1] == s.skip(1)[j]);
        }
        lemma_ident_prefix_unique(s.skip(1), (i - 1) as nat);
    } else {
        assert(i == 0);
    }
}

fn is_ident_char_exec(c: char) -> (r: bool)
    ensures
        r == is_ident_char(c),
{
    c == '_' || ('a' <= c && c <= 'z') || ('A' <= c && c <= 'Z') || ('0' <= c && c <= '9')
}

/// The leading identifier token of `s`, as a slice of `s`.
pub fn type_head<'a>(s: &'a str) -> (r: &'a str)
    ensures
        r@ == head_of(s@),
{
    let len: usize = s.unicode_len();
    let mut i: usize = 0;
    while i < len && is_ident_char_exec(s.get_char(i))
        invariant
            i <= len,
            len == s@.len(),
            forall|j: int| 0 <= j < i ==> is_ident_char(s@[j]),
        decreases len - i,
    {
        i = i + 1;
    }
    proof {
        lemma_ident_prefix_unique(s@, i as nat);
    }
    s.substring_char(0, i)
}

/// Index of the first occurrence of `c` in `s`, or -1 when `c` is absent.
pub open spec fn find_first(s: Seq<char>, c: char) -> int
    decreases s.len(),
{
    if s.len() == 0 {
        -1
    } else if s[0] == c {
        0
    } else {
        let r = find_first(s.skip(1), c);
        if r < 0 {
            -1
        } else {
            r + 1
        }
    }
}

/// Index of the last occurrence of `c` in `s`, or -1 when `c` is absent.
pub open spec fn find_last(s: Seq<char>, c: char) -> int
    decreases s.len(),
{
    if s.len() == 0 {
        -1
    } else if s[s.len() - 1] == c {
        s.len() - 1
    } else {
        find_last(s.take(s.len() - 1), c)
    }
}

pub proof fn lemma_find_first_unique(s: Seq<char>, c: char, i: nat)
    requires
        i <= s.len(),
        forall|j: int| 0 <= j < i ==> s[j] != c,
        i < s.len() ==> s[i as int] == c,
    ensures
        i < s.len() ==> find_first(s, c) == i,
        i == s.len() ==> find_first(s, c) == -1,
    decreases s.len(),
{
    if s.len() > 0 && s[0] != c {
        assert(i > 0);
        assert forall|j: int| 0 <= j < i - 1 implies s.skip(1)[j] != c by {
            assert(s[j + 1] == s.skip(1)[j]);
        }
        lemma_find_first_unique(s.skip(1), c, (i - 1) as nat);
    }
}

pub proof fn lemma_find_last_unique(s: Seq<char>, c: char, i: nat)
    requires
        i <= s.len(),
        forall|j: int| s.len() - i <= j < s.len() ==> s[j] != c,
        i < s.len() ==> s[s.len() - i - 1] == c,
    ensures
        i < s.len() ==> find_last(s, c) == s.len() - i - 1,
        i == s.len() ==> find_last(s, c) == -1,
    decreases s.len(),
{
    if s.len() > 0 && s[s.len() - 1] != c {
        assert(i > 0);
        lemma_find_last_unique(s.take(s.len() - 1), c, (i - 1) as nat);
    }
}

/// Position of the first `c` in `s`, if any.
pub fn find_first_char(s: &str, c: char) -> (r: Option<usize>)
    ensures
        match r {
            Some(i) => find_first(s@, c) == i as int && i < s@.len(),
            None => find_first(s@, c) == -1,
        },
{
    let len: usize = s.unicode_len();
    let mut i: usize = 0;
    while i < len && s.get_char(i) != c
        invariant
            i <= len,
            len == s@.len(),
            forall|j: int| 0 <= j < i ==> s@[j] != c,
        decreases len - i,
    {
        i = i + 1;
    }
    proof {
        lemma_find_first_unique(s@, c, i as nat);
    }
    if i < len {
        Some(i)
    } else {
        None
    }
}

/// Position of the last `c` in `s`, if any.
pub fn find_last_char(s: &str, c: char) -> (r: Option<usize>)
    ensures
        match r {
            Some(i) => find_last(s@, c) == i as int && i < s@.len(),
            None => find_last(s@, c) == -1,
        },
{
    let len: usize = s.unicode_len();
    let mut i: usize = 0;
    while i < len && s.get_char(len - i - 1) != c
        invariant
            i <= len,
            len == s@.len(),
            forall|j: int| len - i <= j < len ==> s@[j] != c,
        decreases len - i,
    {
        i = i + 1;
    }
    proof {
        lemma_find_last_unique(s@, c, i as nat);
    }
    if i < len {
        Some(len - i - 1)
    } else {
        None
    }
}

/// The decimal digit character for `d` (digits beyond nine never arise).
pub open spec fn dec_digit(d: nat) -> char {
    if d == 0 {
        '0'
    } else if d == 1 {
        '1'
    } else if d == 2 {
        '2'
    } else if d == 3 {
        '3'
    } else if d == 4 {
        '4'
    } else if d == 5 {
        '5'
    } else if d == 6 {
        '6'
    } else if d == 7 {
        '7'
    } else if d == 8 {
        '8'
    } else {
        '9'
    }
}

/// The usual decimal rendering of `n`, without a sign and without leading
/// zeros (except for `n == 0` itself).
pub open spec fn dec_digits(n: nat) -> Seq<char>
    decreases n,
{
    if n < 10 {
        seq![dec_digit(n)]
    } else {
        dec_digits(n / 10).push(dec_digit(n % 10))
    }
}

fn dec_digit_str(d: usize) -> (r: &'static str)
    requires
        d < 10,
    ensures
        r@ =~= seq![dec_digit(d as nat)],
{
    proof {
        reveal_strlit("0");
        reveal_strlit("1");
        reveal_strlit("2");
        reveal_strlit("3");
        reveal_strlit("4");
        reveal_strlit("5");
        reveal_strlit("6");
        reveal_strlit("7");
        reveal_strlit("8");
        reveal_strlit("9");
    }
    match d {
        0 => "0",
        1 => "1",
        2 => "2",
        3 => "3",
        4 => "4",
        5 => "5",
        6 => "6",
        7 => "7",
        8 => "8",
        _ => "9",
    }
}

/// Render `n` in decimal.
pub fn usize_to_string(n: usize) -> (r: String)
    ensures
        r@ == dec_digits(n as nat),
    decreases n,
{
    if n < 10 {
        String::from_str(dec_digit_str(n))
    } else {
        let mut s = usize_to_string(n / 10);
        s.append(dec_digit_str(n % 10));
        proof {
            assert(s@ =~= dec_digits(n as nat));
        }
        s
    }
}

/// Character-for-character equality of two string slices.
pub fn str_eq(a: &str, b: &str) -> (r: bool)
    ensures
        r == (a@ == b@),
{
    let la: usize = a.unicode_len();
    let lb: usize = b.unicode_len();
    if la != lb {
        return false;
    }
    let mut i: usize = 0;
    while i < la
        invariant
            i <= la,
            la == a@.len(),
            la == b@.len(),
            forall|j: int| 0 <= j < i ==> a@[j] == b@[j],
        decreases la - i,
    {
        if a.get_char(i) != b.get_char(i) {
            return false;
        }
        i = i + 1;
    }
    proof {
        assert(a@ =~= b@);
    }
    true
}

} // verus!
