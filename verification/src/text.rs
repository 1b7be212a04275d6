//! Character level string helpers, each proved against a spec function.

use vstd::prelude::*;
use std::cmp::Ordering;
use vstd::string::StringExecFns;

verus! {

broadcast use vstd::string::group_string_axioms;

/// `p` is a prefix of `s`.
pub open spec fn is_prefix_of(p: Seq<char>, s: Seq<char>) -> bool {
    p.len() <= s.len() && s.subrange(0, p.len() as int) == p
}

/// `p` occurs in `s` starting at position `i`.
pub open spec fn occurs_at(s: Seq<char>, p: Seq<char>, i: int) -> bool {
    0 <= i && i + p.len() <= s.len() && s.subrange(i, i + p.len()) == p
}

/// `p` occurs somewhere in `s` (the empty string occurs in every string).
pub open spec fn contains_seq(s: Seq<char>, p: Seq<char>) -> bool {
    exists|i: int| occurs_at(s, p, i)
}

/// What follows the last `sep` in `s`; all of `s` when `sep` does not occur.
pub open spec fn last_segment(s: Seq<char>, sep: char) -> Seq<char>
    decreases s.len(),
{
    if s.len() == 0 {
        s
    } else if s.last() == sep {
        Seq::empty()
    } else {
        last_segment(s.drop_last(), sep).push(s.last())
    }
}

/// `s` with every occurrence of `pat`, scanned from the left without overlap,
/// replaced by `rep`.
pub open spec fn replace_all(s: Seq<char>, pat: Seq<char>, rep: Seq<char>) -> Seq<char>
    decreases s.len(),
{
    if s.len() == 0 {
        Seq::empty()
    } else if pat.len() > 0 && is_prefix_of(pat, s) {
        rep + replace_all(s.subrange(pat.len() as int, s.len() as int), pat, rep)
    } else {
        seq![s[0]] + replace_all(s.drop_first(), pat, rep)
    }
}

/// The decimal digit for `d`.
pub open spec fn digit(d: nat) -> char {
    if d == 0 {
        '0'
    } else if d == 1 {
        '1'
    } else if d == 2 {
        '2'
    } else if d == 3 {
        '3'
    } else if d == 4 {
        '4'
    } else if d == 5 {
        '5'
    } else if d == 6 {
        '6'
    } else if d == 7 {
        '7'
    } else if d == 8 {
        '8'
    } else {
        '9'
    }
}

/// The decimal notation of `n`, without leading zeros.
pub open spec fn decimal(n: nat) -> Seq<char>
    decreases n,
{
    if n < 10 {
        seq![digit(n)]
    } else {
        decimal(n / 10).push(digit(n % 10))
    }
}

/// `true` or `false`, as Rust writes a `bool`.
pub open spec fn bool_text(b: bool) -> Seq<char> {
    if b {
        "true"@
    } else {
        "false"@
    }
}

/// What `str::to_lowercase` gives for a string (full Unicode case mapping).
pub uninterp spec fn lowercase(s: Seq<char>) -> Seq<char>;

/// What `str::to_uppercase` gives for a string (full Unicode case mapping).
pub uninterp spec fn uppercase(s: Seq<char>) -> Seq<char>;

/// Calls `str::to_lowercase`. Trusted: the contract claims only that the
/// result depends on the argument's characters alone (it is named
/// `lowercase`); what the Unicode mapping does to each character is not stated.
#[verifier::external_body]
pub(crate) fn to_lowercase(s: &str) -> (r: String)
    ensures
        r@ == lowercase(s@),
{
    s.to_lowercase()
}

/// Calls `str::to_uppercase`. Trusted: the contract claims only that the
/// result depends on the argument's characters alone (it is named
/// `uppercase`); what the Unicode mapping does to each character is not stated.
#[verifier::external_body]
pub(crate) fn to_uppercase(s: &str) -> (r: String)
    ensures
        r@ == uppercase(s@),
{
    s.to_uppercase()
}

/// Calls `String::push`. Trusted: the contract claims that the string
/// afterwards holds its old characters followed by `c`, as std documents.
#[verifier::external_body]
fn push_char(s: &mut String, c: char)
    ensures
        final(s)@ == old(s)@.push(c),
{
    s.push(c);
}

/// The characters of a string, in order.
pub fn chars_of(s: &str) -> (r: Vec<char>)
    ensures
        r@ == s@,
{
    let mut v: Vec<char> = Vec::new();
    for c in it: s.chars()
        invariant
            v@ == it.seq().take(it.index() as int),
    {
        v.push(c);
    }
    v
}

/// A string made of the given characters.
pub fn string_of(cs: &Vec<char>) -> (r: String)
    ensures
        r@ == cs@,
{
    let mut s = String::new();
    let n = cs.len();
    for i in 0..n
        invariant
            n == cs@.len(),
            s@ == cs@.take(i as int),
    {
        push_char(&mut s, cs[i]);
        assert(cs@.take(i + 1) =~= cs@.take(i as int).push(cs@[i as int]));
    }
    assert(cs@.take(n as int) =~= cs@);
    s
}

/// An owned copy of a string slice.
pub fn owned(s: &str) -> (r: String)
    ensures
        r@ == s@,
{
    s.to_string()
}

/// `a` followed by `b`.
pub fn concat(a: &str, b: &str) -> (r: String)
    ensures
        r@ == a@ + b@,
{
    let s = a.to_string();
    s.concat(b)
}

/// Appends `b` to `s`.
pub fn append(s: &mut String, b: &str)
    ensures
        final(s)@ == old(s)@ + b@,
{
    s.append(b);
}

/// Whether two strings hold the same characters.
pub fn str_eq(a: &str, b: &str) -> (r: bool)
    ensures
        r == (a@ == b@),
{
    let av = chars_of(a);
    let bv = chars_of(b);
    if av.len() != bv.len() {
        return false;
    }
    let n = av.len();
    for i in 0..n
        invariant
            n == av@.len(),
            n == bv@.len(),
            av@ == a@,
            bv@ == b@,
            forall|j: int| 0 <= j < i ==> av@[j] == bv@[j],
    {
        if av[i] != bv[i] {
            assert(av@[i as int] != bv@[i as int]);
            return false;
        }
    }
    assert(av@ =~= bv@);
    true
}

/// Whether `p` occurs in `s` at position `i`, on character vectors.
fn matches_at(s: &Vec<char>, p: &Vec<char>, i: usize) -> (r: bool)
    ensures
        r == occurs_at(s@, p@, i as int),
{
    if i > s.len() || p.len() > s.len() - i {
        return false;
    }
    let m = p.len();
    for k in 0..m
        invariant
            m == p@.len(),
            i + m <= s.len(),
            forall|j: int| 0 <= j < k ==> s@[i + j] == p@[j],
    {
        if s[i + k] != p[k] {
            assert(s@.subrange(i as int, i + m)[k as int] != p@[k as int]);
            return false;
        }
    }
    assert(s@.subrange(i as int, i + m) =~= p@);
    true
}

/// Whether `s` starts with `p`.
pub fn starts_with(s: &str, p: &str) -> (r: bool)
    ensures
        r == is_prefix_of(p@, s@),
{
    let sv = chars_of(s);
    let pv = chars_of(p);
    matches_at(&sv, &pv, 0)
}

/// Whether `p` occurs in `s`.
pub fn contains(s: &str, p: &str) -> (r: bool)
    ensures
        r == contains_seq(s@, p@),
{
    let sv = chars_of(s);
    let pv = chars_of(p);
    if pv.len() > sv.len() {
        assert forall|i: int| !occurs_at(s@, p@, i) by {}
        return false;
    }
    let last = sv.len() - pv.len();
    let mut i: usize = 0;
    while i < last
        invariant
            sv@ == s@,
            pv@ == p@,
            last == sv@.len() - pv@.len(),
            i <= last,
            forall|j: int| 0 <= j < i ==> !occurs_at(s@, p@, j),
        decreases last - i,
    {
        if matches_at(&sv, &pv, i) {
            return true;
        }
        i = i + 1;
    }
    if matches_at(&sv, &pv, last) {
        return true;
    }
    assert forall|j: int| !occurs_at(s@, p@, j) by {
        if 0 <= j < i {
        }
    }
    false
}

/// What follows the last `sep` in `s`, as `s.split(sep).last()` gives it.
pub fn last_segment_of(s: &str, sep: char) -> (r: String)
    ensures
        r@ == last_segment(s@, sep),
{
    let sv = chars_of(s);
    let n = sv.len();
    let mut cur: Vec<char> = Vec::new();
    for i in 0..n
        invariant
            n == sv@.len(),
            sv@ == s@,
            cur@ == last_segment(sv@.take(i as int), sep),
    {
        assert(sv@.take(i + 1).drop_last() =~= sv@.take(i as int));
        if sv[i] == sep {
            cur = Vec::new();
        } else {
            cur.push(sv[i]);
        }
    }
    assert(sv@.take(n as int) =~= sv@);
    string_of(&cur)
}

/// `s` with every occurrence of `pat` replaced by `rep`, as `str::replace` gives it.
pub fn replace(s: &str, pat: &str, rep: &str) -> (r: String)
    requires
        pat@.len() > 0,
    ensures
        r@ == replace_all(s@, pat@, rep@),
{
    let sv = chars_of(s);
    let pv = chars_of(pat);
    let rv = chars_of(rep);
    let n = sv.len();
    let mut out: Vec<char> = Vec::new();
    let mut i: usize = 0;
    assert(sv@.subrange(0, n as int) =~= sv@);
    assert(out@ + replace_all(sv@, pv@, rv@) =~= replace_all(sv@, pv@, rv@));
    while i < n
        invariant
            n == sv@.len(),
            sv@ == s@,
            pv@ == pat@,
            rv@ == rep@,
            pat@.len() > 0,
            i <= n,
            out@ + replace_all(sv@.subrange(i as int, n as int), pv@, rv@) == replace_all(
                sv@,
                pv@,
                rv@,
            ),
        decreases n - i,
    {
        let ghost rest = sv@.subrange(i as int, n as int);
        if matches_at(&sv, &pv, i) {
            assert(rest.subrange(0, pv@.len() as int) =~= sv@.subrange(i as int, i + pv@.len()));
            assert(rest.subrange(pv@.len() as int, rest.len() as int) =~= sv@.subrange(
                i + pv@.len(),
                n as int,
            ));
            let m = rv.len();
            let ghost before = out@;
            for k in 0..m
                invariant
                    m == rv@.len(),
                    out@ == before + rv@.take(k as int),
            {
                out.push(rv[k]);
                assert(rv@.take(k + 1) =~= rv@.take(k as int).push(rv@[k as int]));
            }
            assert(rv@.take(m as int) =~= rv@);
            assert(before + (rv@ + replace_all(
                sv@.subrange(i + pv@.len(), n as int),
                pv@,
                rv@,
            )) =~= before + rv@ + replace_all(sv@.subrange(i + pv@.len(), n as int), pv@, rv@));
            i = i + pv.len();
        } else {
            assert(!is_prefix_of(pv@, rest)) by {
                if is_prefix_of(pv@, rest) {
                    assert(rest.subrange(0, pv@.len() as int) =~= sv@.subrange(
                        i as int,
                        i + pv@.len(),
                    ));
                }
            }
            assert(rest.drop_first() =~= sv@.subrange(i + 1, n as int));
            let ghost before = out@;
            out.push(sv[i]);
            assert(before + (seq![rest[0]] + replace_all(rest.drop_first(), pv@, rv@))
                =~= before.push(sv@[i as int]) + replace_all(rest.drop_first(), pv@, rv@));
            i = i + 1;
        }
    }
    assert(sv@.subrange(n as int, n as int) =~= Seq::<char>::empty());
    assert(out@ + Seq::<char>::empty() =~= out@);
    string_of(&out)
}

/// The decimal digit for `d`.
fn digit_char(d: u64) -> (c: char)
    requires
        d < 10,
    ensures
        c == digit(d as nat),
{
    match d {
        0 => '0',
        1 => '1',
        2 => '2',
        3 => '3',
        4 => '4',
        5 => '5',
        6 => '6',
        7 => '7',
        8 => '8',
        _ => '9',
    }
}

/// The decimal notation of `n`, as `format!("{}", n)` writes it.
pub fn u64_to_string(n: u64) -> (r: String)
    ensures
        r@ == decimal(n as nat),
    decreases n,
{
    if n < 10 {
        let mut s = String::new();
        push_char(&mut s, digit_char(n));
        assert(s@ =~= seq![digit(n as nat)]);
        s
    } else {
        let mut s = u64_to_string(n / 10);
        push_char(&mut s, digit_char(n % 10));
        s
    }
}

/// `true` or `false`, as `format!("{}", b)` writes it.
pub fn bool_to_string(b: bool) -> (r: String)
    ensures
        r@ == bool_text(b),
{
    if b {
        "true".to_string()
    } else {
        "false".to_string()
    }
}

/// `x` comes before `y` in code point order.
pub open spec fn char_lt(x: char, y: char) -> bool {
    x < y
}

/// `a` comes before `b` in the lexicographic order of their code points
/// (the order `str`'s `Ord` gives, since UTF-8 keeps code point order).
pub open spec fn lex_lt(a: Seq<char>, b: Seq<char>) -> bool {
    exists|i: int|
        #![trigger a.take(i), b.take(i)]
        0 <= i <= a.len() && i <= b.len() && a.take(i) == b.take(i) && ((i == a.len() && i
            < b.len()) || (i < a.len() && i < b.len() && char_lt(a[i], b[i])))
}

/// Whether `x` comes before `y` in code point order.
fn char_less(x: char, y: char) -> (r: bool)
    ensures
        r == char_lt(x, y),
{
    x < y
}

/// The lexicographic order of two strings: a witness position decides it.
proof fn lemma_lex_first_difference(a: Seq<char>, b: Seq<char>, k: int)
    requires
        0 <= k <= a.len(),
        k <= b.len(),
        a.take(k) == b.take(k),
        k == a.len() || k == b.len() || a[k] != b[k],
    ensures
        lex_lt(a, b) == ((k == a.len() && k < b.len()) || (k < a.len() && k < b.len() && char_lt(
            a[k],
            b[k],
        ))),
{
    let rhs = (k == a.len() && k < b.len()) || (k < a.len() && k < b.len() && char_lt(a[k], b[k]));
    if lex_lt(a, b) {
        let i = choose|i: int|
            #![trigger a.take(i), b.take(i)]
            0 <= i <= a.len() && i <= b.len() && a.take(i) == b.take(i) && ((i == a.len() && i
                < b.len()) || (i < a.len() && i < b.len() && char_lt(a[i], b[i])));
        if i < k {
            assert(a.take(k)[i] == a[i]);
            assert(b.take(k)[i] == b[i]);
            assert(a[i] == b[i]);
            assert(false);
        } else if i > k {
            assert(a.take(i)[k] == a[k]);
            assert(b.take(i)[k] == b[k]);
            assert(a[k] == b[k]);
            assert(false);
        }
        assert(rhs);
    }
    if rhs {
        assert(a.take(k) == b.take(k));
        assert(lex_lt(a, b));
    }
}

/// No string comes before itself.
pub proof fn lemma_lex_lt_irreflexive(a: Seq<char>)
    ensures
        !lex_lt(a, a),
{
}

/// The lexicographic order is transitive.
pub proof fn lemma_lex_lt_transitive(a: Seq<char>, b: Seq<char>, c: Seq<char>)
    requires
        lex_lt(a, b),
        lex_lt(b, c),
    ensures
        lex_lt(a, c),
{
    let i = choose|i: int|
        #![trigger a.take(i), b.take(i)]
        0 <= i <= a.len() && i <= b.len() && a.take(i) == b.take(i) && ((i == a.len() && i
            < b.len()) || (i < a.len() && i < b.len() && char_lt(a[i], b[i])));
    let k = choose|k: int|
        #![trigger b.take(k), c.take(k)]
        0 <= k <= b.len() && k <= c.len() && b.take(k) == c.take(k) && ((k == b.len() && k
            < c.len()) || (k < b.len() && k < c.len() && char_lt(b[k], c[k])));
    if i < k {
        assert(b.take(i) =~= c.take(k).take(i));
        assert(c.take(i) =~= c.take(k).take(i));
        assert(a.take(i) == c.take(i));
        if i < a.len() {
            assert(b.take(k)[i] == c.take(k)[i]);
        }
    } else if k < i {
        assert(a.take(k) =~= a.take(i).take(k));
        assert(b.take(k) =~= b.take(i).take(k));
        assert(a.take(k) == c.take(k));
        assert(a.take(i)[k] == b.take(i)[k]);
    } else {
        assert(a.take(i) == c.take(i));
    }
}

/// Compares two strings: negative, zero or positive as `a` comes before, equals
/// or comes after `b`.
fn compare_sign(a: &str, b: &str) -> (r: i8)
    ensures
        (r < 0) == lex_lt(a@, b@),
        (r == 0) == (a@ == b@),
        (r > 0) == lex_lt(b@, a@),
{
    let av = chars_of(a);
    let bv = chars_of(b);
    let n = if av.len() < bv.len() {
        av.len()
    } else {
        bv.len()
    };
    let mut k: usize = 0;
    while k < n
        invariant
            av@ == a@,
            bv@ == b@,
            n <= av@.len(),
            n <= bv@.len(),
            n == av@.len() || n == bv@.len(),
            k <= n,
            av@.take(k as int) == bv@.take(k as int),
        ensures
            k == n || av@[k as int] != bv@[k as int],
        decreases n - k,
    {
        if av[k] != bv[k] {
            break;
        }
        assert(av@.take(k + 1) =~= av@.take(k as int).push(av@[k as int]));
        assert(bv@.take(k + 1) =~= bv@.take(k as int).push(bv@[k as int]));
        k = k + 1;
    }
    proof {
        lemma_lex_first_difference(a@, b@, k as int);
        lemma_lex_first_difference(b@, a@, k as int);
        if k == av@.len() && k == bv@.len() {
            assert(a@ =~= a@.take(k as int));
            assert(b@ =~= b@.take(k as int));
        } else if a@ == b@ {
            assert(k < av@.len() && av@[k as int] == bv@[k as int]);
        }
        if k < av@.len() && k < bv@.len() {
            assert(av@[k as int] != bv@[k as int]);
        }
    }
    if k == av.len() && k == bv.len() {
        0
    } else if k == av.len() {
        -1
    } else if k == bv.len() {
        1
    } else if char_less(av[k], bv[k]) {
        -1
    } else {
        1
    }
}

/// Whether `a` comes before `b`.
pub fn compare_sign_lt(a: &str, b: &str) -> (r: bool)
    ensures
        r == lex_lt(a@, b@),
{
    compare_sign(a, b) < 0
}

/// Compares two strings as `str`'s `Ord` does.
pub fn compare(a: &str, b: &str) -> (r: Ordering)
    ensures
        (r == Ordering::Less) == lex_lt(a@, b@),
        (r == Ordering::Equal) == (a@ == b@),
        (r == Ordering::Greater) == lex_lt(b@, a@),
{
    let c = compare_sign(a, b);
    if c < 0 {
        Ordering::Less
    } else if c == 0 {
        Ordering::Equal
    } else {
        Ordering::Greater
    }
}

} // verus!
