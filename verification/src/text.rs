//! Character-sequence utilities shared by the scrapers.
//!
//! All parsing in this crate works on `Vec<char>` values obtained from the
//! raw strings, so every transformation is specified over `Seq<char>`.
use vstd::prelude::*;

verus! {

use vstd::std_specs::iter::IteratorSpec;

/// The ASCII whitespace characters that the platform's pages pad text with.
pub open spec fn is_space(c: char) -> bool {
    c == ' ' || c == '\t' || c == '\n' || c == '\r'
}

pub open spec fn trim_start_spec(s: Seq<char>) -> Seq<char>
    decreases s.len(),
{
    if s.len() > 0 && is_space(s[0]) {
        trim_start_spec(s.drop_first())
    } else {
        s
    }
}

pub open spec fn trim_end_spec(s: Seq<char>) -> Seq<char>
    decreases s.len(),
{
    if s.len() > 0 && is_space(s.last()) {
        trim_end_spec(s.drop_last())
    } else {
        s
    }
}

pub open spec fn trim_spec(s: Seq<char>) -> Seq<char> {
    trim_end_spec(trim_start_spec(s))
}

fn is_space_exec(c: char) -> (r: bool)
    ensures
        r == is_space(c),
{
    c == ' ' || c == '\t' || c == '\n' || c == '\r'
}

proof fn lemma_trim_start_skip(s: Seq<char>, i: int)
    requires
        0 <= i <= s.len(),
        forall|k: int| 0 <= k < i ==> is_space(s[k]),
        i < s.len() ==> !is_space(s[i]),
    ensures
        trim_start_spec(s) == s.skip(i),
    decreases i,
{
    if i == 0 {
        assert(s.skip(0) =~= s);
    } else {
        lemma_trim_start_skip(s.drop_first(), i - 1);
        assert(s.drop_first().skip(i - 1) =~= s.skip(i));
    }
}

proof fn lemma_trim_end_take(s: Seq<char>, j: int)
    requires
        0 <= j <= s.len(),
        forall|k: int| j <= k < s.len() ==> is_space(s[k]),
        j > 0 ==> !is_space(s[j - 1]),
    ensures
        trim_end_spec(s) == s.take(j),
    decreases s.len() - j,
{
    if j == s.len() {
        assert(s.take(j) =~= s);
    } else {
        lemma_trim_end_take(s.drop_last(), j);
        assert(s.drop_last().take(j) =~= s.take(j));
    }
}

/// Remove leading and trailing whitespace.
pub fn trim_chars(s: &Vec<char>) -> (r: Vec<char>)
    ensures
        r@ == trim_spec(s@),
{
    let mut i: usize = 0;
    while i < s.len() && is_space_exec(s[i])
        invariant
            0 <= i <= s@.len(),
            forall|k: int| 0 <= k < i ==> is_space(s@[k]),
        decreases s@.len() - i,
    {
        i = i + 1;
    }
    proof {
        lemma_trim_start_skip(s@, i as int);
    }
    let mut j: usize = s.len();
    while j > i && is_space_exec(s[j - 1])
        invariant
            i <= j <= s@.len(),
            forall|k: int| j <= k < s@.len() ==> is_space(s@[k]),
        decreases j,
    {
        j = j - 1;
    }
    let mut r: Vec<char> = Vec::new();
    let mut k: usize = i;
    while k < j
        invariant
            i <= k <= j <= s@.len(),
            r@ == s@.subrange(i as int, k as int),
        decreases j - k,
    {
        r.push(s[k]);
        proof {
            assert(s@.subrange(i as int, k + 1 as int) =~= s@.subrange(i as int, k as int).push(
                s@[k as int],
            ));
        }
        k = k + 1;
    }
    proof {
        if j == i {
            assert(trim_start_spec(s@).take(0) =~= s@.subrange(i as int, i as int));
            lemma_trim_end_take(s@.skip(i as int), 0);
        } else {
            lemma_trim_end_take(s@.skip(i as int), j - i);
            assert(s@.skip(i as int).take(j - i) =~= s@.subrange(i as int, j as int));
        }
    }
    r
}

/// ASCII lowercasing, one character at a time; other characters are unchanged.
pub open spec fn lower_char(c: char) -> char {
    if 'A' as u8 <= c as u8 <= 'Z' as u8 && c as u32 <= 'Z' as u32 {
        ((c as u8 + 32) as char)
    } else {
        c
    }
}

pub open spec fn lower_spec(s: Seq<char>) -> Seq<char> {
    s.map_values(|c: char| lower_char(c))
}

fn lower_char_exec(c: char) -> (r: char)
    ensures
        r == lower_char(c),
{
    if 'A' <= c && c <= 'Z' {
        ((c as u8) + 32) as char
    } else {
        c
    }
}

/// ASCII lowercase of a whole sequence.
pub fn lower_chars(s: &Vec<char>) -> (r: Vec<char>)
    ensures
        r@ == lower_spec(s@),
{
    let mut r: Vec<char> = Vec::new();
    let mut i: usize = 0;
    while i < s.len()
        invariant
            0 <= i <= s@.len(),
            r@ == lower_spec(s@.take(i as int)),
        decreases s@.len() - i,
    {
        r.push(lower_char_exec(s[i]));
        proof {
            assert(lower_spec(s@.take(i + 1 as int)) =~= lower_spec(s@.take(i as int)).push(
                lower_char(s@[i as int]),
            ));
        }
        i = i + 1;
    }
    proof {
        assert(s@.take(s@.len() as int) =~= s@);
    }
    r
}

pub open spec fn starts_with(s: Seq<char>, p: Seq<char>) -> bool {
    s.len() >= p.len() && s.take(p.len() as int) == p
}

pub open spec fn ends_with(s: Seq<char>, p: Seq<char>) -> bool {
    s.len() >= p.len() && s.skip(s.len() - p.len()) == p
}

/// Whether `s[at..]` starts with `p`.
fn matches_at(s: &Vec<char>, p: &Vec<char>, at: usize) -> (r: bool)
    requires
        at <= s@.len(),
    ensures
        r == starts_with(s@.skip(at as int), p@),
{
    if s.len() - at < p.len() {
        proof {
            assert(s@.skip(at as int).len() < p@.len());
        }
        return false;
    }
    let slen: usize = s.len();
    let mut i: usize = 0;
    while i < p.len()
        invariant
            0 <= i <= p@.len(),
            at + p@.len() <= s@.len(),
            slen == s@.len(),
            forall|k: int| 0 <= k < i ==> s@[at + k] == p@[k],
        decreases p@.len() - i,
    {
        if s[at + i] != p[i] {
            proof {
                assert(s@.skip(at as int).take(p@.len() as int)[i as int] != p@[i as int]);
            }
            return false;
        }
        i = i + 1;
    }
    proof {
        assert(s@.skip(at as int).take(p@.len() as int) =~= p@);
    }
    true
}

pub fn starts_with_exec(s: &Vec<char>, p: &Vec<char>) -> (r: bool)
    ensures
        r == starts_with(s@, p@),
{
    proof {
        assert(s@.skip(0) =~= s@);
    }
    matches_at(s, p, 0)
}

pub fn ends_with_exec(s: &Vec<char>, p: &Vec<char>) -> (r: bool)
    ensures
        r == ends_with(s@, p@),
{
    if s.len() < p.len() {
        return false;
    }
    let r = matches_at(s, p, s.len() - p.len());
    proof {
        assert(s@.skip(s@.len() - p@.len()).take(p@.len() as int) =~= s@.skip(
            s@.len() - p@.len(),
        ));
        assert(starts_with(s@.skip(s@.len() - p@.len()), p@) == ends_with(s@, p@));
    }
    r
}

/// Copy of `s[from..to]`.
pub fn subrange_chars(s: &Vec<char>, from: usize, to: usize) -> (r: Vec<char>)
    requires
        from <= to <= s@.len(),
    ensures
        r@ == s@.subrange(from as int, to as int),
{
    let mut r: Vec<char> = Vec::new();
    let mut k: usize = from;
    while k < to
        invariant
            from <= k <= to <= s@.len(),
            r@ == s@.subrange(from as int, k as int),
        decreases to - k,
    {
        r.push(s[k]);
        proof {
            assert(s@.subrange(from as int, k + 1 as int) =~= s@.subrange(from as int, k as int)
                .push(s@[k as int]));
        }
        k = k + 1;
    }
    r
}

/// Strip one leading occurrence of `p`, as the schedule parser does with
/// its "every " prefix.
pub open spec fn strip_prefix_spec(s: Seq<char>, p: Seq<char>) -> Seq<char> {
    if starts_with(s, p) {
        s.skip(p.len() as int)
    } else {
        s
    }
}

pub fn strip_prefix_once(s: &Vec<char>, p: &Vec<char>) -> (r: Vec<char>)
    ensures
        r@ == strip_prefix_spec(s@, p@),
{
    proof {
        assert(s@.skip(0) =~= s@);
    }
    if matches_at(s, p, 0) {
        subrange_chars(s, p.len(), s.len())
    } else {
        let mut r: Vec<char> = Vec::new();
        let mut k: usize = 0;
        while k < s.len()
            invariant
                0 <= k <= s@.len(),
                r@ == s@.take(k as int),
            decreases s@.len() - k,
        {
            r.push(s[k]);
            proof {
                assert(s@.take(k + 1 as int) =~= s@.take(k as int).push(s@[k as int]));
            }
            k = k + 1;
        }
        proof {
            assert(s@.take(s@.len() as int) =~= s@);
        }
        r
    }
}

/// Strip every leading occurrence of `p`, matching `str::trim_start_matches`.
pub open spec fn strip_prefix_all(s: Seq<char>, p: Seq<char>) -> Seq<char>
    decreases s.len(),
{
    if p.len() > 0 && starts_with(s, p) && s.len() >= p.len() {
        strip_prefix_all(s.skip(p.len() as int), p)
    } else {
        s
    }
}

/// Strip every trailing occurrence of `p`, matching `str::trim_end_matches`.
pub open spec fn strip_suffix_all(s: Seq<char>, p: Seq<char>) -> Seq<char>
    decreases s.len(),
{
    if p.len() > 0 && ends_with(s, p) && s.len() >= p.len() {
        strip_suffix_all(s.take(s.len() - p.len()), p)
    } else {
        s
    }
}

pub fn strip_prefix_all_exec(s: &Vec<char>, p: &Vec<char>) -> (r: Vec<char>)
    requires
        p@.len() > 0,
    ensures
        r@ == strip_prefix_all(s@, p@),
{
    let mut cur = subrange_chars(s, 0, s.len());
    proof {
        assert(s@.subrange(0, s@.len() as int) =~= s@);
    }
    loop
        invariant
            p@.len() > 0,
            strip_prefix_all(cur@, p@) == strip_prefix_all(s@, p@),
        decreases cur@.len(),
    {
        if starts_with_exec(&cur, p) {
            cur = subrange_chars(&cur, p.len(), cur.len());
        } else {
            return cur;
        }
    }
}

pub fn strip_suffix_all_exec(s: &Vec<char>, p: &Vec<char>) -> (r: Vec<char>)
    requires
        p@.len() > 0,
    ensures
        r@ == strip_suffix_all(s@, p@),
{
    let mut cur = subrange_chars(s, 0, s.len());
    proof {
        assert(s@.subrange(0, s@.len() as int) =~= s@);
    }
    loop
        invariant
            p@.len() > 0,
            strip_suffix_all(cur@, p@) == strip_suffix_all(s@, p@),
        decreases cur@.len(),
    {
        if ends_with_exec(&cur, p) {
            cur = subrange_chars(&cur, 0, cur.len() - p.len());
            proof {
                assert(cur@ =~= cur@);
            }
        } else {
            return cur;
        }
    }
}

/// Remove every occurrence of `p` from `s`, scanning left to right,
/// matching `str::replace(p, "")`.
pub open spec fn remove_all_spec(s: Seq<char>, p: Seq<char>) -> Seq<char>
    decreases s.len(),
{
    if p.len() == 0 || s.len() == 0 {
        s
    } else if starts_with(s, p) {
        remove_all_spec(s.skip(p.len() as int), p)
    } else {
        seq![s[0]] + remove_all_spec(s.drop_first(), p)
    }
}

pub fn remove_all_exec(s: &Vec<char>, p: &Vec<char>) -> (r: Vec<char>)
    requires
        p@.len() > 0,
    ensures
        r@ == remove_all_spec(s@, p@),
{
    let mut r: Vec<char> = Vec::new();
    let mut i: usize = 0;
    proof {
        assert(s@.skip(0) =~= s@);
        assert(r@ + remove_all_spec(s@, p@) =~= remove_all_spec(s@, p@));
    }
    while i < s.len()
        invariant
            0 <= i <= s@.len(),
            p@.len() > 0,
            remove_all_spec(s@, p@) == r@ + remove_all_spec(s@.skip(i as int), p@),
        decreases s@.len() - i,
    {
        if matches_at(s, p, i) {
            proof {
                assert(s@.skip(i as int).skip(p@.len() as int) =~= s@.skip(i + p@.len()));
            }
            i = i + p.len();
        } else {
            proof {
                assert(s@.skip(i as int).drop_first() =~= s@.skip(i + 1));
                assert(seq![s@.skip(i as int)[0]] =~= seq![s@[i as int]]);
                assert((r@ + seq![s@[i as int]]) + remove_all_spec(s@.skip(i + 1), p@) =~= r@ + (
                seq![s@[i as int]] + remove_all_spec(s@.skip(i + 1), p@)));
            }
            r.push(s[i]);
            i = i + 1;
        }
    }
    proof {
        assert(s@.skip(s@.len() as int) =~= Seq::<char>::empty());
        assert(r@ + remove_all_spec(Seq::<char>::empty(), p@) =~= r@);
    }
    r
}

/// Split `s` on the separator `p`, matching `str::split`: the separator is
/// dropped, and `n` occurrences of it yield `n + 1` pieces.
pub open spec fn split_spec(s: Seq<char>, p: Seq<char>) -> Seq<Seq<char>>
    decreases s.len(),
{
    if p.len() == 0 {
        seq![s]
    } else if starts_with(s, p) {
        seq![Seq::<char>::empty()] + split_spec(s.skip(p.len() as int), p)
    } else if s.len() == 0 {
        seq![Seq::<char>::empty()]
    } else {
        let rest = split_spec(s.drop_first(), p);
        rest.update(0, seq![s[0]] + rest[0])
    }
}

pub proof fn lemma_split_len_pos(s: Seq<char>, p: Seq<char>)
    ensures
        split_spec(s, p).len() >= 1,
    decreases s.len(),
{
    if p.len() == 0 {
    } else if starts_with(s, p) {
        lemma_split_len_pos(s.skip(p.len() as int), p);
    } else if s.len() == 0 {
    } else {
        lemma_split_len_pos(s.drop_first(), p);
    }
}

pub fn split_exec(s: &Vec<char>, p: &Vec<char>) -> (r: Vec<Vec<char>>)
    requires
        p@.len() > 0,
    ensures
        r@.len() == split_spec(s@, p@).len(),
        forall|k: int| 0 <= k < r@.len() ==> r@[k]@ == split_spec(s@, p@)[k],
{
    let ghost whole = split_spec(s@, p@);
    let mut r: Vec<Vec<char>> = Vec::new();
    let mut cur: Vec<char> = Vec::new();
    let mut i: usize = 0;
    proof {
        lemma_split_len_pos(s@, p@);
        assert(s@.skip(0) =~= s@);
        assert(cur@ + split_spec(s@, p@)[0] =~= split_spec(s@, p@)[0]);
    }
    while i < s.len()
        invariant
            0 <= i <= s@.len(),
            p@.len() > 0,
            split_spec(s@.skip(i as int), p@).len() >= 1,
            whole == split_spec(s@, p@),
            whole.len() == r@.len() + split_spec(s@.skip(i as int), p@).len(),
            forall|k: int| 0 <= k < r@.len() ==> r@[k]@ == whole[k],
            cur@ + split_spec(s@.skip(i as int), p@)[0] == whole[r@.len() as int],
            forall|k: int|
                1 <= k < split_spec(s@.skip(i as int), p@).len() ==> split_spec(
                    s@.skip(i as int),
                    p@,
                )[k] == whole[r@.len() + k],
        decreases s@.len() - i,
    {
        let ghost tail = split_spec(s@.skip(i as int), p@);
        if matches_at(s, p, i) {
            proof {
                assert(s@.skip(i as int).skip(p@.len() as int) =~= s@.skip(i + p@.len()));
                lemma_split_len_pos(s@.skip(i + p@.len()), p@);
                assert(tail == seq![Seq::<char>::empty()] + split_spec(s@.skip(i + p@.len()), p@));
                assert(tail[0] =~= Seq::<char>::empty());
                assert(cur@ + tail[0] =~= cur@);
            }
            r.push(cur);
            cur = Vec::new();
            i = i + p.len();
            proof {
                let tail2 = split_spec(s@.skip(i as int), p@);
                assert(tail.len() == 1 + tail2.len());
                assert forall|k: int| 1 <= k < tail2.len() implies tail2[k] == whole[r@.len() + k] by {
                    assert(tail[k + 1] == tail2[k]);
                    assert(tail[k + 1] == whole[(r@.len() - 1) + (k + 1)]);
                }
                assert(tail2[0] == tail[1]);
                assert(tail[1] == whole[(r@.len() - 1) + 1]);
                assert(cur@ + tail2[0] =~= tail2[0]);
            }
        } else {
            proof {
                assert(s@.skip(i as int).drop_first() =~= s@.skip(i + 1));
                lemma_split_len_pos(s@.skip(i + 1), p@);
                let rest = split_spec(s@.skip(i + 1), p@);
                assert(tail == rest.update(0, seq![s@.skip(i as int)[0]] + rest[0]));
                assert(tail[0] =~= seq![s@[i as int]] + rest[0]);
                assert(cur@.push(s@[i as int]) + rest[0] =~= cur@ + tail[0]);
                assert(tail.len() == rest.len());
                assert forall|k: int| 1 <= k < rest.len() implies rest[k] == whole[r@.len() + k] by {
                    assert(tail[k] == rest[k]);
                }
            }
            cur.push(s[i]);
            i = i + 1;
        }
    }
    proof {
        assert(s@.skip(s@.len() as int) =~= Seq::<char>::empty());
        let tail = split_spec(Seq::<char>::empty(), p@);
        assert(!starts_with(Seq::<char>::empty(), p@));
        assert(tail =~= seq![Seq::<char>::empty()]);
        assert(cur@ + tail[0] =~= cur@);
    }
    r.push(cur);
    r
}

/// Decimal digits: codepoints 48 through 57 are '0' through '9'.
pub open spec fn is_digit(c: char) -> bool {
    48 <= c as u32 <= 57
}

pub open spec fn digit_val(c: char) -> nat {
    (c as u32 - 48) as nat
}

pub open spec fn all_digits(s: Seq<char>) -> bool {
    forall|k: int| 0 <= k < s.len() ==> is_digit(#[trigger] s[k])
}

/// The number written by a digit sequence, most significant digit first.
pub open spec fn digits_to_nat(s: Seq<char>) -> nat
    decreases s.len(),
{
    if s.len() == 0 {
        0
    } else {
        digits_to_nat(s.drop_last()) * 10 + digit_val(s.last())
    }
}

proof fn lemma_digits_prefix_le(s: Seq<char>, j: int)
    requires
        0 <= j <= s.len(),
    ensures
        digits_to_nat(s.take(j)) <= digits_to_nat(s),
    decreases s.len() - j,
{
    if j == s.len() {
        assert(s.take(j) =~= s);
    } else {
        lemma_digits_prefix_le(s, j + 1);
        let t = s.take(j + 1);
        assert(t.drop_last() =~= s.take(j));
        assert(digits_to_nat(s.take(j + 1)) == digits_to_nat(s.take(j)) * 10 + digit_val(t.last()));
        assert(digits_to_nat(s.take(j)) <= digits_to_nat(s.take(j)) * 10) by (nonlinear_arith);
    }
}

/// Parse a decimal number, rejecting empty input, non-digits, and values
/// that do not fit in `usize`.
pub fn parse_usize(s: &Vec<char>) -> (r: Option<usize>)
    ensures
        r is Some <==> s@.len() > 0 && all_digits(s@) && digits_to_nat(s@) <= usize::MAX,
        r is Some ==> r->0 == digits_to_nat(s@),
{
    if s.len() == 0 {
        return None;
    }
    let mut acc: usize = 0;
    let mut i: usize = 0;
    while i < s.len()
        invariant
            0 <= i <= s@.len(),
            all_digits(s@.take(i as int)),
            acc == digits_to_nat(s@.take(i as int)),
        decreases s@.len() - i,
    {
        let cu: u32 = s[i] as u32;
        if cu < 48 || cu > 57 {
            return None;
        }
        let d: usize = (cu - 48) as usize;
        proof {
            assert(d == digit_val(s@[i as int]));
        }
        if acc > (usize::MAX - d) / 10 {
            proof {
                assert(acc * 10 + d > usize::MAX) by (nonlinear_arith)
                    requires
                        acc > (usize::MAX - d) / 10,
                        d <= 9,
                ;
                assert(s@.take(i + 1).drop_last() =~= s@.take(i as int));
                assert(s@.take(i + 1).last() == s@[i as int]);
                assert(digits_to_nat(s@.take(i + 1)) == acc * 10 + d);
                lemma_digits_prefix_le(s@, i + 1);
            }
            return None;
        }
        proof {
            assert(acc * 10 + d <= usize::MAX) by (nonlinear_arith)
                requires
                    acc <= (usize::MAX - d) / 10,
                    d <= 9,
            ;
            assert(s@.take(i + 1).drop_last() =~= s@.take(i as int));
            assert(s@.take(i + 1).last() == s@[i as int]);
        }
        acc = acc * 10 + d;
        i = i + 1;
    }
    proof {
        assert(s@.take(s@.len() as int) =~= s@);
    }
    Some(acc)
}

/// The character of one decimal digit.
pub open spec fn digit_char_spec(d: int) -> char {
    if d == 0 {
        '0'
    } else if d == 1 {
        '1'
    } else if d == 2 {
        '2'
    } else if d == 3 {
        '3'
    } else if d == 4 {
        '4'
    } else if d == 5 {
        '5'
    } else if d == 6 {
        '6'
    } else if d == 7 {
        '7'
    } else if d == 8 {
        '8'
    } else {
        '9'
    }
}

/// The decimal rendering of a number, most significant digit first.
pub open spec fn dec_digits(n: int) -> Seq<char>
    decreases n,
{
    if n < 10 {
        seq![digit_char_spec(n)]
    } else {
        dec_digits(n / 10).push(digit_char_spec(n % 10))
    }
}

fn digit_char(d: usize) -> (c: char)
    requires
        d < 10,
    ensures
        is_digit(c),
        digit_val(c) == d,
        c == digit_char_spec(d as int),
{
    match d {
        0 => '0',
        1 => '1',
        2 => '2',
        3 => '3',
        4 => '4',
        5 => '5',
        6 => '6',
        7 => '7',
        8 => '8',
        _ => '9',
    }
}

/// Decimal rendering of a number, without leading zeros.
pub fn usize_to_chars(n: usize) -> (r: Vec<char>)
    ensures
        r@.len() >= 1,
        all_digits(r@),
        digits_to_nat(r@) == n,
        r@[0] == '0' ==> r@.len() == 1,
        r@ == dec_digits(n as int),
    decreases n,
{
    if n < 10 {
        let mut r: Vec<char> = Vec::new();
        r.push(digit_char(n));
        proof {
            assert(r@.drop_last() =~= Seq::<char>::empty());
            assert(digits_to_nat(Seq::<char>::empty()) == 0);
            assert(digits_to_nat(r@) == digits_to_nat(r@.drop_last()) * 10 + digit_val(r@.last()));
        }
        r
    } else {
        let mut r = usize_to_chars(n / 10);
        let ghost high = r@;
        let d = digit_char(n % 10);
        r.push(d);
        proof {
            assert(r@.drop_last() =~= high);
            assert(r@.last() == d);
            assert(digits_to_nat(r@) == digits_to_nat(high) * 10 + digit_val(d));
            assert((n / 10) * 10 + (n % 10) == n) by (nonlinear_arith)
                requires
                    n >= 10,
            ;
            assert(r@[0] == high[0]);
            if r@[0] == '0' {
                assert(high.len() == 1);
                assert(high.drop_last() =~= Seq::<char>::empty());
                assert(high.last() == high[0]);
                assert(digits_to_nat(Seq::<char>::empty()) == 0);
                assert(digits_to_nat(high) == digits_to_nat(high.drop_last()) * 10 + digit_val(
                    high.last(),
                ));
                assert(digit_val(high[0]) == n / 10);
                assert(n / 10 >= 1);
                assert(('0' as u32) == 48);
                assert(false);
            }
        }
        r
    }
}

/// The concatenation of two character sequences.
pub fn concat_chars(a: &Vec<char>, b: &Vec<char>) -> (r: Vec<char>)
    ensures
        r@ == a@ + b@,
{
    let mut r = subrange_chars(a, 0, a.len());
    proof {
        assert(a@.subrange(0, a@.len() as int) =~= a@);
    }
    let mut i: usize = 0;
    while i < b.len()
        invariant
            0 <= i <= b@.len(),
            r@ == a@ + b@.take(i as int),
        decreases b@.len() - i,
    {
        r.push(b[i]);
        proof {
            assert(a@ + b@.take(i + 1) =~= (a@ + b@.take(i as int)).push(b@[i as int]));
        }
        i = i + 1;
    }
    proof {
        assert(a@ + b@.take(b@.len() as int) =~= a@ + b@);
    }
    r
}

/// Whether two character sequences are equal.
pub fn eq_chars(a: &Vec<char>, b: &Vec<char>) -> (r: bool)
    ensures
        r == (a@ == b@),
{
    if a.len() != b.len() {
        return false;
    }
    proof {
        assert(a@.skip(0) =~= a@);
    }
    let r = matches_at(a, b, 0);
    proof {
        if r {
            assert(a@.take(b@.len() as int) =~= a@);
        }
    }
    r
}

/// Relies on std's `String::push`: appends one character to the string.
#[verifier::external_body]
fn push_char(s: &mut String, c: char)
    ensures
        final (s)@ == old(s)@.push(c),
{
    s.push(c)
}

/// Rebuild a `String` from characters.
pub fn string_of_chars(v: &Vec<char>) -> (s: String)
    ensures
        s@ == v@,
{
    let mut s = String::new();
    let mut i: usize = 0;
    while i < v.len()
        invariant
            0 <= i <= v@.len(),
            s@ == v@.take(i as int),
        decreases v@.len() - i,
    {
        push_char(&mut s, v[i]);
        proof {
            assert(v@.take(i + 1) =~= v@.take(i as int).push(v@[i as int]));
        }
        i = i + 1;
    }
    proof {
        assert(v@.take(v@.len() as int) =~= v@);
    }
    s
}

/// The characters of a string slice, in order.
pub fn chars_of_str(s: &str) -> (v: Vec<char>)
    ensures
        v@ == s@,
{
    broadcast use vstd::string::group_string_axioms;

    let mut it = s.chars();
    let mut v: Vec<char> = Vec::new();
    loop
        invariant
            it.obeys_prophetic_iter_laws(),
            it.decrease() is Some,
            v@ + it.remaining() == s@,
        decreases it.decrease()->0,
    {
        let ghost prev = it.remaining();
        match it.next() {
            Some(c) => {
                v.push(c);
                proof {
                    assert(v@ + it.remaining() =~= s@);
                }
            },
            None => {
                proof {
                    assert(v@ =~= s@);
                }
                return v;
            },
        }
    }
}

} // verus!
