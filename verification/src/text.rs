//! Character-level string handling.
//!
//! All string logic in this crate works over `Vec<char>` / `Seq<char>`,
//! so that every transformation is verified; `str_chars` and
//! `chars_to_string` bridge to and from `String` at the edges.

use vstd::prelude::*;

verus! {

use vstd::std_specs::iter::IteratorSpec;
use vstd::string::StrSliceExecFns;

/// True when `pre` is a prefix of `s`.
pub open spec fn seq_starts_with(s: Seq<char>, pre: Seq<char>) -> bool {
    pre.len() <= s.len() && s.subrange(0, pre.len() as int) == pre
}

/// True when `suf` is a suffix of `s`.
pub open spec fn seq_ends_with(s: Seq<char>, suf: Seq<char>) -> bool {
    suf.len() <= s.len() && s.subrange(s.len() - suf.len(), s.len() as int) == suf
}

/// True when `sub` occurs in `s` at position `i`.
pub open spec fn seq_matches_at(s: Seq<char>, sub: Seq<char>, i: int) -> bool {
    0 <= i && i + sub.len() <= s.len() && s.subrange(i, i + sub.len()) == sub
}

/// True when `sub` occurs somewhere in `s`.
pub open spec fn seq_contains(s: Seq<char>, sub: Seq<char>) -> bool {
    exists|i: int| seq_matches_at(s, sub, i)
}

/// The characters of `s`, as a vector.
pub fn str_chars(s: &str) -> (v: Vec<char>)
    ensures
        v@ == s@,
{
    broadcast use vstd::string::next_postcondition, vstd::string::axiom_spec_iter;

    let mut it = s.chars();
    let mut v: Vec<char> = Vec::new();
    loop
        invariant
            v@ + it.remaining() == s@,
            it.decrease() is Some,
        ensures
            v@ == s@,
        decreases it.decrease()->0,
    {
        match it.next() {
            Some(c) => {
                v.push(c);
            }
            None => {
                proof {
                    assert(it.remaining().len() == 0);
                    assert(v@ =~= s@);
                }
                break;
            }
        }
    }
    v
}

/// Relies on `String::push`: collects the characters back into a `String`.
#[verifier::external_body]
pub fn chars_to_string(v: &Vec<char>) -> (s: String)
    ensures
        s@ == v@,
{
    let mut s = String::with_capacity(v.len());
    for c in v.iter() {
        s.push(*c);
    }
    s
}

/// Whether `s` starts with the prefix `pre`, character for character.
pub fn starts_with_chars(s: &Vec<char>, pre: &Vec<char>) -> (r: bool)
    ensures
        r == seq_starts_with(s@, pre@),
{
    if pre.len() > s.len() {
        assert(!seq_starts_with(s@, pre@));
        return false;
    }
    let mut i: usize = 0;
    while i < pre.len()
        invariant
            0 <= i <= pre.len(),
            pre.len() <= s.len(),
            forall|j: int| 0 <= j < i ==> s@[j] == pre@[j],
        decreases pre.len() - i,
    {
        if s[i] != pre[i] {
            assert(s@.subrange(0, pre.len() as int)[i as int] != pre@[i as int]);
            return false;
        }
        i += 1;
    }
    proof {
        assert(s@.subrange(0, pre@.len() as int) =~= pre@);
    }
    true
}

/// Whether `s` ends with the suffix `suf`, character for character.
pub fn ends_with_chars(s: &Vec<char>, suf: &Vec<char>) -> (r: bool)
    ensures
        r == seq_ends_with(s@, suf@),
{
    if suf.len() > s.len() {
        assert(!seq_ends_with(s@, suf@));
        return false;
    }
    let off: usize = s.len() - suf.len();
    let mut i: usize = 0;
    while i < suf.len()
        invariant
            0 <= i <= suf.len(),
            off == s.len() - suf.len(),
            suf.len() <= s.len(),
            forall|j: int| 0 <= j < i ==> s@[off + j] == suf@[j],
        decreases suf.len() - i,
    {
        if s[off + i] != suf[i] {
            assert(s@.subrange(s@.len() - suf@.len(), s@.len() as int)[i as int] != suf@[i as int]);
            return false;
        }
        i += 1;
    }
    proof {
        assert(s@.subrange(s@.len() - suf@.len(), s@.len() as int) =~= suf@);
    }
    true
}

/// Whether `sub` occurs in `s` starting at `at`.
pub fn matches_at_chars(s: &Vec<char>, sub: &Vec<char>, at: usize) -> (r: bool)
    requires
        at <= s@.len(),
    ensures
        r == seq_matches_at(s@, sub@, at as int),
{
    if sub.len() > s.len() - at {
        assert(!seq_matches_at(s@, sub@, at as int));
        return false;
    }
    let mut i: usize = 0;
    while i < sub.len()
        invariant
            0 <= i <= sub.len(),
            at + sub.len() <= s.len(),
            forall|j: int| 0 <= j < i ==> s@[at + j] == sub@[j],
        decreases sub.len() - i,
    {
        if s[at + i] != sub[i] {
            assert(s@.subrange(at as int, at + sub@.len())[i as int] != sub@[i as int]);
            return false;
        }
        i += 1;
    }
    proof {
        assert(s@.subrange(at as int, at + sub@.len()) =~= sub@);
    }
    true
}

/// The first position at which `sub` occurs in `s`, if any.
pub fn find_chars(s: &Vec<char>, sub: &Vec<char>) -> (r: Option<usize>)
    ensures
        match r {
            Some(i) => seq_matches_at(s@, sub@, i as int) && forall|j: int|
                0 <= j < i ==> !seq_matches_at(s@, sub@, j),
            None => !seq_contains(s@, sub@),
        },
{
    let mut at: usize = 0;
    while at < s.len()
        invariant
            0 <= at <= s.len(),
            forall|j: int| 0 <= j < at ==> !seq_matches_at(s@, sub@, j),
        decreases s.len() - at,
    {
        if matches_at_chars(s, sub, at) {
            return Some(at);
        }
        at += 1;
    }
    if matches_at_chars(s, sub, s.len()) {
        return Some(s.len());
    }
    proof {
        assert forall|i: int| !seq_matches_at(s@, sub@, i) by {
            if 0 <= i && i + sub@.len() <= s@.len() {
                assert(i <= s@.len());
            }
        }
    }
    None
}

/// Whether `sub` occurs anywhere in `s`.
pub fn contains_chars(s: &Vec<char>, sub: &Vec<char>) -> (r: bool)
    ensures
        r == seq_contains(s@, sub@),
{
    find_chars(s, sub).is_some()
}

/// The concatenation of `a` and `b`.
pub fn concat_chars(a: &Vec<char>, b: &Vec<char>) -> (r: Vec<char>)
    ensures
        r@ == a@ + b@,
{
    let mut r: Vec<char> = Vec::new();
    let mut i: usize = 0;
    while i < a.len()
        invariant
            0 <= i <= a.len(),
            r@ == a@.subrange(0, i as int),
        decreases a.len() - i,
    {
        r.push(a[i]);
        proof {
            assert(r@ =~= a@.subrange(0, i + 1));
        }
        i += 1;
    }
    proof {
        assert(a@.subrange(0, a@.len() as int) =~= a@);
    }
    let mut j: usize = 0;
    while j < b.len()
        invariant
            0 <= j <= b.len(),
            r@ == a@ + b@.subrange(0, j as int),
        decreases b.len() - j,
    {
        r.push(b[j]);
        proof {
            assert(r@ =~= a@ + b@.subrange(0, j + 1));
        }
        j += 1;
    }
    proof {
        assert(a@ + b@.subrange(0, b@.len() as int) =~= a@ + b@);
    }
    r
}

/// The subrange `[from, to)` of `s`.
pub fn subrange_chars(s: &Vec<char>, from: usize, to: usize) -> (r: Vec<char>)
    requires
        from <= to <= s@.len(),
    ensures
        r@ == s@.subrange(from as int, to as int),
{
    let mut r: Vec<char> = Vec::new();
    let mut i: usize = from;
    while i < to
        invariant
            from <= i <= to <= s@.len(),
            r@ == s@.subrange(from as int, i as int),
        decreases to - i,
    {
        r.push(s[i]);
        proof {
            assert(r@ =~= s@.subrange(from as int, i + 1));
        }
        i += 1;
    }
    r
}

/// The ASCII whitespace characters stripped by `trim_spaces`.
pub open spec fn is_space(c: char) -> bool {
    c == ' ' || c == '\t' || c == '\n' || c == '\r'
}

/// `s` without its leading whitespace.
pub open spec fn trim_start_spec(s: Seq<char>) -> Seq<char>
    decreases s.len(),
{
    if s.len() > 0 && is_space(s[0]) {
        trim_start_spec(s.drop_first())
    } else {
        s
    }
}

/// `s` without its trailing whitespace.
pub open spec fn trim_end_spec(s: Seq<char>) -> Seq<char>
    decreases s.len(),
{
    if s.len() > 0 && is_space(s[s.len() - 1]) {
        trim_end_spec(s.drop_last())
    } else {
        s
    }
}

/// `s` without leading and trailing whitespace.
pub open spec fn trim_spec(s: Seq<char>) -> Seq<char> {
    trim_end_spec(trim_start_spec(s))
}

proof fn lemma_trim_start_skip(s: Seq<char>, i: int)
    requires
        0 <= i <= s.len(),
        forall|k: int| 0 <= k < i ==> is_space(s[k]),
        i < s.len() ==> !is_space(s[i]),
    ensures
        trim_start_spec(s) == s.skip(i),
    decreases i,
{
    if i == 0 {
        assert(s.skip(0) =~= s);
    } else {
        assert(is_space(s[0]));
        lemma_trim_start_skip(s.drop_first(), i - 1);
        assert(s.drop_first().skip(i - 1) =~= s.skip(i));
    }
}

proof fn lemma_trim_end_take(s: Seq<char>, j: int)
    requires
        0 <= j <= s.len(),
        forall|k: int| j <= k < s.len() ==> is_space(s[k]),
        j > 0 ==> !is_space(s[j - 1]),
    ensures
        trim_end_spec(s) == s.take(j),
    decreases s.len() - j,
{
    if j == s.len() {
        assert(s.take(j) =~= s);
    } else {
        assert(is_space(s[s.len() - 1]));
        lemma_trim_end_take(s.drop_last(), j);
        assert(s.drop_last().take(j) =~= s.take(j));
    }
}

fn space_char(c: char) -> (r: bool)
    ensures
        r == is_space(c),
{
    c == ' ' || c == '\t' || c == '\n' || c == '\r'
}

/// `v` without leading and trailing ASCII whitespace.
pub fn trim_spaces(v: &Vec<char>) -> (r: Vec<char>)
    ensures
        r@ == trim_spec(v@),
{
    let mut i: usize = 0;
    while i < v.len() && space_char(v[i])
        invariant
            0 <= i <= v.len(),
            forall|k: int| 0 <= k < i ==> is_space(v@[k]),
        decreases v.len() - i,
    {
        i += 1;
    }
    proof {
        lemma_trim_start_skip(v@, i as int);
    }
    let mut j: usize = v.len();
    while j > i && space_char(v[j - 1])
        invariant
            i <= j <= v.len(),
            forall|k: int| j <= k < v.len() ==> is_space(v@[k]),
        decreases j,
    {
        j -= 1;
    }
    let r = subrange_chars(v, i, j);
    proof {
        let t = v@.skip(i as int);
        lemma_trim_end_take(t, j - i);
        assert(t.take(j - i) =~= v@.subrange(i as int, j as int));
    }
    r
}

/// The pieces of `s` between the occurrences of `sep`, leftmost first.
/// With an empty separator the whole of `s` is the one piece.
pub open spec fn split_spec(s: Seq<char>, sep: Seq<char>) -> Seq<Seq<char>>
    decreases s.len(),
{
    if sep.len() == 0 || s.len() == 0 {
        seq![s]
    } else if seq_starts_with(s, sep) {
        seq![Seq::<char>::empty()] + split_spec(s.skip(sep.len() as int), sep)
    } else {
        let rest = split_spec(s.drop_first(), sep);
        seq![seq![s[0]] + rest[0]] + rest.skip(1)
    }
}

/// The pieces of `s` between the occurrences of `sep`.
pub fn split_chars(s: &Vec<char>, sep: &Vec<char>) -> (r: Vec<Vec<char>>)
    ensures
        r.deep_view() == split_spec(s@, sep@),
        r.len() >= 1,
    decreases s@.len(),
{
    if sep.len() == 0 || s.len() == 0 {
        let piece = subrange_chars(s, 0, s.len());
        proof {
            assert(s@.subrange(0, s@.len() as int) =~= s@);
        }
        let mut r: Vec<Vec<char>> = Vec::new();
        r.push(piece);
        proof {
            assert(r.deep_view() =~~= split_spec(s@, sep@));
        }
        r
    } else if starts_with_chars(s, sep) {
        let tail = subrange_chars(s, sep.len(), s.len());
        proof {
            assert(tail@ =~= s@.skip(sep@.len() as int));
        }
        let mut r = split_chars(&tail, sep);
        r.insert(0, Vec::new());
        proof {
            assert(r.deep_view() =~~= split_spec(s@, sep@));
        }
        r
    } else {
        let tail = subrange_chars(s, 1, s.len());
        proof {
            assert(tail@ =~= s@.drop_first());
        }
        let mut rest = split_chars(&tail, sep);
        let first = rest.remove(0);
        let mut head: Vec<char> = Vec::new();
        head.push(s[0]);
        let new_first = concat_chars(&head, &first);
        rest.insert(0, new_first);
        proof {
            let full = split_spec(s@, sep@);
            let sub = split_spec(s@.drop_first(), sep@);
            assert(new_first@ =~= seq![s@[0]] + sub[0]);
            assert(rest.deep_view() =~~= full);
        }
        rest
    }
}

/// The pieces joined back together with `sep` between them.
pub open spec fn join_spec(parts: Seq<Seq<char>>, sep: Seq<char>) -> Seq<char>
    decreases parts.len(),
{
    if parts.len() == 0 {
        Seq::empty()
    } else if parts.len() == 1 {
        parts[0]
    } else {
        parts[0] + sep + join_spec(parts.drop_first(), sep)
    }
}

/// Joining one more piece appends a separator and the piece.
pub proof fn lemma_join_push(parts: Seq<Seq<char>>, sep: Seq<char>, x: Seq<char>)
    ensures
        join_spec(parts.push(x), sep) == if parts.len() == 0 {
            x
        } else {
            join_spec(parts, sep) + sep + x
        },
    decreases parts.len(),
{
    if parts.len() == 0 {
        assert(parts.push(x)[0] == x);
        assert(join_spec(parts.push(x), sep) == x);
    } else if parts.len() == 1 {
        assert(parts.push(x).drop_first() =~= seq![x]);
        assert(seq![x].len() == 1);
        assert(seq![x][0] == x);
        assert(join_spec(seq![x], sep) == x);
        assert(parts.push(x)[0] == parts[0]);
        assert(parts.push(x).len() == 2);
        assert(join_spec(parts.push(x), sep) == parts[0] + sep + x);
        assert(join_spec(parts, sep) == parts[0]);
    } else {
        lemma_join_push(parts.drop_first(), sep, x);
        assert(parts.push(x).drop_first() =~= parts.drop_first().push(x));
        assert(parts.push(x)[0] == parts[0]);
        assert(parts.push(x).len() >= 2);
        assert(join_spec(parts.push(x), sep) == parts[0] + sep + join_spec(
            parts.drop_first().push(x),
            sep,
        ));
        assert(join_spec(parts.drop_first().push(x), sep) == join_spec(parts.drop_first(), sep)
            + sep + x);
        assert((parts[0] + sep + join_spec(parts.drop_first(), sep)) + sep + x =~= parts[0] + sep
            + (join_spec(parts.drop_first(), sep) + sep + x));
    }
}

/// The pieces joined with `sep` between them, over character vectors.
pub fn join_chars(parts: &Vec<Vec<char>>, sep: &Vec<char>) -> (r: Vec<char>)
    ensures
        r@ == join_spec(parts.deep_view(), sep@),
{
    let ghost ps = parts.deep_view();
    if parts.len() == 0 {
        let r: Vec<char> = Vec::new();
        return r;
    }
    let mut r = subrange_chars(&parts[0], 0, parts[0].len());
    proof {
        assert(r@ =~= ps[0]);
        assert(ps.take(1) =~= seq![ps[0]]);
    }
    let mut i: usize = 1;
    while i < parts.len()
        invariant
            1 <= i <= parts.len(),
            ps == parts.deep_view(),
            ps.len() == parts.len(),
            r@ == join_spec(ps.take(i as int), sep@),
        decreases parts.len() - i,
    {
        let with_sep = concat_chars(&r, sep);
        r = concat_chars(&with_sep, &parts[i]);
        proof {
            lemma_join_push(ps.take(i as int), sep@, ps[i as int]);
            assert(ps.take(i as int).push(ps[i as int]) =~= ps.take(i + 1));
        }
        i += 1;
    }
    proof {
        assert(ps.take(ps.len() as int) =~= ps);
    }
    r
}

/// The decimal digit character for `d`.
pub open spec fn dec_digit(d: int) -> char {
    if d == 0 {
        '0'
    } else if d == 1 {
        '1'
    } else if d == 2 {
        '2'
    } else if d == 3 {
        '3'
    } else if d == 4 {
        '4'
    } else if d == 5 {
        '5'
    } else if d == 6 {
        '6'
    } else if d == 7 {
        '7'
    } else if d == 8 {
        '8'
    } else {
        '9'
    }
}

/// The decimal notation of `n`, most significant digit first.
pub open spec fn dec_spec(n: int) -> Seq<char>
    decreases n,
{
    if n < 10 {
        seq![dec_digit(n)]
    } else {
        dec_spec(n / 10) + seq![dec_digit(n % 10)]
    }
}

fn dec_digit_char(d: u64) -> (r: char)
    requires
        d < 10,
    ensures
        r == dec_digit(d as int),
{
    if d == 0 {
        '0'
    } else if d == 1 {
        '1'
    } else if d == 2 {
        '2'
    } else if d == 3 {
        '3'
    } else if d == 4 {
        '4'
    } else if d == 5 {
        '5'
    } else if d == 6 {
        '6'
    } else if d == 7 {
        '7'
    } else if d == 8 {
        '8'
    } else {
        '9'
    }
}

/// The decimal notation of `n`.
pub fn u64_dec_chars(n: u64) -> (r: Vec<char>)
    ensures
        r@ == dec_spec(n as int),
    decreases n,
{
    if n < 10 {
        let mut r: Vec<char> = Vec::new();
        r.push(dec_digit_char(n));
        proof {
            assert(r@ =~= seq![dec_digit(n as int)]);
        }
        r
    } else {
        let mut r = u64_dec_chars(n / 10);
        r.push(dec_digit_char(n % 10));
        proof {
            assert(r@ =~= dec_spec(n as int / 10) + seq![dec_digit(n as int % 10)]);
        }
        r
    }
}

/// The Unicode uppercase mapping of one character, as `char::to_uppercase`
/// yields it.
pub uninterp spec fn upper_of(c: char) -> Seq<char>;

/// Relies on `char::to_uppercase`: the Unicode uppercase mapping, which
/// depends on the character alone.
#[verifier::external_body]
fn upper_char(c: char) -> (r: Vec<char>)
    ensures
        r@ == upper_of(c),
{
    c.to_uppercase().collect()
}

/// The word separators recognised by `pascal_spec`.
pub open spec fn is_word_sep(c: char) -> bool {
    c == '_' || c == '-' || c == ' '
}

/// `s` in Pascal case: separators are dropped and the character that
/// follows a separator (or starts the text) is uppercased.  `cap` says
/// whether the next character begins a word.
pub open spec fn pascal_spec(s: Seq<char>, cap: bool) -> Seq<char>
    decreases s.len(),
{
    if s.len() == 0 {
        Seq::empty()
    } else if is_word_sep(s[0]) {
        pascal_spec(s.drop_first(), true)
    } else if cap {
        upper_of(s[0]) + pascal_spec(s.drop_first(), false)
    } else {
        seq![s[0]] + pascal_spec(s.drop_first(), false)
    }
}

fn word_sep_char(c: char) -> (r: bool)
    ensures
        r == is_word_sep(c),
{
    c == '_' || c == '-' || c == ' '
}

/// `v` in Pascal case.
pub fn pascal_chars(v: &Vec<char>) -> (r: Vec<char>)
    ensures
        r@ == pascal_spec(v@, true),
{
    let mut r: Vec<char> = Vec::new();
    proof {
        assert(v@.skip(0) =~= v@);
        assert(Seq::<char>::empty() + pascal_spec(v@, true) =~= pascal_spec(v@, true));
    }
    let mut cap = true;
    let mut i: usize = 0;
    while i < v.len()
        invariant
            0 <= i <= v.len(),
            pascal_spec(v@, true) == r@ + pascal_spec(v@.skip(i as int), cap),
        decreases v.len() - i,
    {
        let c = v[i];
        proof {
            assert(v@.skip(i as int).drop_first() =~= v@.skip(i + 1));
            assert(v@.skip(i as int)[0] == v@[i as int]);
        }
        if word_sep_char(c) {
            cap = true;
        } else if cap {
            let up = upper_char(c);
            let ghost r0 = r@;
            proof {
                assert(r@ =~= r0 + up@.subrange(0, 0));
            }
            let mut k: usize = 0;
            while k < up.len()
                invariant
                    0 <= k <= up.len(),
                    r@ == r0 + up@.subrange(0, k as int),
                decreases up.len() - k,
            {
                r.push(up[k]);
                proof {
                    assert(r@ =~= r0 + up@.subrange(0, k + 1));
                }
                k += 1;
            }
            proof {
                assert(r0 + up@.subrange(0, up@.len() as int) =~= r0 + up@);
                assert((r0 + upper_of(v@[i as int])) + pascal_spec(v@.skip(i + 1), false) =~= r0
                    + (upper_of(v@[i as int]) + pascal_spec(v@.skip(i + 1), false)));
            }
            cap = false;
        } else {
            let ghost r0 = r@;
            r.push(c);
            proof {
                assert(r@ =~= r0 + seq![v@[i as int]]);
                assert((r0 + seq![v@[i as int]]) + pascal_spec(v@.skip(i + 1), false) =~= r0 + (seq![
                    v@[i as int],
                ] + pascal_spec(v@.skip(i + 1), false)));
            }
            cap = false;
        }
        i += 1;
    }
    proof {
        assert(v@.skip(v@.len() as int) =~= Seq::<char>::empty());
        assert(r@ + Seq::<char>::empty() =~= r@);
    }
    r
}

/// The two strings, one after the other.
pub fn concat_strs(a: &str, b: &str) -> (r: String)
    ensures
        r@ == a@ + b@,
{
    let av = str_chars(a);
    let bv = str_chars(b);
    let c = concat_chars(&av, &bv);
    chars_to_string(&c)
}

/// Whether the characters of `s` include `c`.
pub fn slice_contains_char(s: &[char], c: char) -> (r: bool)
    ensures
        r == s@.contains(c),
{
    let mut i: usize = 0;
    while i < s.len()
        invariant
            0 <= i <= s@.len(),
            forall|j: int| 0 <= j < i ==> s@[j] != c,
        decreases s@.len() - i,
    {
        if s[i] == c {
            return true;
        }
        i += 1;
    }
    false
}

/// `s` without the trailing characters drawn from the set `cs`.
pub open spec fn trim_end_set_spec(s: Seq<char>, cs: Seq<char>) -> Seq<char>
    decreases s.len(),
{
    if s.len() > 0 && cs.contains(s[s.len() - 1]) {
        trim_end_set_spec(s.drop_last(), cs)
    } else {
        s
    }
}

proof fn lemma_trim_end_set_take(s: Seq<char>, cs: Seq<char>, j: int)
    requires
        0 <= j <= s.len(),
        forall|k: int| j <= k < s.len() ==> cs.contains(s[k]),
        j > 0 ==> !cs.contains(s[j - 1]),
    ensures
        trim_end_set_spec(s, cs) == s.take(j),
    decreases s.len() - j,
{
    if j == s.len() {
        assert(s.take(j) =~= s);
    } else {
        assert(cs.contains(s[s.len() - 1]));
        lemma_trim_end_set_take(s.drop_last(), cs, j);
        assert(s.drop_last().take(j) =~= s.take(j));
    }
}

/// `text` without the trailing characters drawn from `matched_chars`.
pub fn trim_end_matches<'a>(text: &'a str, matched_chars: &[char]) -> (r: &'a str)
    ensures
        r@ == trim_end_set_spec(text@, matched_chars@),
{
    let v = str_chars(text);
    let mut j: usize = v.len();
    while j > 0 && slice_contains_char(matched_chars, v[j - 1])
        invariant
            0 <= j <= v.len(),
            v@ == text@,
            forall|k: int| j <= k < v@.len() ==> matched_chars@.contains(v@[k]),
        decreases j,
    {
        j -= 1;
    }
    proof {
        lemma_trim_end_set_take(text@, matched_chars@, j as int);
    }
    text.substring_char(0, j)
}

/// `text` without trailing newline and carriage-return characters.
pub fn trim_newline(text: &str) -> (r: &str)
    ensures
        r@ == trim_end_set_spec(text@, seq!['\n', '\r']),
{
    let mut nl: Vec<char> = Vec::new();
    nl.push('\n');
    nl.push('\r');
    proof {
        assert(nl@ =~= seq!['\n', '\r']);
    }
    trim_end_matches(text, nl.as_slice())
}

/// `text` in Pascal case: word separators (`_`, `-`, space) are dropped
/// and each word's first character is uppercased.
pub fn to_pascal_case(text: &str) -> (r: String)
    ensures
        r@ == pascal_spec(text@, true),
{
    let v = str_chars(text);
    let p = pascal_chars(&v);
    chars_to_string(&p)
}

/// The pieces of `text` between occurrences of `sep`; the whole of
/// `text` as the one piece when `sep` is empty.
pub fn split_text(text: &str, sep: &str) -> (r: Vec<String>)
    ensures
        r.deep_view() == split_spec(text@, sep@),
        r.len() >= 1,
{
    let tv = str_chars(text);
    let sv = str_chars(sep);
    let pieces = split_chars(&tv, &sv);
    let ghost ps = pieces.deep_view();
    let mut r: Vec<String> = Vec::new();
    let mut i: usize = 0;
    while i < pieces.len()
        invariant
            0 <= i <= pieces.len(),
            ps == pieces.deep_view(),
            ps.len() == pieces.len(),
            r@.len() == i,
            forall|k: int| 0 <= k < i ==> r@[k]@ == ps[k],
        decreases pieces.len() - i,
    {
        r.push(chars_to_string(&pieces[i]));
        i += 1;
    }
    proof {
        assert forall|k: int| 0 <= k < r@.len() implies r.deep_view()[k] == ps[k] by {
            assert(r@[k]@ == ps[k]);
        }
        assert(r.deep_view() =~= ps);
    }
    r
}

/// The pieces joined into one string with `sep` between them.
pub fn join_text(text: &[&str], sep: &str) -> (r: String)
    ensures
        r@ == join_spec(text.deep_view(), sep@),
{
    let ghost ts = text.deep_view();
    let sv = str_chars(sep);
    let mut parts: Vec<Vec<char>> = Vec::new();
    let mut i: usize = 0;
    while i < text.len()
        invariant
            0 <= i <= text@.len(),
            ts == text.deep_view(),
            ts.len() == text@.len(),
            parts@.len() == i,
            forall|k: int| 0 <= k < i ==> parts@[k]@ == ts[k],
        decreases text@.len() - i,
    {
        parts.push(str_chars(text[i]));
        i += 1;
    }
    proof {
        assert forall|k: int| 0 <= k < parts@.len() implies parts.deep_view()[k] == ts[k] by {
            assert(parts@[k]@ == ts[k]);
        }
        assert(parts.deep_view() =~= ts);
    }
    let joined = join_chars(&parts, &sv);
    chars_to_string(&joined)
}

/// `s` with every trailing copy of `pat` removed.
pub open spec fn trim_end_str_spec(s: Seq<char>, pat: Seq<char>) -> Seq<char>
    decreases s.len(),
{
    if pat.len() > 0 && seq_ends_with(s, pat) && s.len() > 0 {
        trim_end_str_spec(s.take(s.len() - pat.len()), pat)
    } else {
        s
    }
}

/// `v` with every trailing copy of `pat` removed.
pub fn trim_end_str_chars(v: &Vec<char>, pat: &Vec<char>) -> (r: Vec<char>)
    ensures
        r@ == trim_end_str_spec(v@, pat@),
    decreases v@.len(),
{
    if pat.len() > 0 && v.len() > 0 && ends_with_chars(v, pat) {
        let shorter = subrange_chars(v, 0, v.len() - pat.len());
        proof {
            assert(shorter@ =~= v@.take(v@.len() - pat@.len()));
        }
        trim_end_str_chars(&shorter, pat)
    } else {
        let r = subrange_chars(v, 0, v.len());
        proof {
            assert(r@ =~= v@);
        }
        r
    }
}

/// Whether two character vectors hold the same characters.
pub fn eq_chars(a: &Vec<char>, b: &Vec<char>) -> (r: bool)
    ensures
        r == (a@ == b@),
{
    if a.len() != b.len() {
        return false;
    }
    let mut i: usize = 0;
    while i < a.len()
        invariant
            0 <= i <= a.len(),
            a.len() == b.len(),
            forall|j: int| 0 <= j < i ==> a@[j] == b@[j],
        decreases a.len() - i,
    {
        if a[i] != b[i] {
            return false;
        }
        i += 1;
    }
    proof {
        assert(a@ =~= b@);
    }
    true
}

} // verus!
