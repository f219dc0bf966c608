//! Character-level helpers on strings, each with its meaning as a spec function.

use vstd::prelude::*;
use vstd::std_specs::iter::IteratorSpec;

verus! {

broadcast use vstd::string::group_string_axioms;

/// The characters of `s`, in order.
pub fn chars_of(s: &str) -> (out: Vec<char>)
    ensures
        out@ == s@,
{
    let mut out: Vec<char> = Vec::new();
    let mut it = s.chars();
    assert(it.remaining() == s@);
    loop
        invariant
            out@ + it.remaining() == s@,
            it.obeys_prophetic_iter_laws(),
            it.decrease() is Some,
        ensures
            out@ == s@,
        decreases it.decrease()->0,
    {
        let ghost before = it.remaining();
        match it.next() {
            Some(c) => {
                out.push(c);
                assert(out@ + it.remaining() == s@) by {
                    assert(before == seq![c] + it.remaining());
                }
            },
            None => {
                assert(it.remaining().len() == 0);
                assert(out@ == s@);
                break;
            },
        }
    }
    out
}

/// Calls `String::from_iter` (the `FromIterator<&char>` impl) on the characters of `v`.
/// Trusted: the string holds exactly those characters, in order.
#[verifier::external_body]
pub(crate) fn string_from_chars(v: &Vec<char>) -> (r: String)
    ensures
        r@ == v@,
{
    String::from_iter(v)
}

/// The characters `s[from..to]`.
pub fn sub_chars(s: &Vec<char>, from: usize, to: usize) -> (r: Vec<char>)
    requires
        from <= to <= s.len(),
    ensures
        r@ == s@.subrange(from as int, to as int),
{
    let mut r: Vec<char> = Vec::new();
    let mut i = from;
    while i < to
        invariant
            from <= i <= to <= s.len(),
            r@ == s@.subrange(from as int, i as int),
        decreases to - i,
    {
        r.push(s[i]);
        i = i + 1;
        assert(r@ =~= s@.subrange(from as int, i as int));
    }
    r
}

/// White space as Unicode's `White_Space` property defines it.
pub open spec fn is_white_space(c: char) -> bool {
    ('\u{9}' <= c && c <= '\u{d}') || c == ' ' || c == '\u{85}' || c == '\u{a0}' || c == '\u{1680}'
        || ('\u{2000}' <= c && c <= '\u{200a}') || c == '\u{2028}' || c == '\u{2029}' || c
        == '\u{202f}' || c == '\u{205f}' || c == '\u{3000}'
}

/// Whether `c` is white space.
pub fn white_space(c: char) -> (r: bool)
    ensures
        r == is_white_space(c),
{
    ('\u{9}' <= c && c <= '\u{d}') || c == ' ' || c == '\u{85}' || c == '\u{a0}' || c == '\u{1680}'
        || ('\u{2000}' <= c && c <= '\u{200a}') || c == '\u{2028}' || c == '\u{2029}' || c
        == '\u{202f}' || c == '\u{205f}' || c == '\u{3000}'
}

/// How many white-space characters `s` starts with.
pub open spec fn leading_white_space(s: Seq<char>) -> nat
    decreases s.len(),
{
    if s.len() > 0 && is_white_space(s[0]) {
        1 + leading_white_space(s.drop_first())
    } else {
        0
    }
}

/// How many white-space characters `s` ends with.
pub open spec fn trailing_white_space(s: Seq<char>) -> nat
    decreases s.len(),
{
    if s.len() > 0 && is_white_space(s.last()) {
        1 + trailing_white_space(s.drop_last())
    } else {
        0
    }
}

/// `s` without leading and trailing white space.
pub open spec fn trimmed(s: Seq<char>) -> Seq<char> {
    let t = s.skip(leading_white_space(s) as int);
    t.take(t.len() - trailing_white_space(t))
}

proof fn lemma_leading_white_space_at(s: Seq<char>, j: int)
    requires
        0 <= j <= s.len(),
        forall|k: int| 0 <= k < j ==> is_white_space(s[k]),
        j < s.len() ==> !is_white_space(s[j]),
    ensures
        leading_white_space(s) == j,
    decreases j,
{
    if j > 0 {
        assert forall|k: int| 0 <= k < j - 1 implies is_white_space(s.drop_first()[k]) by {
            assert(s.drop_first()[k] == s[k + 1]);
        }
        if j - 1 < s.drop_first().len() {
            assert(s.drop_first()[j - 1] == s[j]);
        }
        lemma_leading_white_space_at(s.drop_first(), j - 1);
    }
}

proof fn lemma_trailing_white_space_at(s: Seq<char>, j: int)
    requires
        0 <= j <= s.len(),
        forall|k: int| s.len() - j <= k < s.len() ==> is_white_space(s[k]),
        j < s.len() ==> !is_white_space(s[s.len() - j - 1]),
    ensures
        trailing_white_space(s) == j,
    decreases j,
{
    if j > 0 {
        let t = s.drop_last();
        assert forall|k: int| t.len() - (j - 1) <= k < t.len() implies is_white_space(t[k]) by {
            assert(t[k] == s[k]);
        }
        if j - 1 < t.len() {
            assert(t[t.len() - (j - 1) - 1] == s[s.len() - j - 1]);
        }
        lemma_trailing_white_space_at(t, j - 1);
    }
}

/// `s` without leading and trailing white space.
pub fn trim_chars(s: &Vec<char>) -> (r: Vec<char>)
    ensures
        r@ == trimmed(s@),
{
    let n = s.len();
    let mut a: usize = 0;
    while a < n && white_space(s[a])
        invariant
            a <= n == s.len(),
            forall|k: int| 0 <= k < a ==> is_white_space(s@[k]),
        decreases n - a,
    {
        a = a + 1;
    }
    proof {
        lemma_leading_white_space_at(s@, a as int);
    }
    let ghost t = s@.skip(a as int);
    let mut b: usize = n;
    while b > a && white_space(s[b - 1])
        invariant
            a <= b <= n == s.len(),
            t == s@.skip(a as int),
            forall|k: int| b <= k < n ==> is_white_space(s@[k]),
        decreases b - a,
    {
        b = b - 1;
    }
    proof {
        let j = (n - b) as int;
        assert forall|k: int| t.len() - j <= k < t.len() implies is_white_space(t[k]) by {
            assert(t[k] == s@[k + a]);
        }
        if j < t.len() {
            assert(t[t.len() - j - 1] == s@[b - 1]);
        }
        lemma_trailing_white_space_at(t, j);
    }
    let r = sub_chars(s, a, b);
    assert(r@ =~= trimmed(s@));
    r
}

/// The pieces of `s` between occurrences of `sep` (there is always at least one).
pub open spec fn split_on(s: Seq<char>, sep: char) -> Seq<Seq<char>>
    decreases s.len(),
{
    if s.len() == 0 {
        seq![Seq::<char>::empty()]
    } else {
        let prev = split_on(s.drop_last(), sep);
        if s.last() == sep {
            prev.push(Seq::<char>::empty())
        } else {
            prev.drop_last().push(prev.last().push(s.last()))
        }
    }
}

proof fn lemma_split_on_nonempty(s: Seq<char>, sep: char)
    ensures
        split_on(s, sep).len() >= 1,
    decreases s.len(),
{
    if s.len() > 0 {
        lemma_split_on_nonempty(s.drop_last(), sep);
    }
}

pub open spec fn char_views(v: Seq<Vec<char>>) -> Seq<Seq<char>> {
    v.map_values(|x: Vec<char>| x@)
}

/// The pieces of `s` between occurrences of `sep`.
pub fn split_chars(s: &Vec<char>, sep: char) -> (r: Vec<Vec<char>>)
    ensures
        char_views(r@) == split_on(s@, sep),
{
    let n = s.len();
    let mut done: Vec<Vec<char>> = Vec::new();
    let mut cur: Vec<char> = Vec::new();
    let mut i: usize = 0;
    assert(s@.take(0) =~= Seq::<char>::empty());
    while i < n
        invariant
            n == s.len(),
            i <= n,
            split_on(s@.take(i as int), sep).len() >= 1,
            char_views(done@) == split_on(s@.take(i as int), sep).drop_last(),
            cur@ == split_on(s@.take(i as int), sep).last(),
        decreases n - i,
    {
        let c = s[i];
        let ghost prev = split_on(s@.take(i as int), sep);
        assert(s@.take(i + 1).drop_last() =~= s@.take(i as int));
        assert(s@.take(i + 1).last() == c);
        proof {
            lemma_split_on_nonempty(s@.take(i + 1), sep);
        }
        if c == sep {
            let piece = cur;
            cur = Vec::new();
            let ghost before = done@;
            done.push(piece);
            assert(char_views(done@) =~= char_views(before).push(prev.last()));
            let ghost next = split_on(s@.take(i + 1), sep);
            assert(next == prev.push(Seq::<char>::empty()));
            assert(prev =~= prev.drop_last().push(prev.last()));
            assert(char_views(done@) =~= next.drop_last());
        } else {
            cur.push(c);
            let ghost next = split_on(s@.take(i + 1), sep);
            assert(next == prev.drop_last().push(prev.last().push(c)));
            assert(next.drop_last() =~= prev.drop_last());
        }
        i = i + 1;
    }
    let ghost pieces = split_on(s@.take(n as int), sep);
    assert(s@.take(n as int) =~= s@);
    let ghost before = done@;
    let ghost last = cur@;
    done.push(cur);
    assert(char_views(done@) =~= char_views(before).push(last));
    assert(pieces =~= pieces.drop_last().push(pieces.last()));
    assert(char_views(done@) =~= pieces);
    done
}

/// A line without the carriage return that ended it.
pub open spec fn without_cr(line: Seq<char>) -> Seq<char> {
    if line.len() > 0 && line.last() == '\r' {
        line.drop_last()
    } else {
        line
    }
}

/// The lines of `s`: pieces ended by `\n` or `\r\n`, then a last piece if it is not empty.
pub open spec fn lines_of(s: Seq<char>) -> Seq<Seq<char>> {
    let pieces = split_on(s, '\n');
    let ended = pieces.drop_last().map_values(|l: Seq<char>| without_cr(l));
    if pieces.last().len() > 0 {
        ended.push(pieces.last())
    } else {
        ended
    }
}

/// The lines of `s`.
pub fn lines(s: &Vec<char>) -> (r: Vec<Vec<char>>)
    ensures
        char_views(r@) == lines_of(s@),
{
    let pieces = split_chars(s, '\n');
    proof {
        lemma_split_on_nonempty(s@, '\n');
    }
    let ghost pv = split_on(s@, '\n');
    let mut out: Vec<Vec<char>> = Vec::new();
    let mut i: usize = 0;
    while i + 1 < pieces.len()
        invariant
            char_views(pieces@) == pv,
            pv == split_on(s@, '\n'),
            pv.len() >= 1,
            i < pieces.len(),
            char_views(out@) == pv.drop_last().take(i as int).map_values(|l: Seq<char>| without_cr(l)),
        decreases pieces.len() - i,
    {
        let piece = &pieces[i];
        let line = if piece.len() > 0 && piece[piece.len() - 1] == '\r' {
            sub_chars(piece, 0, piece.len() - 1)
        } else {
            sub_chars(piece, 0, piece.len())
        };
        assert(piece@ == pv[i as int]);
        assert(line@ =~= without_cr(pv[i as int]));
        let ghost before = out@;
        let ghost lv = line@;
        out.push(line);
        assert(char_views(out@) =~= char_views(before).push(lv));
        assert(pv.drop_last().take(i + 1) =~= pv.drop_last().take(i as int).push(pv[i as int]));
        i = i + 1;
        assert(char_views(out@) =~= pv.drop_last().take(i as int).map_values(
            |l: Seq<char>| without_cr(l),
        ));
    }
    assert(pv.drop_last().take(i as int) =~= pv.drop_last());
    let last = &pieces[pieces.len() - 1];
    assert(last@ == pv.last());
    if last.len() > 0 {
        let copy = sub_chars(last, 0, last.len());
        assert(copy@ =~= pv.last());
        let ghost before = out@;
        out.push(copy);
        assert(char_views(out@) =~= char_views(before).push(pv.last()));
        assert(char_views(out@) =~= lines_of(s@));
    } else {
        assert(char_views(out@) =~= lines_of(s@));
    }
    out
}

/// The characters of `s` before its first white space.
pub open spec fn word_at_start(s: Seq<char>) -> Seq<char>
    decreases s.len(),
{
    if s.len() == 0 || is_white_space(s[0]) {
        Seq::empty()
    } else {
        seq![s[0]] + word_at_start(s.drop_first())
    }
}

/// The first white-space separated word of `s`, if any.
pub open spec fn first_word(s: Seq<char>) -> Option<Seq<char>> {
    let t = s.skip(leading_white_space(s) as int);
    if t.len() == 0 {
        None
    } else {
        Some(word_at_start(t))
    }
}

proof fn lemma_word_at_start(s: Seq<char>, j: int)
    requires
        0 <= j <= s.len(),
        forall|k: int| 0 <= k < j ==> !is_white_space(s[k]),
        j < s.len() ==> is_white_space(s[j]),
    ensures
        word_at_start(s) == s.take(j),
    decreases j,
{
    if j > 0 {
        let t = s.drop_first();
        assert forall|k: int| 0 <= k < j - 1 implies !is_white_space(t[k]) by {
            assert(t[k] == s[k + 1]);
        }
        if j - 1 < t.len() {
            assert(t[j - 1] == s[j]);
        }
        lemma_word_at_start(t, j - 1);
        assert(seq![s[0]] + t.take(j - 1) =~= s.take(j));
    } else {
        assert(s.take(0) =~= Seq::<char>::empty());
    }
}

/// The first white-space separated word of `s`, if any.
pub fn first_word_of(s: &Vec<char>) -> (r: Option<Vec<char>>)
    ensures
        match r {
            Some(w) => first_word(s@) == Some(w@),
            None => first_word(s@) is None,
        },
{
    let n = s.len();
    let mut a: usize = 0;
    while a < n && white_space(s[a])
        invariant
            a <= n == s.len(),
            forall|k: int| 0 <= k < a ==> is_white_space(s@[k]),
        decreases n - a,
    {
        a = a + 1;
    }
    proof {
        lemma_leading_white_space_at(s@, a as int);
    }
    if a == n {
        return None;
    }
    let mut b: usize = a;
    while b < n && !white_space(s[b])
        invariant
            a <= b <= n == s.len(),
            forall|k: int| a <= k < b ==> !is_white_space(s@[k]),
        decreases n - b,
    {
        b = b + 1;
    }
    let ghost t = s@.skip(a as int);
    proof {
        let j = (b - a) as int;
        assert forall|k: int| 0 <= k < j implies !is_white_space(t[k]) by {
            assert(t[k] == s@[k + a]);
        }
        if j < t.len() {
            assert(t[j] == s@[b as int]);
        }
        lemma_word_at_start(t, j);
    }
    let w = sub_chars(s, a, b);
    assert(w@ =~= t.take((b - a) as int));
    Some(w)
}

/// The part of `s` after its last `c` (all of `s` when there is none).
pub open spec fn after_last(s: Seq<char>, c: char) -> Seq<char>
    decreases s.len(),
{
    if s.len() == 0 {
        s
    } else if s.last() == c {
        Seq::empty()
    } else {
        after_last(s.drop_last(), c).push(s.last())
    }
}

/// The part of `s` before its last `c`, when it has one.
pub open spec fn before_last(s: Seq<char>, c: char) -> Option<Seq<char>>
    decreases s.len(),
{
    if s.len() == 0 {
        None
    } else if s.last() == c {
        Some(s.drop_last())
    } else {
        before_last(s.drop_last(), c)
    }
}

/// Where the last `c` in `s` is, or `s.len()` when there is none.
fn last_index_of(s: &Vec<char>, c: char) -> (r: usize)
    ensures
        r <= s.len(),
        r < s.len() ==> s@[r as int] == c,
        forall|k: int| r < k < s.len() ==> s@[k] != c,
        r == s.len() ==> forall|k: int| 0 <= k < s.len() ==> s@[k] != c,
{
    let mut i = s.len();
    while i > 0
        invariant
            i <= s.len(),
            forall|k: int| i <= k < s.len() ==> s@[k] != c,
        decreases i,
    {
        if s[i - 1] == c {
            return i - 1;
        }
        i = i - 1;
    }
    s.len()
}

proof fn lemma_after_last(s: Seq<char>, c: char, r: int)
    requires
        0 <= r <= s.len(),
        r < s.len() ==> s[r] == c,
        forall|k: int| r < k < s.len() ==> s[k] != c,
        r == s.len() ==> forall|k: int| 0 <= k < s.len() ==> s[k] != c,
    ensures
        after_last(s, c) == (if r < s.len() { s.skip(r + 1) } else { s }),
        before_last(s, c) == (if r < s.len() { Some(s.take(r)) } else { None::<Seq<char>> }),
    decreases s.len(),
{
    if s.len() > 0 {
        let t = s.drop_last();
        if r < s.len() - 1 {
            lemma_after_last(t, c, r);
            assert(t.skip(r + 1).push(s.last()) =~= s.skip(r + 1));
            assert(t.take(r) =~= s.take(r));
        } else if r == s.len() - 1 {
            assert(s.skip(r + 1) =~= Seq::<char>::empty());
            assert(s.take(r) =~= t);
        } else {
            lemma_after_last(t, c, t.len() as int);
            assert(t.push(s.last()) =~= s);
        }
    }
}

/// The part of `s` after its last `c` (all of `s` when there is none).
pub fn after_last_of(s: &Vec<char>, c: char) -> (r: Vec<char>)
    ensures
        r@ == after_last(s@, c),
{
    let i = last_index_of(s, c);
    proof {
        lemma_after_last(s@, c, i as int);
    }
    if i < s.len() {
        let r = sub_chars(s, i + 1, s.len());
        assert(r@ =~= s@.skip(i + 1));
        r
    } else {
        let r = sub_chars(s, 0, s.len());
        assert(r@ =~= s@);
        r
    }
}

/// The part of `s` before its last `c`, when it has one.
pub fn before_last_of(s: &Vec<char>, c: char) -> (r: Option<Vec<char>>)
    ensures
        match r {
            Some(v) => before_last(s@, c) == Some(v@),
            None => before_last(s@, c) is None,
        },
{
    let i = last_index_of(s, c);
    proof {
        lemma_after_last(s@, c, i as int);
    }
    if i < s.len() {
        let r = sub_chars(s, 0, i);
        assert(r@ =~= s@.take(i as int));
        Some(r)
    } else {
        None
    }
}

} // verus!
