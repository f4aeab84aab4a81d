//! Text as a sequence of characters: whitespace, trimming, lines and
//! substring search, each with the mathematical function it computes.
use vstd::prelude::*;

verus! {

/// `String::push` appends one character to the end of the string and changes
/// nothing else, as the standard library documents.
pub assume_specification[ String::push ](s: &mut String, c: char)
    ensures
        final(s)@ == old(s)@.push(c),
;

/// The characters of `s`, in order.
pub fn chars_of(s: &str) -> (v: Vec<char>)
    ensures
        v@ == s@,
{
    let mut v: Vec<char> = Vec::new();
    let chars = s.chars();
    for c in it: chars
        invariant
            v@ == it.seq().take(it.index() as int),
            it.seq() == s@,
    {
        v.push(c);
    }
    v
}

/// The string made of the characters `v[from..to]`.
pub fn string_of(v: &Vec<char>, from: usize, to: usize) -> (s: String)
    requires
        from <= to <= v.len(),
    ensures
        s@ == v@.subrange(from as int, to as int),
{
    let mut s = String::new();
    let mut i: usize = from;
    while i < to
        invariant
            from <= i <= to <= v.len(),
            s@ == v@.subrange(from as int, i as int),
        decreases to - i,
    {
        s.push(v[i]);
        i += 1;
    }
    s
}

/// Whether `a` and `b` hold the same characters.
pub fn same_text(a: &str, b: &str) -> (same: bool)
    ensures
        same == (a@ == b@),
{
    let left = chars_of(a);
    let right = chars_of(b);
    let n = left.len();
    if n != right.len() {
        return false;
    }
    let mut i: usize = 0;
    while i < n
        invariant
            i <= n == left.len(),
            n == right.len(),
            left@ == a@,
            right@ == b@,
            forall|k: int| 0 <= k < i ==> left@[k] == right@[k],
        decreases n - i,
    {
        if left[i] != right[i] {
            assert(a@[i as int] != b@[i as int]);
            return false;
        }
        i += 1;
    }
    assert(left@ =~= right@);
    true
}

/// Whether `c` has the Unicode property `White_Space`.
pub open spec fn is_whitespace(c: char) -> bool {
    ||| '\u{9}' <= c <= '\u{d}'
    ||| c == ' '
    ||| c == '\u{85}'
    ||| c == '\u{a0}'
    ||| c == '\u{1680}'
    ||| '\u{2000}' <= c <= '\u{200a}'
    ||| c == '\u{2028}'
    ||| c == '\u{2029}'
    ||| c == '\u{202f}'
    ||| c == '\u{205f}'
    ||| c == '\u{3000}'
}

/// Whether `c` is a whitespace character.
pub fn is_space(c: char) -> (b: bool)
    ensures
        b == is_whitespace(c),
{
    (c >= '\u{9}' && c <= '\u{d}') || c == ' ' || c == '\u{85}' || c == '\u{a0}' || c
        == '\u{1680}' || (c >= '\u{2000}' && c <= '\u{200a}') || c == '\u{2028}' || c
        == '\u{2029}' || c == '\u{202f}' || c == '\u{205f}' || c == '\u{3000}'
}

/// How many whitespace characters `s` starts with.
pub open spec fn leading_ws(s: Seq<char>) -> nat
    decreases s.len(),
{
    if s.len() > 0 && is_whitespace(s[0]) {
        1 + leading_ws(s.drop_first())
    } else {
        0
    }
}

/// How many whitespace characters `s` ends with.
pub open spec fn trailing_ws(s: Seq<char>) -> nat
    decreases s.len(),
{
    if s.len() > 0 && is_whitespace(s.last()) {
        1 + trailing_ws(s.drop_last())
    } else {
        0
    }
}

/// `s` without the whitespace it starts and ends with.
pub open spec fn trimmed(s: Seq<char>) -> Seq<char> {
    if leading_ws(s) >= s.len() {
        Seq::empty()
    } else {
        s.subrange(leading_ws(s) as int, s.len() - trailing_ws(s))
    }
}

/// What trimming leaves: a stretch of `s` with nothing but whitespace
/// before it and after it, which neither starts nor ends with whitespace.
pub proof fn lemma_trimmed(s: Seq<char>)
    ensures
        leading_ws(s) <= s.len(),
        trailing_ws(s) <= s.len(),
        forall|k: int| 0 <= k < leading_ws(s) ==> is_whitespace(#[trigger] s[k]),
        forall|k: int| s.len() - trailing_ws(s) <= k < s.len() ==> is_whitespace(#[trigger] s[k]),
        trimmed(s).len() > 0 ==> leading_ws(s) + trimmed(s).len() + trailing_ws(s) == s.len(),
        trimmed(s).len() > 0 ==> !is_whitespace(trimmed(s).first()) && !is_whitespace(
            trimmed(s).last(),
        ),
        trimmed(s).len() == 0 ==> forall|k: int| 0 <= k < s.len() ==> is_whitespace(#[trigger] s[k]),
{
    lemma_leading_run(s);
    lemma_trailing_run(s);
    if leading_ws(s) < s.len() {
        assert(leading_ws(s) + trailing_ws(s) < s.len()) by {
            if leading_ws(s) + trailing_ws(s) >= s.len() {
                assert(is_whitespace(s[leading_ws(s) as int]));
            }
        }
    }
}

/// The leading whitespace of `s` is whitespace, and what follows it is none.
pub proof fn lemma_leading_run(s: Seq<char>)
    ensures
        leading_ws(s) <= s.len(),
        forall|k: int| 0 <= k < leading_ws(s) ==> is_whitespace(#[trigger] s[k]),
        leading_ws(s) < s.len() ==> !is_whitespace(s[leading_ws(s) as int]),
    decreases s.len(),
{
    if s.len() > 0 && is_whitespace(s[0]) {
        let t = s.drop_first();
        lemma_leading_run(t);
        assert forall|k: int| 0 <= k < leading_ws(s) implies is_whitespace(#[trigger] s[k]) by {
            if k > 0 {
                assert(s[k] == t[k - 1]);
            }
        }
        if leading_ws(s) < s.len() {
            assert(s[leading_ws(s) as int] == t[leading_ws(t) as int]);
        }
    }
}

/// The trailing whitespace of `s` is whitespace, and what stands before it
/// is none.
pub proof fn lemma_trailing_run(s: Seq<char>)
    ensures
        trailing_ws(s) <= s.len(),
        forall|k: int| s.len() - trailing_ws(s) <= k < s.len() ==> is_whitespace(#[trigger] s[k]),
        trailing_ws(s) < s.len() ==> !is_whitespace(s[s.len() - trailing_ws(s) - 1]),
    decreases s.len(),
{
    if s.len() > 0 && is_whitespace(s.last()) {
        let t = s.drop_last();
        lemma_trailing_run(t);
        assert forall|k: int| s.len() - trailing_ws(s) <= k < s.len() implies is_whitespace(
            #[trigger] s[k],
        ) by {
            if k < s.len() - 1 {
                assert(s[k] == t[k]);
            }
        }
        if trailing_ws(s) < s.len() {
            assert(s[s.len() - trailing_ws(s) - 1] == t[t.len() - trailing_ws(t) - 1]);
        }
    }
}

/// A run of whitespace at the start of `s` that stops at a character which is
/// none, or at the end, is all the leading whitespace of `s`.
pub proof fn lemma_leading_ws(s: Seq<char>, n: int)
    requires
        0 <= n <= s.len(),
        forall|k: int| 0 <= k < n ==> is_whitespace(#[trigger] s[k]),
        n < s.len() ==> !is_whitespace(s[n]),
    ensures
        leading_ws(s) == n,
    decreases n,
{
    if n > 0 {
        let t = s.drop_first();
        assert(forall|k: int| 0 <= k < n - 1 ==> is_whitespace(#[trigger] t[k])) by {
            assert(forall|k: int| 0 <= k < n - 1 ==> t[k] == s[k + 1]);
        }
        lemma_leading_ws(t, n - 1);
    }
}

/// A run of whitespace at the end of `s` that starts after a character which
/// is none, or at the start, is all the trailing whitespace of `s`.
pub proof fn lemma_trailing_ws(s: Seq<char>, n: int)
    requires
        0 <= n <= s.len(),
        forall|k: int| s.len() - n <= k < s.len() ==> is_whitespace(#[trigger] s[k]),
        n < s.len() ==> !is_whitespace(s[s.len() - n - 1]),
    ensures
        trailing_ws(s) == n,
    decreases n,
{
    if n > 0 {
        let t = s.drop_last();
        assert(forall|k: int| t.len() - (n - 1) <= k < t.len() ==> is_whitespace(#[trigger] t[k]))
            by {
            assert(forall|k: int| 0 <= k < t.len() ==> t[k] == s[k]);
        }
        lemma_trailing_ws(t, n - 1);
    }
}

/// The bounds of `v` without the whitespace around it: `v[from..to]` is the
/// trimmed text.
pub fn trim_bounds(v: &Vec<char>) -> (bounds: (usize, usize))
    ensures
        bounds.0 <= bounds.1 <= v.len(),
        v@.subrange(bounds.0 as int, bounds.1 as int) == trimmed(v@),
{
    let n = v.len();
    let mut from: usize = 0;
    while from < n && is_space(v[from])
        invariant
            from <= n == v.len(),
            forall|k: int| 0 <= k < from ==> is_whitespace(#[trigger] v@[k]),
        decreases n - from,
    {
        from += 1;
    }
    proof {
        lemma_leading_ws(v@, from as int);
    }
    if from == n {
        assert(v@.subrange(from as int, from as int) == Seq::<char>::empty());
        return (from, from);
    }
    let mut to: usize = n;
    while to > from && is_space(v[to - 1])
        invariant
            from <= to <= n == v.len(),
            from < n,
            !is_whitespace(v@[from as int]),
            forall|k: int| to <= k < n ==> is_whitespace(#[trigger] v@[k]),
        decreases to,
    {
        to -= 1;
    }
    proof {
        lemma_trailing_ws(v@, n - to);
    }
    (from, to)
}

/// `s` without the whitespace around it.
pub fn trim(s: &str) -> (t: String)
    ensures
        t@ == trimmed(s@),
{
    let v = chars_of(s);
    let (from, to) = trim_bounds(&v);
    string_of(&v, from, to)
}

/// Whether `pat` stands in `hay` at position `i`.
pub open spec fn occurs_at(hay: Seq<char>, pat: Seq<char>, i: int) -> bool {
    &&& 0 <= i
    &&& i + pat.len() <= hay.len()
    &&& hay.subrange(i, i + pat.len()) == pat
}

/// Whether `pat` stands somewhere in `hay`. The empty pattern stands in
/// every text.
pub open spec fn contains(hay: Seq<char>, pat: Seq<char>) -> bool {
    exists|i: int| occurs_at(hay, pat, i)
}

/// A text that holds `pat` still holds it with more text before it and
/// after it.
pub proof fn lemma_contains_within(before: Seq<char>, hay: Seq<char>, after: Seq<char>, pat: Seq<char>)
    requires
        contains(hay, pat),
    ensures
        contains(before + hay + after, pat),
{
    let i = choose|i: int| occurs_at(hay, pat, i);
    let whole = before + hay + after;
    assert(whole.subrange(before.len() + i, before.len() + i + pat.len()) =~= hay.subrange(
        i,
        i + pat.len(),
    ));
    assert(occurs_at(whole, pat, before.len() + i));
}

/// Every text holds itself.
pub proof fn lemma_contains_itself(hay: Seq<char>)
    ensures
        contains(hay, hay),
{
    assert(hay.subrange(0, hay.len() as int) =~= hay);
    assert(occurs_at(hay, hay, 0));
}

/// Whether `pat` stands in `hay` at position `i`.
pub fn matches_at(hay: &Vec<char>, pat: &Vec<char>, i: usize) -> (b: bool)
    requires
        i + pat.len() <= hay.len(),
    ensures
        b == occurs_at(hay@, pat@, i as int),
{
    let m = pat.len();
    let mut j: usize = 0;
    while j < m
        invariant
            j <= m == pat.len(),
            i + m <= hay.len(),
            forall|k: int| 0 <= k < j ==> hay@[i + k] == pat@[k],
        decreases m - j,
    {
        if hay[i + j] != pat[j] {
            proof {
                let window = hay@.subrange(i as int, i + m);
                assert(window[j as int] == hay@[i + j]);
            }
            return false;
        }
        j += 1;
    }
    assert(hay@.subrange(i as int, i + m) =~= pat@);
    true
}

/// Whether `pat` stands somewhere in `hay`.
pub fn find_in(hay: &Vec<char>, pat: &Vec<char>) -> (b: bool)
    ensures
        b == contains(hay@, pat@),
{
    let n = hay.len();
    let m = pat.len();
    if m > n {
        return false;
    }
    let last = n - m;
    let mut i: usize = 0;
    loop
        invariant
            last + m == n,
            n == hay.len(),
            m == pat.len(),
            i <= last,
            forall|k: int| 0 <= k < i ==> !occurs_at(hay@, pat@, k),
        decreases last - i,
    {
        if matches_at(hay, pat, i) {
            return true;
        }
        if i == last {
            return false;
        }
        i += 1;
    }
}

/// Whether `s` ends with the character `c`.
pub open spec fn ends_with(s: Seq<char>, c: char) -> bool {
    s.len() > 0 && s.last() == c
}

/// Whether `v` ends with the character `c`.
pub fn has_last(v: &Vec<char>, c: char) -> (b: bool)
    ensures
        b == ends_with(v@, c),
{
    v.len() > 0 && v[v.len() - 1] == c
}

/// Where the first `c` of `s` stands, or the length of `s` if it has none.
pub open spec fn first_of(s: Seq<char>, c: char) -> nat
    decreases s.len(),
{
    if s.len() == 0 || s[0] == c {
        0
    } else {
        1 + first_of(s.drop_first(), c)
    }
}

/// `line` without a carriage return at its end.
pub open spec fn strip_cr(line: Seq<char>) -> Seq<char> {
    if ends_with(line, '\r') {
        line.drop_last()
    } else {
        line
    }
}

/// The lines of `s`. A line ends at a line feed, or at a carriage return
/// directly followed by one. The line ending is no part of the line. The
/// last line needs no line ending, and a carriage return at its very end
/// stays. The empty text has no line.
pub open spec fn lines(s: Seq<char>) -> Seq<Seq<char>>
    decreases s.len(),
{
    if s.len() == 0 {
        Seq::empty()
    } else if first_of(s, '\n') >= s.len() {
        seq![s]
    } else {
        seq![strip_cr(s.take(first_of(s, '\n') as int))] + lines(
            s.skip(first_of(s, '\n') as int + 1),
        )
    }
}

/// A stretch without `c` that stops at one, or at the end, reaches the
/// first `c`.
pub proof fn lemma_first_of(s: Seq<char>, c: char, n: int)
    requires
        0 <= n <= s.len(),
        forall|k: int| 0 <= k < n ==> #[trigger] s[k] != c,
        n < s.len() ==> s[n] == c,
    ensures
        first_of(s, c) == n,
    decreases n,
{
    if n > 0 {
        let t = s.drop_first();
        assert(forall|k: int| 0 <= k < n - 1 ==> #[trigger] t[k] != c) by {
            assert(forall|k: int| 0 <= k < n - 1 ==> t[k] == s[k + 1]);
        }
        lemma_first_of(t, c, n - 1);
    }
}

/// The lines `ls` as one text, with a line feed between one line and the
/// next.
pub open spec fn unlines(ls: Seq<Seq<char>>) -> Seq<char>
    decreases ls.len(),
{
    if ls.len() == 0 {
        Seq::empty()
    } else if ls.len() == 1 {
        ls[0]
    } else {
        unlines(ls.drop_last()) + seq!['\n'] + ls.last()
    }
}

/// Whether `line` can stand as a line of a text and be read back as it is:
/// it holds no line feed and does not end with a carriage return.
pub open spec fn is_line(line: Seq<char>) -> bool {
    (forall|k: int| 0 <= k < line.len() ==> #[trigger] line[k] != '\n') && !ends_with(line, '\r')
}

/// The text of two or more lines is the first line, a line feed, and the
/// text of the other lines.
pub proof fn lemma_unlines_head(ls: Seq<Seq<char>>)
    requires
        ls.len() >= 2,
    ensures
        unlines(ls) == ls[0] + seq!['\n'] + unlines(ls.drop_first()),
    decreases ls.len(),
{
    let front = ls.drop_last();
    let rest = ls.drop_first();
    if ls.len() == 2 {
        assert(unlines(front) == ls[0]);
        assert(unlines(rest) == ls[1]);
    } else {
        lemma_unlines_head(front);
        assert(front.drop_first() =~= rest.drop_last());
        assert(rest.last() == ls.last());
        assert(unlines(ls) =~= ls[0] + seq!['\n'] + (unlines(rest.drop_last()) + seq!['\n']
            + rest.last()));
    }
}

/// Lines that are put into one text are the lines of that text, where each
/// can stand as a line and the last is not empty.
pub proof fn lemma_lines_unlines(ls: Seq<Seq<char>>)
    requires
        ls.len() > 0,
        forall|i: int| 0 <= i < ls.len() ==> is_line(#[trigger] ls[i]),
        ls.last().len() > 0,
    ensures
        lines(unlines(ls)) == ls,
    decreases ls.len(),
{
    let s = unlines(ls);
    assert(is_line(ls[0]));
    if ls.len() == 1 {
        lemma_first_of(s, '\n', s.len() as int);
        assert(lines(s) =~= ls);
    } else {
        let rest = ls.drop_first();
        lemma_unlines_head(ls);
        let n = ls[0].len() as int;
        assert(s[n] == '\n');
        assert forall|k: int| 0 <= k < n implies #[trigger] s[k] != '\n' by {
            assert(s[k] == ls[0][k]);
        }
        lemma_first_of(s, '\n', n);
        assert(s.take(n) =~= ls[0]);
        assert(s.skip(n + 1) =~= unlines(rest));
        assert forall|i: int| 0 <= i < rest.len() implies is_line(#[trigger] rest[i]) by {
            assert(rest[i] == ls[i + 1]);
        }
        assert(rest.last() == ls.last());
        lemma_lines_unlines(rest);
        assert(seq![ls[0]] + rest =~= ls);
    }
}

/// Trimming a text that starts with one line feed, and neither goes on
/// nor ends with whitespace, takes the line feed away and nothing else.
pub proof fn lemma_trimmed_after_newline(t: Seq<char>)
    requires
        t.len() > 0,
        !is_whitespace(t.first()),
        !is_whitespace(t.last()),
    ensures
        trimmed(seq!['\n'] + t) == t,
{
    let s = seq!['\n'] + t;
    assert(s[0] == '\n');
    assert(s[1] == t[0]);
    assert(s[s.len() - 1] == t.last());
    lemma_leading_ws(s, 1);
    lemma_trailing_ws(s, 0);
    assert(s.subrange(1, s.len() as int) =~= t);
}

/// The texts that the strings of `v` hold.
pub open spec fn texts(v: Seq<String>) -> Seq<Seq<char>> {
    Seq::new(v.len(), |i: int| v[i]@)
}

/// The texts that the rows of `v` hold.
pub open spec fn rows(v: Seq<Vec<char>>) -> Seq<Seq<char>> {
    Seq::new(v.len(), |i: int| v[i]@)
}

/// The lines of `v`, in order.
pub fn split_lines(v: &Vec<char>) -> (out: Vec<Vec<char>>)
    ensures
        rows(out@) == lines(v@),
{
    let n = v.len();
    let mut out: Vec<Vec<char>> = Vec::new();
    let mut start: usize = 0;
    assert(v@.skip(0) == v@);
    assert(rows(out@) == Seq::<Seq<char>>::empty());
    while start < n
        invariant
            start <= n == v.len(),
            lines(v@) == rows(out@) + lines(v@.skip(start as int)),
        decreases n - start,
    {
        let ghost rest = v@.skip(start as int);
        let mut end: usize = start;
        while end < n && v[end] != '\n'
            invariant
                start <= end <= n == v.len(),
                rest == v@.skip(start as int),
                forall|k: int| 0 <= k < end - start ==> #[trigger] rest[k] != '\n',
            decreases n - end,
        {
            end += 1;
        }
        proof {
            lemma_first_of(rest, '\n', end - start);
        }
        let mut stop: usize = end;
        if end < n && end > start && v[end - 1] == '\r' {
            stop = end - 1;
        }
        let mut line: Vec<char> = Vec::new();
        let mut i: usize = start;
        while i < stop
            invariant
                start <= i <= stop <= n == v.len(),
                line@ == v@.subrange(start as int, i as int),
            decreases stop - i,
        {
            line.push(v[i]);
            i += 1;
        }
        let ghost before = rows(out@);
        out.push(line);
        proof {
            assert(rows(out@) =~= before.push(line@));
            if end < n {
                assert(rest.take(end - start) == v@.subrange(start as int, end as int));
                assert(strip_cr(rest.take(end - start)) == line@);
                assert(rest.skip(end - start + 1) == v@.skip(end + 1));
                assert(lines(rest) == seq![line@] + lines(v@.skip(end + 1)));
                assert(before + (seq![line@] + lines(v@.skip(end + 1))) == before.push(line@)
                    + lines(v@.skip(end + 1)));
            } else {
                assert(line@ == rest);
                assert(lines(rest) == seq![rest]);
                assert(lines(v@.skip(n as int)) == Seq::<Seq<char>>::empty());
                assert(before + seq![rest] == before.push(rest) + Seq::<Seq<char>>::empty());
            }
        }
        start = if end < n { end + 1 } else { n };
    }
    assert(lines(v@.skip(n as int)) == Seq::<Seq<char>>::empty());
    out
}

/// The pieces of `s` between its vertical bars, each without the whitespace
/// around it, and without the pieces of which nothing is left.
pub open spec fn pipe_tokens(s: Seq<char>) -> Seq<Seq<char>>
    decreases s.len(),
{
    let bar = first_of(s, '|') as int;
    let token = trimmed(s.take(bar));
    let here = if token.len() > 0 {
        seq![token]
    } else {
        Seq::empty()
    };
    if bar >= s.len() {
        here
    } else {
        here + pipe_tokens(s.skip(bar + 1))
    }
}

/// The pieces of `v` between its vertical bars, trimmed, those left out of
/// which nothing is left.
pub fn split_pipes(v: &Vec<char>) -> (out: Vec<String>)
    ensures
        texts(out@) == pipe_tokens(v@),
{
    let n = v.len();
    let mut out: Vec<String> = Vec::new();
    let mut start: usize = 0;
    assert(v@.skip(0) == v@);
    assert(texts(out@) =~= Seq::<Seq<char>>::empty());
    loop
        invariant
            start <= n == v.len(),
            pipe_tokens(v@) == texts(out@) + pipe_tokens(v@.skip(start as int)),
        decreases n - start,
    {
        let ghost rest = v@.skip(start as int);
        let mut end: usize = start;
        while end < n && v[end] != '|'
            invariant
                start <= end <= n == v.len(),
                rest == v@.skip(start as int),
                forall|k: int| 0 <= k < end - start ==> #[trigger] rest[k] != '|',
            decreases n - end,
        {
            end += 1;
        }
        proof {
            lemma_first_of(rest, '|', end - start);
        }
        let mut piece: Vec<char> = Vec::new();
        let mut i: usize = start;
        while i < end
            invariant
                start <= i <= end <= n == v.len(),
                piece@ == v@.subrange(start as int, i as int),
            decreases end - i,
        {
            piece.push(v[i]);
            i += 1;
        }
        assert(piece@ == rest.take(end - start));
        let (from, to) = trim_bounds(&piece);
        let ghost before = texts(out@);
        if to > from {
            let token = string_of(&piece, from, to);
            out.push(token);
            assert(texts(out@) =~= before + seq![trimmed(piece@)]);
        } else {
            assert(texts(out@) =~= before + Seq::<Seq<char>>::empty());
        }
        if end >= n {
            return out;
        }
        proof {
            assert(rest.skip(end - start + 1) == v@.skip(end + 1));
            let here = if trimmed(piece@).len() > 0 {
                seq![trimmed(piece@)]
            } else {
                Seq::<Seq<char>>::empty()
            };
            assert(pipe_tokens(rest) == here + pipe_tokens(v@.skip(end + 1)));
            assert(before + (here + pipe_tokens(v@.skip(end + 1))) =~= (before + here) + pipe_tokens(
                v@.skip(end + 1),
            ));
        }
        start = end + 1;
    }
}

/// The character of the digit `d`.
pub open spec fn digit(d: nat) -> char {
    if d == 0 {
        '0'
    } else if d == 1 {
        '1'
    } else if d == 2 {
        '2'
    } else if d == 3 {
        '3'
    } else if d == 4 {
        '4'
    } else if d == 5 {
        '5'
    } else if d == 6 {
        '6'
    } else if d == 7 {
        '7'
    } else if d == 8 {
        '8'
    } else {
        '9'
    }
}

/// The number `n` in decimal digits, without leading zeros.
pub open spec fn decimal(n: nat) -> Seq<char>
    decreases n,
{
    if n < 10 {
        seq![digit(n)]
    } else {
        decimal(n / 10).push(digit(n % 10))
    }
}

/// The character of the digit `d`.
pub fn digit_char(d: u16) -> (c: char)
    requires
        d < 10,
    ensures
        c == digit(d as nat),
{
    if d == 0 {
        '0'
    } else if d == 1 {
        '1'
    } else if d == 2 {
        '2'
    } else if d == 3 {
        '3'
    } else if d == 4 {
        '4'
    } else if d == 5 {
        '5'
    } else if d == 6 {
        '6'
    } else if d == 7 {
        '7'
    } else if d == 8 {
        '8'
    } else {
        '9'
    }
}

/// The number `n` in decimal digits.
pub fn decimal_of(n: u16) -> (s: String)
    ensures
        s@ == decimal(n as nat),
    decreases n,
{
    if n < 10 {
        let mut s = String::new();
        s.push(digit_char(n));
        assert(s@ =~= seq![digit(n as nat)]);
        s
    } else {
        let mut s = decimal_of(n / 10);
        s.push(digit_char(n % 10));
        s
    }
}

/// Appends the characters of `src` to `out`.
pub fn push_all(out: &mut Vec<char>, src: &Vec<char>)
    ensures
        final(out)@ == old(out)@ + src@,
{
    let n = src.len();
    let mut i: usize = 0;
    while i < n
        invariant
            i <= n == src.len(),
            out@ == old(out)@ + src@.take(i as int),
        decreases n - i,
    {
        out.push(src[i]);
        i += 1;
    }
    assert(src@.take(n as int) == src@);
}

} // verus!
