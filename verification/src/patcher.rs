//! The settings patcher: sets one key of a brace-delimited settings file by
//! rewriting lines, without parsing the file.
//!
//! Every line that holds the key pattern becomes the key line. Where no line
//! before it held the pattern, a line that ends with a closing brace gets the
//! key line put in front of it. A file that does not exist yet starts as an
//! object with the one key.
use crate::text::{
    chars_of, contains, ends_with, find_in, has_last, is_line, is_whitespace,
    lemma_contains_itself, lemma_contains_within, lemma_lines_unlines,
    lemma_trimmed_after_newline, lines, push_all, rows, split_lines, string_of, trim_bounds,
    trimmed, unlines,
};
use vstd::prelude::*;

verus! {

/// The key line: four spaces, the pattern, then the value in double quotes.
pub open spec fn key_line(pat: Seq<char>, value: Seq<char>) -> Seq<char> {
    seq![' ', ' ', ' ', ' '] + pat + seq!['"'] + value + seq!['"']
}

/// Whether a line before line `i` holds the pattern.
pub open spec fn seen_before(ls: Seq<Seq<char>>, pat: Seq<char>, i: int) -> bool {
    exists|j: int| 0 <= j < i && contains(#[trigger] ls[j], pat)
}

/// What line `i` contributes to the patched text.
///
/// A line that holds the pattern is replaced by the key line, and keeps a
/// comma at its end if it had one. A line that ends with a closing brace,
/// with the pattern not seen before it, is kept, with a comma, the key line
/// and a line break put in front. Any other line is kept as it is. Each
/// contribution but the second starts with a line break.
pub open spec fn patched_line(
    ls: Seq<Seq<char>>,
    pat: Seq<char>,
    value: Seq<char>,
    i: int,
) -> Seq<char> {
    if contains(ls[i], pat) {
        seq!['\n'] + key_line(pat, value) + if ends_with(ls[i], ',') {
            seq![',']
        } else {
            Seq::empty()
        }
    } else if ends_with(ls[i], '}') && !seen_before(ls, pat, i) {
        seq![',', '\n'] + key_line(pat, value) + seq!['\n'] + ls[i]
    } else {
        seq!['\n'] + ls[i]
    }
}

/// The contributions of the first `n` lines, one after the other.
pub open spec fn patched_upto(
    ls: Seq<Seq<char>>,
    pat: Seq<char>,
    value: Seq<char>,
    n: int,
) -> Seq<char>
    decreases n,
{
    if n <= 0 {
        Seq::empty()
    } else {
        patched_upto(ls, pat, value, n - 1) + patched_line(ls, pat, value, n - 1)
    }
}

/// The new contents of a settings file that held `pre`: the contributions
/// of all its lines, without the whitespace around them.
pub open spec fn patched_text(pre: Seq<char>, pat: Seq<char>, value: Seq<char>) -> Seq<char> {
    trimmed(patched_upto(lines(pre), pat, value, lines(pre).len() as int))
}

/// The contents of a settings file that is created for the key: an opening
/// brace, the key line and a closing brace, each on a line of its own.
pub open spec fn fresh_text(pat: Seq<char>, value: Seq<char>) -> Seq<char> {
    seq!['{', '\n'] + key_line(pat, value) + seq!['\n', '}']
}

/// Whether the patcher finds a place for the key among the lines: a line
/// that holds the pattern, or one that ends with a closing brace.
pub open spec fn has_place(ls: Seq<Seq<char>>, pat: Seq<char>) -> bool {
    exists|i: int| 0 <= i < ls.len() && is_place(#[trigger] ls[i], pat)
}

/// Whether `line` holds the pattern or ends with a closing brace.
pub open spec fn is_place(line: Seq<char>, pat: Seq<char>) -> bool {
    contains(line, pat) || ends_with(line, '}')
}

/// The lines up to the first place for the key, with that place, give a
/// text that holds the key line.
proof fn lemma_first_place(ls: Seq<Seq<char>>, pat: Seq<char>, value: Seq<char>, n: int)
    requires
        0 <= n < ls.len(),
        is_place(ls[n], pat),
        forall|j: int| 0 <= j < n ==> !is_place(#[trigger] ls[j], pat),
    ensures
        contains(patched_upto(ls, pat, value, n + 1), key_line(pat, value)),
{
    let key = key_line(pat, value);
    let here = patched_line(ls, pat, value, n);
    lemma_contains_itself(key);
    assert(contains(here, key)) by {
        if contains(ls[n], pat) {
            let tail = if ends_with(ls[n], ',') {
                seq![',']
            } else {
                Seq::<char>::empty()
            };
            lemma_contains_within(seq!['\n'], key, tail, key);
        } else {
            assert(!seen_before(ls, pat, n));
            lemma_contains_within(seq![',', '\n'], key, seq!['\n'] + ls[n], key);
            assert(here =~= seq![',', '\n'] + key + (seq!['\n'] + ls[n]));
        }
    }
    lemma_contains_within(patched_upto(ls, pat, value, n), here, Seq::empty(), key);
    assert(patched_upto(ls, pat, value, n) + here + Seq::<char>::empty() =~= patched_upto(
        ls,
        pat,
        value,
        n + 1,
    ));
}

/// Once the text of the lines so far holds the key line, the text of more
/// lines holds it too.
proof fn lemma_key_stays(ls: Seq<Seq<char>>, pat: Seq<char>, value: Seq<char>, from: int, to: int)
    requires
        0 <= from <= to,
        contains(patched_upto(ls, pat, value, from), key_line(pat, value)),
    ensures
        contains(patched_upto(ls, pat, value, to), key_line(pat, value)),
    decreases to - from,
{
    if from < to {
        lemma_key_stays(ls, pat, value, from, to - 1);
        lemma_contains_within(
            Seq::empty(),
            patched_upto(ls, pat, value, to - 1),
            patched_line(ls, pat, value, to - 1),
            key_line(pat, value),
        );
        assert(Seq::<char>::empty() + patched_upto(ls, pat, value, to - 1) + patched_line(
            ls,
            pat,
            value,
            to - 1,
        ) =~= patched_upto(ls, pat, value, to));
    }
}

/// The first place for the key among the first `n` lines, where there is
/// one.
proof fn lemma_find_place(ls: Seq<Seq<char>>, pat: Seq<char>, n: int) -> (at: int)
    requires
        0 <= n <= ls.len(),
        exists|i: int| 0 <= i < n && is_place(#[trigger] ls[i], pat),
    ensures
        0 <= at < n,
        is_place(ls[at], pat),
        forall|j: int| 0 <= j < at ==> !is_place(#[trigger] ls[j], pat),
    decreases n,
{
    if exists|i: int| 0 <= i < n - 1 && is_place(#[trigger] ls[i], pat) {
        lemma_find_place(ls, pat, n - 1)
    } else {
        n - 1
    }
}

/// Where the lines of a file have a place for the key, the patched lines
/// hold the key line: the pattern with the value in double quotes, after
/// four spaces. This holds of the patched lines before the whitespace
/// around them is cut off.
pub proof fn lemma_patch_holds_key(ls: Seq<Seq<char>>, pat: Seq<char>, value: Seq<char>)
    requires
        has_place(ls, pat),
    ensures
        contains(patched_upto(ls, pat, value, ls.len() as int), key_line(pat, value)),
{
    let at = lemma_find_place(ls, pat, ls.len() as int);
    lemma_first_place(ls, pat, value, at);
    lemma_key_stays(ls, pat, value, at + 1, ls.len() as int);
}

/// A file that is created for the key holds the key line.
pub proof fn lemma_fresh_holds_key(pat: Seq<char>, value: Seq<char>)
    ensures
        contains(fresh_text(pat, value), key_line(pat, value)),
{
    lemma_contains_itself(key_line(pat, value));
    lemma_contains_within(seq!['{', '\n'], key_line(pat, value), seq!['\n', '}'], key_line(pat, value));
}

/// What a line becomes where no line is added: the key line, with the
/// comma that the line ended with, for a line that holds the pattern, and
/// the line itself for any other.
pub open spec fn replaced_line(line: Seq<char>, pat: Seq<char>, value: Seq<char>) -> Seq<char> {
    if contains(line, pat) {
        key_line(pat, value) + if ends_with(line, ',') {
            seq![',']
        } else {
            Seq::empty()
        }
    } else {
        line
    }
}

/// The lines `ls`, each replaced or kept.
pub open spec fn replaced_lines(ls: Seq<Seq<char>>, pat: Seq<char>, value: Seq<char>) -> Seq<
    Seq<char>,
> {
    Seq::new(ls.len(), |i: int| replaced_line(ls[i], pat, value))
}

/// Whether the key is set before any closing brace: each line that ends
/// with a closing brace holds the pattern or comes after a line that holds
/// it. Then the patcher adds no line.
pub open spec fn key_before_braces(ls: Seq<Seq<char>>, pat: Seq<char>) -> bool {
    forall|i: int|
        0 <= i < ls.len() && ends_with(#[trigger] ls[i], '}') ==> contains(ls[i], pat)
            || seen_before(ls, pat, i)
}

/// Where the key is set before any closing brace, the contributions of the
/// first `n` lines are those lines, each replaced or kept, and each after a
/// line feed.
proof fn lemma_patched_is_replaced(ls: Seq<Seq<char>>, pat: Seq<char>, value: Seq<char>, n: int)
    requires
        1 <= n <= ls.len(),
        key_before_braces(ls, pat),
    ensures
        patched_upto(ls, pat, value, n) == seq!['\n'] + unlines(
            replaced_lines(ls, pat, value).take(n),
        ),
    decreases n,
{
    let r = replaced_lines(ls, pat, value);
    assert(patched_line(ls, pat, value, n - 1) =~= seq!['\n'] + r[n - 1]);
    if n == 1 {
        assert(patched_upto(ls, pat, value, 0) =~= Seq::<char>::empty());
        assert(r.take(1)[0] == r[0]);
        assert(patched_upto(ls, pat, value, 1) =~= seq!['\n'] + r[0]);
    } else {
        lemma_patched_is_replaced(ls, pat, value, n - 1);
        assert(r.take(n).drop_last() =~= r.take(n - 1));
        assert(r.take(n).last() == r[n - 1]);
        assert(patched_upto(ls, pat, value, n) =~= seq!['\n'] + (unlines(r.take(n - 1)) + seq![
            '\n',
        ] + r[n - 1]));
    }
}

/// Where the key is set before any closing brace, patching a file replaces
/// each line that holds the pattern by one key line, which keeps the comma
/// that the line ended with, and keeps every other line: the new file has
/// as many lines as the old one, and they are the old lines, each replaced
/// or kept.
///
/// This is stated of a file whose first line does not start and whose last
/// line does not end with whitespace, once replaced, and where each
/// replaced line can stand as a line: it holds no line feed and does not
/// end with a carriage return.
pub proof fn lemma_patch_keeps_lines(pre: Seq<char>, pat: Seq<char>, value: Seq<char>)
    requires
        lines(pre).len() > 0,
        key_before_braces(lines(pre), pat),
        forall|i: int|
            0 <= i < lines(pre).len() ==> is_line(
                #[trigger] replaced_lines(lines(pre), pat, value)[i],
            ),
        replaced_lines(lines(pre), pat, value).first().len() > 0,
        !is_whitespace(replaced_lines(lines(pre), pat, value).first().first()),
        replaced_lines(lines(pre), pat, value).last().len() > 0,
        !is_whitespace(replaced_lines(lines(pre), pat, value).last().last()),
    ensures
        patched_text(pre, pat, value) == unlines(replaced_lines(lines(pre), pat, value)),
        lines(patched_text(pre, pat, value)) == replaced_lines(lines(pre), pat, value),
{
    let ls = lines(pre);
    let r = replaced_lines(ls, pat, value);
    let n = ls.len() as int;
    lemma_patched_is_replaced(ls, pat, value, n);
    assert(r.take(n) =~= r);
    let t = unlines(r);
    lemma_unlines_ends(r);
    lemma_trimmed_after_newline(t);
    lemma_lines_unlines(r);
}

/// The text of lines starts as its first line starts and ends as its last
/// line ends, where neither of the two is empty.
proof fn lemma_unlines_ends(ls: Seq<Seq<char>>)
    requires
        ls.len() > 0,
        ls.first().len() > 0,
        ls.last().len() > 0,
    ensures
        unlines(ls).len() > 0,
        unlines(ls).first() == ls.first().first(),
        unlines(ls).last() == ls.last().last(),
{
    if ls.len() >= 2 {
        crate::text::lemma_unlines_head(ls);
        let whole = unlines(ls);
        assert(whole[0] == ls[0][0]);
        assert(whole == unlines(ls.drop_last()) + seq!['\n'] + ls.last());
    }
}

/// Appends the key line to `out`.
fn push_key_line(out: &mut Vec<char>, pat: &Vec<char>, value: &Vec<char>)
    ensures
        final(out)@ == old(out)@ + key_line(pat@, value@),
{
    out.push(' ');
    out.push(' ');
    out.push(' ');
    out.push(' ');
    push_all(out, pat);
    out.push('"');
    push_all(out, value);
    out.push('"');
    assert(out@ =~= old(out)@ + key_line(pat@, value@));
}

/// The contents that a settings file gets when `pat` is set to `value`.
/// `existing` is what the file holds now, or `None` if there is no such
/// file. `pat` is the key as it stands in the file, with its quotes, colon
/// and space.
pub fn edit_hjson(existing: Option<&str>, pat: &str, value: &str) -> (text: String)
    ensures
        text@ == match existing {
            Some(pre) => patched_text(pre@, pat@, value@),
            None => fresh_text(pat@, value@),
        },
{
    let pat = chars_of(pat);
    let value = chars_of(value);
    let mut out: Vec<char> = Vec::new();
    match existing {
        None => {
            out.push('{');
            out.push('\n');
            push_key_line(&mut out, &pat, &value);
            out.push('\n');
            out.push('}');
            assert(out@ =~= fresh_text(pat@, value@));
            let n = out.len();
            let text = string_of(&out, 0, n);
            assert(out@.subrange(0, n as int) == out@);
            text
        },
        Some(pre) => {
            let pre = chars_of(pre);
            let ls = split_lines(&pre);
            let n = ls.len();
            let mut found = false;
            let mut i: usize = 0;
            while i < n
                invariant
                    i <= n == ls.len(),
                    found == seen_before(rows(ls@), pat@, i as int),
                    out@ == patched_upto(rows(ls@), pat@, value@, i as int),
                decreases n - i,
            {
                let ghost before = out@;
                let line = &ls[i];
                assert(rows(ls@)[i as int] == line@);
                if find_in(line, &pat) {
                    out.push('\n');
                    push_key_line(&mut out, &pat, &value);
                    if has_last(line, ',') {
                        out.push(',');
                    }
                    found = true;
                } else if has_last(line, '}') && !found {
                    out.push(',');
                    out.push('\n');
                    push_key_line(&mut out, &pat, &value);
                    out.push('\n');
                    push_all(&mut out, line);
                } else {
                    out.push('\n');
                    push_all(&mut out, line);
                }
                assert(out@ =~= before + patched_line(rows(ls@), pat@, value@, i as int));
                proof {
                    let r = rows(ls@);
                    if seen_before(r, pat@, i + 1) {
                        let j = choose|j: int| 0 <= j < i + 1 && contains(#[trigger] r[j], pat@);
                        assert(j == i || seen_before(r, pat@, i as int));
                    }
                }
                i += 1;
            }
            let (from, to) = trim_bounds(&out);
            string_of(&out, from, to)
        },
    }
}

} // verus!
