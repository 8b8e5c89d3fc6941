//! SQL text utilities: pretty-printing and compression to one line.

use vstd::prelude::*;
use crate::text::{is_white_space, is_whitespace, push_char};

verus! {

broadcast use vstd::string::group_string_axioms;

/// The text `sqlformat::format` produces for `sql` with no query parameters
/// and default options except the keyword case option `uppercase`.
pub uninterp spec fn sql_formatted(sql: Seq<char>, uppercase: Option<bool>) -> Seq<char>;

/// Formats `sql` with `sqlformat::format`: no query parameters, default
/// options except `uppercase`.
#[verifier::external_body]
fn sqlformat_format(sql: &str, uppercase: Option<bool>) -> (r: String)
    ensures
        r@ == sql_formatted(sql@, uppercase),
{
    let options = sqlformat::FormatOptions { uppercase, ..sqlformat::FormatOptions::default() };
    sqlformat::format(sql, &sqlformat::QueryParams::None, &options)
}

/// Pretty-prints SQL over several lines; with `uppercase` the keywords are
/// written in capitals, otherwise their case is kept.
pub fn format_sql(sql: &str, uppercase: bool) -> (r: String)
    ensures
        r@ == sql_formatted(sql@, if uppercase { Some(true) } else { None }),
{
    let option = if uppercase {
        Some(true)
    } else {
        None
    };
    sqlformat_format(sql, option)
}

/// The maximal runs of non-white-space characters of `s`, in order.
pub open spec fn words(s: Seq<char>) -> Seq<Seq<char>>
    decreases s.len(),
{
    if s.len() == 0 {
        seq![]
    } else {
        let w = words(s.drop_last());
        let c = s.last();
        if is_white_space(c) {
            w
        } else if s.len() > 1 && !is_white_space(s[s.len() - 2]) && w.len() > 0 {
            w.update(w.len() - 1, w.last().push(c))
        } else {
            w.push(seq![c])
        }
    }
}

/// The elements of `list` joined by `sep`.
pub open spec fn join(list: Seq<Seq<char>>, sep: Seq<char>) -> Seq<char>
    decreases list.len(),
{
    if list.len() == 0 {
        seq![]
    } else if list.len() == 1 {
        list[0]
    } else {
        join(list.drop_last(), sep) + sep + list.last()
    }
}

/// `s` on one line: its words separated by single spaces.
pub open spec fn compressed(s: Seq<char>) -> Seq<char> {
    join(words(s), seq![' '])
}

proof fn lemma_words_nonempty(s: Seq<char>)
    requires
        s.len() > 0,
        !is_white_space(s.last()),
    ensures
        words(s).len() > 0,
{
}

proof fn lemma_join_push(w: Seq<Seq<char>>, x: Seq<char>, sep: Seq<char>)
    ensures
        join(w.push(x), sep) == if w.len() == 0 { x } else { join(w, sep) + sep + x },
{
    assert(w.push(x).drop_last() =~= w);
}

proof fn lemma_join_extend_last(w: Seq<Seq<char>>, c: char, sep: Seq<char>)
    requires
        w.len() > 0,
    ensures
        join(w.update(w.len() - 1, w.last().push(c)), sep) == join(w, sep).push(c),
{
    let u = w.update(w.len() - 1, w.last().push(c));
    if w.len() == 1 {
    } else {
        assert(u.drop_last() =~= w.drop_last());
        assert(join(u, sep) == join(w.drop_last(), sep) + sep + w.last().push(c));
        assert(join(u, sep) =~= join(w, sep).push(c));
    }
}

/// Every word is a non-empty run of characters that are not white space.
pub open spec fn proper_words(w: Seq<Seq<char>>) -> bool {
    forall|i: int|
        0 <= i < w.len() ==> (#[trigger] w[i]).len() > 0 && forall|j: int|
            0 <= j < w[i].len() ==> !is_white_space(#[trigger] w[i][j])
}

proof fn lemma_words_proper(s: Seq<char>)
    ensures
        proper_words(words(s)),
    decreases s.len(),
{
    if s.len() > 0 {
        lemma_words_proper(s.drop_last());
        let w = words(s.drop_last());
        let c = s.last();
        if !is_white_space(c) {
            if s.len() > 1 && !is_white_space(s[s.len() - 2]) && w.len() > 0 {
                let u = w.update(w.len() - 1, w.last().push(c));
                assert forall|i: int| 0 <= i < u.len() implies (#[trigger] u[i]).len() > 0
                    && forall|j: int| 0 <= j < u[i].len() ==> !is_white_space(#[trigger] u[i][j]) by {
                    if i == w.len() - 1 {
                        assert forall|j: int| 0 <= j < u[i].len() implies !is_white_space(
                            #[trigger] u[i][j],
                        ) by {
                            if j < w.last().len() {
                                assert(u[i][j] == w[i][j]);
                            }
                        }
                    }
                }
            } else {
                let u = w.push(seq![c]);
                assert forall|i: int| 0 <= i < u.len() implies (#[trigger] u[i]).len() > 0
                    && forall|j: int| 0 <= j < u[i].len() ==> !is_white_space(#[trigger] u[i][j]) by {
                    if i < w.len() {
                        assert(u[i] == w[i]);
                    }
                }
            }
        }
    }
}

/// What joining proper words by single spaces gives: each white-space
/// character is a space between two characters that are not white space.
pub open spec fn single_line(r: Seq<char>) -> bool {
    forall|i: int|
        0 <= i < r.len() && is_white_space(#[trigger] r[i]) ==> {
            &&& r[i] == ' '
            &&& 0 < i < r.len() - 1
            &&& !is_white_space(r[i - 1])
            &&& !is_white_space(r[i + 1])
        }
}

proof fn lemma_join_single_line(w: Seq<Seq<char>>)
    requires
        proper_words(w),
    ensures
        single_line(join(w, seq![' '])),
        w.len() > 0 ==> join(w, seq![' ']).len() > 0 && !is_white_space(join(w, seq![' ']).last())
            && !is_white_space(join(w, seq![' '])[0]),
    decreases w.len(),
{
    if w.len() == 1 {
        assert(w[0].len() > 0 && !is_white_space(w[0][0]) && !is_white_space(w[0][w[0].len() - 1]));
    } else if w.len() > 1 {
        let p = w.drop_last();
        assert(proper_words(p)) by {
            assert forall|i: int| 0 <= i < p.len() implies (#[trigger] p[i]).len() > 0 && forall|j: int|
                0 <= j < p[i].len() ==> !is_white_space(#[trigger] p[i][j]) by {
                assert(p[i] == w[i]);
            }
        }
        lemma_join_single_line(p);
        let a = join(p, seq![' ']);
        let l = w.last();
        assert(l == w[w.len() - 1]);
        let r = a + seq![' '] + l;
        assert(join(w, seq![' ']) == r);
        assert(l.len() > 0 && !is_white_space(l[0]) && !is_white_space(l[l.len() - 1]));
        assert forall|i: int| 0 <= i < r.len() && is_white_space(#[trigger] r[i]) implies {
            &&& r[i] == ' '
            &&& 0 < i < r.len() - 1
            &&& !is_white_space(r[i - 1])
            &&& !is_white_space(r[i + 1])
        } by {
            if i < a.len() {
                assert(r[i] == a[i]);
                if i + 1 < a.len() {
                    assert(r[i + 1] == a[i + 1]);
                }
                if i > 0 {
                    assert(r[i - 1] == a[i - 1]);
                }
            } else if i == a.len() {
                assert(r[i - 1] == a.last());
                assert(r[i + 1] == l[0]);
            } else {
                assert(r[i] == l[i - a.len() - 1]);
            }
        }
        assert(r[0] == a[0]);
        assert(r.last() == l.last());
    }
}

/// Compressed SQL is one line: no leading or trailing white space, and every
/// white-space character is a single space between two words.
pub proof fn lemma_compressed_single_line(s: Seq<char>)
    ensures
        single_line(compressed(s)),
        compressed(s).len() > 0 ==> !is_white_space(compressed(s)[0]) && !is_white_space(
            compressed(s).last(),
        ),
{
    lemma_words_proper(s);
    lemma_join_single_line(words(s));
}

proof fn lemma_words_append_word(t: Seq<char>, w: Seq<char>)
    requires
        t.len() == 0 || is_white_space(t.last()),
        w.len() > 0,
        forall|j: int| 0 <= j < w.len() ==> !is_white_space(#[trigger] w[j]),
    ensures
        words(t + w) == words(t).push(w),
    decreases w.len(),
{
    let s = t + w;
    let c = w.last();
    assert(s.last() == c);
    if w.len() == 1 {
        assert(s.drop_last() =~= t);
        if s.len() > 1 {
            assert(s[s.len() - 2] == t.last());
        }
        assert(seq![c] =~= w);
    } else {
        let w0 = w.drop_last();
        lemma_words_append_word(t, w0);
        assert(s.drop_last() =~= t + w0);
        assert(s[s.len() - 2] == w0.last());
        let ws = words(t).push(w0);
        assert(w0.push(c) =~= w);
        assert(ws.update(ws.len() - 1, ws.last().push(c)) =~= words(t).push(w));
    }
}

proof fn lemma_words_of_join(w: Seq<Seq<char>>)
    requires
        proper_words(w),
    ensures
        words(join(w, seq![' '])) == w,
    decreases w.len(),
{
    if w.len() == 0 {
    } else if w.len() == 1 {
        lemma_words_append_word(seq![], w[0]);
        assert(Seq::<char>::empty() + w[0] =~= w[0]);
        assert(Seq::<Seq<char>>::empty().push(w[0]) =~= w);
    } else {
        let p = w.drop_last();
        assert(proper_words(p)) by {
            assert forall|i: int| 0 <= i < p.len() implies (#[trigger] p[i]).len() > 0 && forall|j: int|
                0 <= j < p[i].len() ==> !is_white_space(#[trigger] p[i][j]) by {
                assert(p[i] == w[i]);
            }
        }
        lemma_words_of_join(p);
        let a = join(p, seq![' ']);
        let t = a + seq![' '];
        assert(t.drop_last() =~= a);
        assert(is_white_space(' '));
        assert(words(t) == words(a));
        let l = w.last();
        assert(l == w[w.len() - 1]);
        lemma_words_append_word(t, l);
        assert(p.push(l) =~= w);
    }
}

/// Compressing compressed SQL changes nothing.
pub proof fn lemma_compress_idempotent(s: Seq<char>)
    ensures
        compressed(compressed(s)) == compressed(s),
{
    lemma_words_proper(s);
    lemma_words_of_join(words(s));
}

/// Compresses SQL to a single line: the white-space separated words of
/// `sql`, joined by single spaces.
pub fn compress_sql(sql: &str) -> (r: String)
    ensures
        r@ == compressed(sql@),
{
    let mut out = String::new();
    let mut in_word = false;
    let mut has_word = false;
    let ghost mut prefix: Seq<char> = seq![];
    for c in it: sql.chars()
        invariant
            prefix == it.seq().take(it.index()),
            it.seq() == sql@,
            out@ == compressed(prefix),
            has_word == (words(prefix).len() > 0),
            in_word == (prefix.len() > 0 && !is_white_space(prefix.last())),
    {
        let ghost old_prefix = prefix;
        proof {
            prefix = prefix.push(c);
            assert(prefix.drop_last() =~= old_prefix);
            assert(prefix =~= it.seq().take(it.index() + 1));
        }
        if is_whitespace(c) {
            in_word = false;
        } else {
            if in_word {
                proof {
                    lemma_words_nonempty(old_prefix);
                    lemma_join_extend_last(words(old_prefix), c, seq![' ']);
                }
                push_char(&mut out, c);
            } else {
                proof {
                    lemma_join_push(words(old_prefix), seq![c], seq![' ']);
                }
                if has_word {
                    push_char(&mut out, ' ');
                }
                push_char(&mut out, c);
                assert(out@ =~= compressed(prefix));
            }
            in_word = true;
            has_word = true;
        }
    }
    proof {
        assert(prefix =~= sql@);
    }
    out
}

} // verus!
