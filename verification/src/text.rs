//! Text utilities the views rely on: splitting a log into lines and joining
//! them back (used to show the newest lines at the top), and substring
//! search (used by the list filter and by the error translation).

use vstd::prelude::*;
use vstd::string::StrSliceExecFns;
use vstd::string::StringExecFns;

verus! {

/// The lines of `s`, split at `'\n'`. Always at least one line; a separator
/// at the end yields a final empty line, so joining the result with `'\n'`
/// rebuilds `s` exactly.
pub open spec fn line_split(s: Seq<char>) -> Seq<Seq<char>>
    decreases s.len(),
{
    if s.len() == 0 {
        seq![Seq::<char>::empty()]
    } else {
        let rest = line_split(s.drop_last());
        if s.last() == '\n' {
            rest.push(Seq::<char>::empty())
        } else {
            rest.update(rest.len() - 1, rest.last().push(s.last()))
        }
    }
}

/// The lines of `ls` joined with a single `'\n'` between neighbours.
pub open spec fn line_join(ls: Seq<Seq<char>>) -> Seq<char>
    decreases ls.len(),
{
    if ls.len() == 0 {
        Seq::empty()
    } else if ls.len() == 1 {
        ls[0]
    } else {
        line_join(ls.drop_last()) + seq!['\n'] + ls.last()
    }
}

/// Whether `l` holds no line separator.
pub open spec fn no_newline(l: Seq<char>) -> bool {
    forall|i: int| 0 <= i < l.len() ==> l[i] != '\n'
}

/// `s` with the order of its lines reversed: the text shown by the log view,
/// newest lines at the top.
pub open spec fn reversed_lines(s: Seq<char>) -> Seq<char> {
    line_join(line_split(s).reverse())
}

/// Splitting yields at least one line, and no line holds a separator.
pub proof fn lemma_line_split_wf(s: Seq<char>)
    ensures
        line_split(s).len() >= 1,
        forall|i: int| 0 <= i < line_split(s).len() ==> no_newline(#[trigger] line_split(s)[i]),
    decreases s.len(),
{
    if s.len() > 0 {
        lemma_line_split_wf(s.drop_last());
    }
}

/// Joining the lines of `s` rebuilds `s`.
pub proof fn lemma_join_split(s: Seq<char>)
    ensures
        line_join(line_split(s)) == s,
    decreases s.len(),
{
    if s.len() == 0 {
        assert(line_join(line_split(s)) =~= s);
    } else {
        let s0 = s.drop_last();
        lemma_join_split(s0);
        lemma_line_split_wf(s0);
        let ls0 = line_split(s0);
        if s.last() == '\n' {
            let ls = ls0.push(Seq::<char>::empty());
            assert(ls.drop_last() =~= ls0);
            assert(line_join(ls) =~= s0 + seq!['\n']);
            assert(s0 + seq!['\n'] =~= s);
        } else {
            let ls = ls0.update(ls0.len() - 1, ls0.last().push(s.last()));
            if ls0.len() == 1 {
                assert(line_join(ls) == ls[0]);
                assert(ls[0] == ls0[0].push(s.last()));
                assert(line_join(ls0) == ls0[0]);
                assert(ls0[0].push(s.last()) =~= s);
            } else {
                assert(ls.drop_last() =~= ls0.drop_last());
                assert(ls.last() == ls0.last().push(s.last()));
                assert(line_join(ls) == line_join(ls0.drop_last()) + seq!['\n'] + ls0.last().push(
                    s.last(),
                ));
                assert(line_join(ls0.drop_last()) + seq!['\n'] + ls0.last().push(s.last()) =~= (
                line_join(ls0.drop_last()) + seq!['\n'] + ls0.last()).push(s.last()));
                assert(s0.push(s.last()) =~= s);
            }
        }
    }
}

/// Splitting a text without separators yields that text as the only line.
proof fn lemma_line_split_no_newline(s: Seq<char>)
    requires
        no_newline(s),
    ensures
        line_split(s) == seq![s],
    decreases s.len(),
{
    if s.len() == 0 {
        assert(line_split(s) =~~= seq![s]);
    } else {
        let s0 = s.drop_last();
        assert(no_newline(s0));
        lemma_line_split_no_newline(s0);
        assert(s.last() != '\n');
        assert(line_split(s) =~~= seq![s0.push(s.last())]);
        assert(s0.push(s.last()) =~= s);
    }
}

/// Appending a separator to a text starts a fresh empty line.
proof fn lemma_line_split_push_newline(s: Seq<char>)
    ensures
        line_split(s.push('\n')) == line_split(s).push(Seq::<char>::empty()),
{
    assert(s.push('\n').drop_last() =~= s);
}

/// Appending separator-free text extends the last line in place.
proof fn lemma_line_split_append_no_newline(a: Seq<char>, b: Seq<char>)
    requires
        no_newline(b),
    ensures
        line_split(a + b) == line_split(a).update(
            line_split(a).len() - 1,
            line_split(a).last() + b,
        ),
    decreases b.len(),
{
    lemma_line_split_wf(a);
    let la = line_split(a);
    if b.len() == 0 {
        assert(a + b =~= a);
        assert(la.update(la.len() - 1, la.last() + b) =~~= la);
    } else {
        let b0 = b.drop_last();
        assert(no_newline(b0));
        lemma_line_split_append_no_newline(a, b0);
        let mid = la.update(la.len() - 1, la.last() + b0);
        assert((a + b).drop_last() =~= a + b0);
        assert((a + b).last() == b.last());
        assert(b.last() != '\n');
        assert(line_split(a + b) == mid.update(mid.len() - 1, mid.last().push(b.last())));
        assert(mid.update(mid.len() - 1, mid.last().push(b.last())) =~~= la.update(
            la.len() - 1,
            la.last() + b,
        )) by {
            assert(mid.last() == la.last() + b0);
            assert((la.last() + b0).push(b.last()) =~= la.last() + b);
        }
    }
}

/// Splitting the join of separator-free lines gives those lines back.
pub proof fn lemma_split_join(ls: Seq<Seq<char>>)
    requires
        ls.len() >= 1,
        forall|i: int| 0 <= i < ls.len() ==> no_newline(#[trigger] ls[i]),
    ensures
        line_split(line_join(ls)) == ls,
    decreases ls.len(),
{
    if ls.len() == 1 {
        lemma_line_split_no_newline(ls[0]);
        assert(seq![ls[0]] =~~= ls);
    } else {
        let ls0 = ls.drop_last();
        assert(forall|i: int| 0 <= i < ls0.len() ==> no_newline(#[trigger] ls0[i]));
        lemma_split_join(ls0);
        let a = line_join(ls0);
        assert(line_join(ls) == a + seq!['\n'] + ls.last());
        assert(a + seq!['\n'] =~= a.push('\n'));
        lemma_line_split_push_newline(a);
        let la = line_split(a.push('\n'));
        assert(la == ls0.push(Seq::<char>::empty()));
        lemma_line_split_append_no_newline(a.push('\n'), ls.last());
        assert(a.push('\n') + ls.last() =~= a + seq!['\n'] + ls.last());
        assert(la.update(la.len() - 1, la.last() + ls.last()) =~~= ls) by {
            assert(la.last() + ls.last() =~= ls.last());
        }
    }
}

/// Law: reversing the lines of a text twice gives the text back, for every
/// text: line reversal is an involution.
pub proof fn lemma_reversed_lines_involutive(s: Seq<char>)
    ensures
        reversed_lines(reversed_lines(s)) == s,
{
    let ls = line_split(s);
    lemma_line_split_wf(s);
    assert(forall|i: int| 0 <= i < ls.reverse().len() ==> no_newline(#[trigger] ls.reverse()[i]));
    lemma_split_join(ls.reverse());
    assert(ls.reverse().reverse() =~= ls);
    lemma_join_split(s);
}

/// Whether `n` occurs in `h` starting at position `i`.
pub open spec fn contains_at(h: Seq<char>, n: Seq<char>, i: int) -> bool {
    0 <= i && i + n.len() <= h.len() && h.subrange(i, i + n.len()) == n
}

/// Whether `n` occurs anywhere in `h` as a contiguous substring.
pub open spec fn contains_seq(h: Seq<char>, n: Seq<char>) -> bool {
    exists|i: int| contains_at(h, n, i)
}

/// The empty text occurs in every text.
pub proof fn lemma_contains_empty(h: Seq<char>)
    ensures
        contains_seq(h, Seq::<char>::empty()),
{
    assert(h.subrange(0, 0) =~= Seq::<char>::empty());
    assert(contains_at(h, Seq::<char>::empty(), 0));
}

/// Whether `needle` occurs in `hay` starting at character position `i`.
fn match_at(hay: &str, needle: &str, i: usize, nl: usize) -> (r: bool)
    requires
        nl == needle@.len(),
        i + nl <= hay@.len(),
        hay@.len() <= usize::MAX,
    ensures
        r == contains_at(hay@, needle@, i as int),
{
    let mut k: usize = 0;
    while k < nl
        invariant
            k <= nl,
            nl == needle@.len(),
            i + nl <= hay@.len(),
            hay@.len() <= usize::MAX,
            forall|m: int| 0 <= m < k ==> hay@[i + m] == needle@[m],
        decreases nl - k,
    {
        if hay.get_char(i + k) != needle.get_char(k) {
            proof {
                let sub = hay@.subrange(i as int, i + nl);
                assert(sub[k as int] == hay@[i + k]);
                assert(sub != needle@);
            }
            return false;
        }
        k = k + 1;
    }
    proof {
        assert(hay@.subrange(i as int, i + nl) =~= needle@);
    }
    true
}

/// Whether `needle` occurs in `hay` as a contiguous substring.
pub fn contains_sub(hay: &str, needle: &str) -> (r: bool)
    ensures
        r == contains_seq(hay@, needle@),
{
    let hl = hay.unicode_len();
    let nl = needle.unicode_len();
    if nl > hl {
        proof {
            assert(!contains_seq(hay@, needle@)) by {
                if contains_seq(hay@, needle@) {
                    let i = choose|i: int| contains_at(hay@, needle@, i);
                    assert(i + needle@.len() <= hay@.len());
                    assert(false);
                }
            }
        }
        return false;
    }
    if nl == 0 {
        proof {
            lemma_contains_empty(hay@);
            assert(needle@ =~= Seq::<char>::empty());
        }
        return true;
    }
    let mut i: usize = 0;
    while i <= hl - nl
        invariant
            1 <= nl <= hl,
            hl == hay@.len(),
            nl == needle@.len(),
            i <= hl - nl + 1,
            forall|j: int| 0 <= j < i ==> !contains_at(hay@, needle@, j),
        decreases hl - nl - i + 1,
    {
        if match_at(hay, needle, i, nl) {
            proof {
                assert(contains_at(hay@, needle@, i as int));
            }
            return true;
        }
        i = i + 1;
    }
    proof {
        assert(!contains_seq(hay@, needle@)) by {
            if contains_seq(hay@, needle@) {
                let j = choose|j: int| contains_at(hay@, needle@, j);
                assert(j + needle@.len() <= hay@.len());
                assert(j < i);
                assert(false);
            }
        }
    }
    false
}

/// `text` with the order of its lines reversed, the newest lines first.
pub fn reverse_lines(text: &str) -> (r: String)
    ensures
        r@ == reversed_lines(text@),
{
    let n = text.unicode_len();
    let mut lines: Vec<String> = Vec::new();
    let ghost mut gl: Seq<Seq<char>> = Seq::empty();
    let mut start: usize = 0;
    let mut i: usize = 0;
    proof {
        assert(line_split(text@.take(0)) =~~= gl.push(text@.subrange(0, 0)));
    }
    while i < n
        invariant
            start <= i <= n,
            n == text@.len(),
            gl.len() == lines@.len(),
            forall|j: int| 0 <= j < gl.len() ==> gl[j] == lines@[j]@,
            line_split(text@.take(i as int)) == gl.push(
                text@.subrange(start as int, i as int),
            ),
        decreases n - i,
    {
        let ghost prefix = text@.take(i as int);
        let ghost partial = text@.subrange(start as int, i as int);
        let c = text.get_char(i);
        proof {
            assert(text@.take(i + 1).drop_last() =~= prefix);
            assert(text@.take(i + 1).last() == text@[i as int]);
        }
        if c == '\n' {
            let piece = text.substring_char(start, i);
            lines.push(piece.to_owned());
            proof {
                gl = gl.push(partial);
                assert(line_split(text@.take(i + 1)) == line_split(prefix).push(
                    Seq::<char>::empty(),
                ));
                assert(line_split(prefix).push(Seq::<char>::empty()) =~~= gl.push(
                    text@.subrange(i + 1, i + 1),
                ));
            }
            start = i + 1;
        } else {
            proof {
                let lp = line_split(prefix);
                assert(line_split(text@.take(i + 1)) == lp.update(
                    lp.len() - 1,
                    lp.last().push(text@[i as int]),
                ));
                assert(lp.last() == partial);
                assert(lp.update(lp.len() - 1, partial.push(text@[i as int])) =~~= gl.push(
                    text@.subrange(start as int, i + 1),
                )) by {
                    assert(lp == gl.push(partial));
                    assert(partial.push(text@[i as int]) =~= text@.subrange(start as int, i + 1));
                }
            }
        }
        i = i + 1;
    }
    let piece = text.substring_char(start, n);
    lines.push(piece.to_owned());
    proof {
        gl = gl.push(text@.subrange(start as int, n as int));
        assert(text@.take(n as int) =~= text@);
    }
    let ghost orig = gl;
    assert(orig == line_split(text@));

    let mut rev: Vec<String> = Vec::new();
    let ghost mut gr: Seq<Seq<char>> = Seq::empty();
    proof {
        assert(gr =~~= orig.subrange(lines@.len() as int, orig.len() as int).reverse());
    }
    while lines.len() > 0
        invariant
            lines@.len() <= orig.len(),
            forall|j: int| 0 <= j < lines@.len() ==> orig[j] == lines@[j]@,
            gr.len() == rev@.len(),
            forall|j: int| 0 <= j < gr.len() ==> gr[j] == rev@[j]@,
            gr == orig.subrange(lines@.len() as int, orig.len() as int).reverse(),
        decreases lines.len(),
    {
        let ghost len0 = lines@.len() as int;
        let x = match lines.pop() {
            Some(x) => x,
            None => {
                proof {
                    assert(false);
                }
                String::new()
            },
        };
        rev.push(x);
        proof {
            gr = gr.push(orig[len0 - 1]);
            assert(gr =~~= orig.subrange(len0 - 1, orig.len() as int).reverse()) by {
                let tail = orig.subrange(len0 - 1, orig.len() as int);
                assert(tail.reverse().len() == gr.len());
                assert(forall|m: int| 0 <= m < tail.len() ==> tail.reverse()[m] == tail[
                    tail.len() - 1 - m
                ]);
            }
            assert(forall|j: int| 0 <= j < lines@.len() ==> orig[j] == lines@[j]@);
        }
    }
    proof {
        assert(gr == orig.subrange(0, orig.len() as int).reverse());
        assert(orig.subrange(0, orig.len() as int) =~= orig);
    }

    let mut out = String::new();
    let mut k: usize = 0;
    while k < rev.len()
        invariant
            k <= rev@.len(),
            gr.len() == rev@.len(),
            forall|j: int| 0 <= j < gr.len() ==> gr[j] == rev@[j]@,
            out@ == line_join(gr.take(k as int)),
        decreases rev.len() - k,
    {
        proof {
            assert(gr.take(k + 1).drop_last() =~= gr.take(k as int));
            assert(gr.take(k + 1).last() == gr[k as int]);
        }
        if k > 0 {
            out.append("\n");
            proof {
                reveal_strlit("\n");
                assert("\n"@ =~= seq!['\n']);
            }
        } else {
            proof {
                assert(gr.take(1) =~~= seq![gr[0]]);
            }
        }
        let line: &String = &rev[k];
        out.append(line.as_str());
        proof {
            if k > 0 {
                assert(line_join(gr.take(k + 1)) == line_join(gr.take(k as int)) + seq!['\n']
                    + gr[k as int]);
            } else {
                assert(line_join(gr.take(1)) == gr[0]);
                assert(out@ =~= gr[0]);
            }
        }
        k = k + 1;
    }
    proof {
        assert(gr.take(rev@.len() as int) =~= gr);
        assert(gr == line_split(text@).reverse());
    }
    out
}

/// Relies on std's `String::push`: it appends exactly the given character to
/// the end of the string.
#[verifier::external_body]
pub fn push_char(s: &mut String, c: char)
    ensures
        final(s)@ == old(s)@.push(c),
{
    s.push(c);
}

/// Relies on std's `String::pop`: it removes and returns the last character
/// of the string, or returns `None` when the string is empty.
#[verifier::external_body]
pub fn pop_char(s: &mut String) -> (r: Option<char>)
    ensures
        old(s)@.len() == 0 ==> final(s)@ == old(s)@ && r is None,
        old(s)@.len() > 0 ==> final(s)@ == old(s)@.drop_last() && r == Some(old(s)@.last()),
{
    s.pop()
}

} // verus!
