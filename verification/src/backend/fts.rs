//! The full-text query built from a search text.
use vstd::prelude::*;
use crate::text::{is_blank, blank, chars_of, append_chars};

verus! {

/// Characters kept in a search term: ASCII letters and digits, and `_`.
pub open spec fn is_term_char(c: char) -> bool {
    ||| ('a' <= c && c <= 'z')
    ||| ('A' <= c && c <= 'Z')
    ||| ('0' <= c && c <= '9')
    ||| c == '_'
}

/// The words of `s` as `str::split_whitespace` finds them, read left to
/// right: the finished words, and the word still being read.
pub open spec fn scan_words(s: Seq<char>) -> (Seq<Seq<char>>, Seq<char>)
    decreases s.len(),
{
    if s.len() == 0 {
        (Seq::empty(), Seq::empty())
    } else {
        let (done, cur) = scan_words(s.drop_last());
        let c = s.last();
        if is_blank(c) {
            if cur.len() > 0 {
                (done.push(cur), Seq::empty())
            } else {
                (done, Seq::empty())
            }
        } else {
            (done, cur.push(c))
        }
    }
}

/// The maximal runs of non-blank characters of `s`, in order
/// (`str::split_whitespace`).
pub open spec fn words(s: Seq<char>) -> Seq<Seq<char>> {
    let (done, cur) = scan_words(s);
    if cur.len() > 0 {
        done.push(cur)
    } else {
        done
    }
}

/// `w` with every character dropped that is not a term character.
pub open spec fn clean(w: Seq<char>) -> Seq<char>
    decreases w.len(),
{
    if w.len() == 0 {
        Seq::empty()
    } else if is_term_char(w.last()) {
        clean(w.drop_last()).push(w.last())
    } else {
        clean(w.drop_last())
    }
}

/// The prefix terms for the words `ws`: each word cleaned and followed by
/// `*`; words that clean to nothing are left out.
pub open spec fn prefix_terms(ws: Seq<Seq<char>>) -> Seq<Seq<char>>
    decreases ws.len(),
{
    if ws.len() == 0 {
        Seq::empty()
    } else {
        let ts = prefix_terms(ws.drop_last());
        let c = clean(ws.last());
        if c.len() > 0 {
            ts.push(c.push('*'))
        } else {
            ts
        }
    }
}

/// The terms `ts` separated by single spaces.
pub open spec fn join_terms(ts: Seq<Seq<char>>) -> Seq<char>
    decreases ts.len(),
{
    if ts.len() == 0 {
        Seq::empty()
    } else if ts.len() == 1 {
        ts[0]
    } else {
        join_terms(ts.drop_last()) + seq![' '] + ts.last()
    }
}

/// The full-text query for the search text `raw`: one prefix term per word.
pub open spec fn fts_query(raw: Seq<char>) -> Seq<char> {
    join_terms(prefix_terms(words(raw)))
}

/// Characters that may appear in a full-text query built here.
pub open spec fn is_query_char(c: char) -> bool {
    is_term_char(c) || c == '*' || c == ' '
}

proof fn lemma_clean_chars(w: Seq<char>)
    ensures
        forall|i: int| 0 <= i < clean(w).len() ==> is_term_char(#[trigger] clean(w)[i]),
    decreases w.len(),
{
    if w.len() > 0 {
        lemma_clean_chars(w.drop_last());
        let c = clean(w);
        let p = clean(w.drop_last());
        assert forall|i: int| 0 <= i < c.len() implies is_term_char(#[trigger] c[i]) by {
            if i < p.len() {
                assert(c[i] == p[i]);
            }
        }
    }
}

proof fn lemma_terms_chars(ws: Seq<Seq<char>>)
    ensures
        forall|k: int, i: int|
            0 <= k < prefix_terms(ws).len() && 0 <= i < prefix_terms(ws)[k].len() ==> is_query_char(
                #[trigger] prefix_terms(ws)[k][i],
            ),
    decreases ws.len(),
{
    if ws.len() > 0 {
        lemma_terms_chars(ws.drop_last());
        lemma_clean_chars(ws.last());
        let ts = prefix_terms(ws);
        let front = prefix_terms(ws.drop_last());
        let c = clean(ws.last());
        assert forall|k: int, i: int| 0 <= k < ts.len() && 0 <= i < ts[k].len() implies is_query_char(
            #[trigger] ts[k][i],
        ) by {
            if k < front.len() {
                assert(ts[k] == front[k]);
            } else {
                assert(ts[k] == c.push('*'));
                if i < c.len() {
                    assert(ts[k][i] == c[i]);
                }
            }
        }
    }
}

proof fn lemma_join_chars(ts: Seq<Seq<char>>)
    requires
        forall|k: int, i: int| 0 <= k < ts.len() && 0 <= i < ts[k].len() ==> is_query_char(#[trigger] ts[k][i]),
    ensures
        forall|i: int| 0 <= i < join_terms(ts).len() ==> is_query_char(#[trigger] join_terms(ts)[i]),
    decreases ts.len(),
{
    if ts.len() > 1 {
        let front = ts.drop_last();
        assert forall|k: int, i: int| 0 <= k < front.len() && 0 <= i < front[k].len() implies is_query_char(
            #[trigger] front[k][i],
        ) by {
            assert(front[k] == ts[k]);
        }
        lemma_join_chars(front);
        let j = join_terms(ts);
        let a = join_terms(front);
        assert forall|i: int| 0 <= i < j.len() implies is_query_char(#[trigger] j[i]) by {
            if i < a.len() {
                assert(j[i] == a[i]);
            } else if i == a.len() {
                assert(j[i] == ' ');
            } else {
                assert(j[i] == ts.last()[i - a.len() - 1]);
                assert(ts.last() == ts[ts.len() - 1]);
            }
        }
    } else if ts.len() == 1 {
        assert forall|i: int| 0 <= i < join_terms(ts).len() implies is_query_char(#[trigger] join_terms(ts)[i]) by {
            assert(join_terms(ts)[i] == ts[0][i]);
        }
    }
}

/// Whatever the search text, the full-text query holds only ASCII letters,
/// digits, `_`, `*` and spaces: quotes and full-text operators never reach
/// the query.
pub proof fn lemma_fts_query_chars(raw: Seq<char>)
    ensures
        forall|i: int| 0 <= i < fts_query(raw).len() ==> is_query_char(#[trigger] fts_query(raw)[i]),
{
    lemma_terms_chars(words(raw));
    lemma_join_chars(prefix_terms(words(raw)));
}

/// A term as the query holds it: one or more term characters, then `*`.
pub open spec fn is_term(t: Seq<char>) -> bool {
    &&& t.len() >= 2
    &&& t.last() == '*'
    &&& forall|i: int| 0 <= i < t.len() - 1 ==> is_term_char(#[trigger] t[i])
}

proof fn lemma_clean_keeps_terms(w: Seq<char>)
    requires
        forall|i: int| 0 <= i < w.len() ==> is_term_char(#[trigger] w[i]),
    ensures
        clean(w) == w,
    decreases w.len(),
{
    if w.len() > 0 {
        lemma_clean_keeps_terms(w.drop_last());
        assert(w.drop_last().push(w.last()) == w);
    }
}

proof fn lemma_terms_are_terms(ws: Seq<Seq<char>>)
    ensures
        forall|k: int| 0 <= k < prefix_terms(ws).len() ==> is_term(#[trigger] prefix_terms(ws)[k]),
    decreases ws.len(),
{
    if ws.len() > 0 {
        lemma_terms_are_terms(ws.drop_last());
        lemma_clean_chars(ws.last());
        let ts = prefix_terms(ws);
        let front = prefix_terms(ws.drop_last());
        let c = clean(ws.last());
        assert forall|k: int| 0 <= k < ts.len() implies is_term(#[trigger] ts[k]) by {
            if k < front.len() {
                assert(ts[k] == front[k]);
            } else {
                assert(ts[k] == c.push('*'));
                assert forall|i: int| 0 <= i < ts[k].len() - 1 implies is_term_char(#[trigger] ts[k][i]) by {
                    assert(ts[k][i] == c[i]);
                }
            }
        }
    }
}

/// Prefix terms of words that are already terms are those words.
proof fn lemma_terms_of_terms(ts: Seq<Seq<char>>)
    requires
        forall|k: int| 0 <= k < ts.len() ==> is_term(#[trigger] ts[k]),
    ensures
        prefix_terms(ts) == ts,
    decreases ts.len(),
{
    if ts.len() > 0 {
        let front = ts.drop_last();
        assert forall|k: int| 0 <= k < front.len() implies is_term(#[trigger] front[k]) by {
            assert(front[k] == ts[k]);
        }
        lemma_terms_of_terms(front);
        let t = ts.last();
        assert(is_term(ts[ts.len() - 1]));
        let body = t.drop_last();
        assert forall|i: int| 0 <= i < body.len() implies is_term_char(#[trigger] body[i]) by {
            assert(body[i] == t[i]);
        }
        lemma_clean_keeps_terms(body);
        assert(body.push('*') == t);
        assert(t.drop_last() == body);
        assert(clean(t) == clean(body));
        assert(front.push(t) == ts);
    }
}

proof fn lemma_term_char_not_blank(c: char)
    requires
        is_term_char(c) || c == '*',
    ensures
        !is_blank(c),
{
}

/// Reading a run of non-blank characters extends the word being read.
proof fn lemma_scan_word(s: Seq<char>, w: Seq<char>)
    requires
        forall|i: int| 0 <= i < w.len() ==> !is_blank(#[trigger] w[i]),
    ensures
        scan_words(s + w) == (scan_words(s).0, scan_words(s).1 + w),
    decreases w.len(),
{
    if w.len() == 0 {
        assert(s + w == s);
        assert(scan_words(s).1 + w == scan_words(s).1);
    } else {
        let w0 = w.drop_last();
        assert forall|i: int| 0 <= i < w0.len() implies !is_blank(#[trigger] w0[i]) by {
            assert(w0[i] == w[i]);
        }
        lemma_scan_word(s, w0);
        assert((s + w).drop_last() == s + w0);
        assert((s + w).last() == w.last());
        assert(!is_blank(w[w.len() - 1]));
        assert(scan_words(s).1 + w0.push(w.last()) == (scan_words(s).1 + w0).push(w.last()));
        assert(w0.push(w.last()) == w);
    }
}

/// The words of a query are its terms.
proof fn lemma_words_of_join(ts: Seq<Seq<char>>)
    requires
        forall|k: int| 0 <= k < ts.len() ==> is_term(#[trigger] ts[k]),
    ensures
        ts.len() > 0 ==> scan_words(join_terms(ts)) == (ts.drop_last(), ts.last()),
        words(join_terms(ts)) == ts,
    decreases ts.len(),
{
    assert forall|k: int, i: int| 0 <= k < ts.len() && 0 <= i < ts[k].len() implies !is_blank(
        #[trigger] ts[k][i],
    ) by {
        assert(is_term(ts[k]));
        lemma_term_char_not_blank(ts[k][i]);
    }
    if ts.len() == 0 {
        assert(join_terms(ts) == Seq::<char>::empty());
        assert(words(join_terms(ts)) == ts);
    } else if ts.len() == 1 {
        let t = ts[0];
        assert forall|i: int| 0 <= i < t.len() implies !is_blank(#[trigger] t[i]) by {}
        lemma_scan_word(Seq::empty(), t);
        assert(Seq::<char>::empty() + t == t);
        assert(ts.drop_last() == Seq::<Seq<char>>::empty());
        assert(Seq::<Seq<char>>::empty().push(t) == ts);
    } else {
        let front = ts.drop_last();
        assert forall|k: int| 0 <= k < front.len() implies is_term(#[trigger] front[k]) by {
            assert(front[k] == ts[k]);
        }
        lemma_words_of_join(front);
        let a = join_terms(front);
        let t = ts.last();
        assert(is_term(ts[ts.len() - 1]));
        assert(front.last() == ts[ts.len() - 2]);
        assert(is_term(front.last()));
        // after the space, the word before it is finished
        let a2 = a.push(' ');
        assert(a2.drop_last() == a);
        assert(scan_words(a2) == (front.drop_last().push(front.last()), Seq::<char>::empty()));
        assert(front.drop_last().push(front.last()) == front);
        assert forall|i: int| 0 <= i < t.len() implies !is_blank(#[trigger] t[i]) by {}
        lemma_scan_word(a2, t);
        assert(a + seq![' '] + t == a2 + t);
        assert(Seq::<char>::empty() + t == t);
        assert(front.push(t) == ts);
    }
}

/// Building the query of a query gives the same query back: the query
/// builder is idempotent.
pub proof fn lemma_fts_query_idempotent(raw: Seq<char>)
    ensures
        fts_query(fts_query(raw)) == fts_query(raw),
{
    let ts = prefix_terms(words(raw));
    lemma_terms_are_terms(words(raw));
    lemma_words_of_join(ts);
    lemma_terms_of_terms(ts);
}

/// A search text that is one word of ASCII letters, digits and `_` gives
/// the query made of that word followed by `*`: no such character is ever
/// dropped.
pub proof fn lemma_fts_query_of_word(w: Seq<char>)
    requires
        w.len() > 0,
        forall|i: int|
            0 <= i < w.len() ==> ('a' <= #[trigger] w[i] <= 'z') || ('A' <= w[i] <= 'Z') || ('0'
                <= w[i] <= '9') || w[i] == '_',
    ensures
        fts_query(w) == w.push('*'),
{
    assert forall|i: int| 0 <= i < w.len() implies !is_blank(#[trigger] w[i]) by {
        lemma_term_char_not_blank(w[i]);
    }
    lemma_scan_word(Seq::empty(), w);
    assert(Seq::<char>::empty() + w == w);
    assert(words(w) == seq![w]);
    lemma_clean_keeps_terms(w);
    let ws = seq![w];
    assert(ws.drop_last() == Seq::<Seq<char>>::empty());
    assert(ws.last() == w);
    assert(prefix_terms(ws.drop_last()) == Seq::<Seq<char>>::empty());
    assert(Seq::<Seq<char>>::empty().push(w.push('*')) == seq![w.push('*')]);
    assert(prefix_terms(ws) == seq![w.push('*')]);
    assert(join_terms(seq![w.push('*')]) == w.push('*'));
}

/// A one-character search keeps the character exactly when it is an ASCII
/// letter or digit or `_`, giving that character followed by `*`; any other
/// character gives the empty query.
pub proof fn lemma_fts_query_of_char(c: char)
    ensures
        fts_query(seq![c]) == if ('a' <= c <= 'z') || ('A' <= c <= 'Z') || ('0' <= c <= '9') || c
            == '_' {
            seq![c, '*']
        } else {
            Seq::<char>::empty()
        },
{
    let s = seq![c];
    let e = Seq::<char>::empty();
    assert(s.drop_last() == e);
    assert(s.last() == c);
    assert(scan_words(e) == (Seq::<Seq<char>>::empty(), e));
    assert(scan_words(s) == scan_words(e.push(c)));
    assert(e.push(c) == s);
    if is_blank(c) {
        if is_term_char(c) {
            lemma_term_char_not_blank(c);
        }
        assert(scan_words(s) == (Seq::<Seq<char>>::empty(), Seq::<char>::empty()));
        assert(words(s) == Seq::<Seq<char>>::empty());
        assert(prefix_terms(Seq::<Seq<char>>::empty()) == Seq::<Seq<char>>::empty());
        assert(fts_query(s) == Seq::<char>::empty());
    } else {
        assert(scan_words(s) == (Seq::<Seq<char>>::empty(), Seq::<char>::empty().push(c)));
        assert(Seq::<char>::empty().push(c) == s);
        assert(words(s) == seq![s]);
        let ws = seq![s];
        assert(ws.drop_last() == Seq::<Seq<char>>::empty());
        assert(ws.last() == s);
        assert(prefix_terms(ws.drop_last()) == Seq::<Seq<char>>::empty());
        assert(clean(e) == e);
        if is_term_char(c) {
            assert(clean(s) == e.push(c));
            assert(e.push(c) == s);
            assert(prefix_terms(ws) == Seq::<Seq<char>>::empty().push(s.push('*')));
            assert(s.push('*') == seq![c, '*']);
            assert(Seq::<Seq<char>>::empty().push(s.push('*')) == seq![seq![c, '*']]);
            assert(join_terms(seq![seq![c, '*']]) == seq![c, '*']);
        } else {
            assert(clean(s) == e);
            assert(prefix_terms(ws) == Seq::<Seq<char>>::empty());
            assert(join_terms(Seq::<Seq<char>>::empty()) == e);
        }
    }
}

fn term_char(c: char) -> (b: bool)
    ensures
        b == is_term_char(c),
{
    ('a' <= c && c <= 'z') || ('A' <= c && c <= 'Z') || ('0' <= c && c <= '9') || c == '_'
}

proof fn lemma_join_push(ts: Seq<Seq<char>>, t: Seq<char>)
    ensures
        join_terms(ts.push(t)) == if ts.len() == 0 { t } else { join_terms(ts) + seq![' '] + t },
{
    assert(ts.push(t).drop_last() == ts);
    if ts.len() == 0 {
        assert(ts.push(t)[0] == t);
    }
}

/// Adds the term for the cleaned word `cur` (if any) to the query `out`.
fn flush_term(out: &mut String, first: &mut bool, cur: &Vec<char>, Ghost(ts): Ghost<Seq<Seq<char>>>)
    requires
        old(out)@ == join_terms(ts),
        *old(first) == (ts.len() == 0),
    ensures
        final(out)@ == join_terms(if cur@.len() > 0 { ts.push(cur@.push('*')) } else { ts }),
        *final(first) == ((if cur@.len() > 0 { ts.push(cur@.push('*')) } else { ts }).len() == 0),
{
    if cur.len() > 0 {
        proof {
            lemma_join_push(ts, cur@.push('*'));
        }
        if !*first {
            let mut sep: Vec<char> = Vec::new();
            sep.push(' ');
            append_chars(out, &sep);
        }
        append_chars(out, cur);
        let mut star: Vec<char> = Vec::new();
        star.push('*');
        append_chars(out, &star);
        *first = false;
    }
}

/// Builds the full-text query for a search text: every whitespace-separated
/// word is stripped down to ASCII letters, digits and `_`, words left empty
/// are dropped, and the rest become prefix terms `word*` joined by spaces.
pub fn build_fts_query(raw: &str) -> (q: String)
    ensures
        q@ == fts_query(raw@),
{
    let v = chars_of(raw);
    let mut out = String::new();
    let mut first = true;
    let mut cur: Vec<char> = Vec::new();
    let ghost mut done: Seq<Seq<char>> = Seq::empty();
    let ghost mut word: Seq<char> = Seq::empty();
    let mut i: usize = 0;
    while i < v.len()
        invariant
            i <= v@.len(),
            v@ == raw@,
            (done, word) == scan_words(v@.take(i as int)),
            out@ == join_terms(prefix_terms(done)),
            first == (prefix_terms(done).len() == 0),
            cur@ == clean(word),
        decreases v@.len() - i,
    {
        let c = v[i];
        proof {
            assert(v@.take(i + 1).drop_last() == v@.take(i as int));
            assert(v@.take(i + 1).last() == c);
        }
        if blank(c) {
            flush_term(&mut out, &mut first, &cur, Ghost(prefix_terms(done)));
            proof {
                if word.len() > 0 {
                    let d2 = done.push(word);
                    assert(d2.drop_last() == done);
                    done = d2;
                }
                word = Seq::empty();
            }
            cur = Vec::new();
        } else {
            if term_char(c) {
                cur.push(c);
            }
            proof {
                let w2 = word.push(c);
                assert(w2.drop_last() == word);
                word = w2;
            }
        }
        i = i + 1;
    }
    proof {
        assert(v@.take(v@.len() as int) == v@);
    }
    flush_term(&mut out, &mut first, &cur, Ghost(prefix_terms(done)));
    proof {
        if word.len() > 0 {
            assert(done.push(word).drop_last() == done);
        }
    }
    out
}

} // verus!
