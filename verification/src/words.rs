//! Command normalization: splitting escaped text into whitespace-separated
//! words, rejoining them with single spaces, and the index arithmetic that
//! keeps match-position lookups aligned with the normalized text.

use vstd::prelude::*;

verus! {

broadcast use vstd::seq_lib::group_seq_properties;

/// One splitting step: a space closes the word under construction (empty
/// words are dropped), any other character extends it.
pub open spec fn split_step(words: Seq<Seq<char>>, cur: Seq<char>, c: char) -> (
    Seq<Seq<char>>,
    Seq<char>,
) {
    if c == ' ' {
        if cur.len() > 0 {
            (words.push(cur), Seq::<char>::empty())
        } else {
            (words, cur)
        }
    } else {
        (words, cur.push(c))
    }
}

/// The splitting state after the first `i` characters of `s`.
pub open spec fn split_state(s: Seq<char>, i: int) -> (Seq<Seq<char>>, Seq<char>)
    decreases i,
{
    if i <= 0 {
        (Seq::<Seq<char>>::empty(), Seq::<char>::empty())
    } else {
        let p = split_state(s, i - 1);
        split_step(p.0, p.1, s[i - 1])
    }
}

/// The words of `s`: maximal runs of non-space characters, in order.
pub open spec fn words_spec(s: Seq<char>) -> Seq<Seq<char>> {
    let p = split_state(s, s.len() as int);
    if p.1.len() > 0 {
        p.0.push(p.1)
    } else {
        p.0
    }
}

/// The view of a split result as a sequence of character sequences.
pub open spec fn words_view(ws: Seq<Vec<char>>) -> Seq<Seq<char>> {
    ws.map_values(|w: Vec<char>| w@)
}

/// Splits `s` into its whitespace-separated words.
pub fn split_words(s: &Vec<char>) -> (r: Vec<Vec<char>>)
    ensures
        words_view(r@) == words_spec(s@),
{
    let mut words: Vec<Vec<char>> = Vec::new();
    let mut cur: Vec<char> = Vec::new();
    let mut i: usize = 0;
    while i < s.len()
        invariant
            i <= s.len(),
            words_view(words@) == split_state(s@, i as int).0,
            cur@ == split_state(s@, i as int).1,
        decreases s.len() - i,
    {
        let c = s[i];
        if c == ' ' {
            if cur.len() > 0 {
                let done = cur;
                cur = Vec::new();
                words.push(done);
                assert(words_view(words@) =~= split_state(s@, i + 1).0);
            }
        } else {
            cur.push(c);
        }
        i += 1;
    }
    if cur.len() > 0 {
        words.push(cur);
        assert(words_view(words@) =~= words_spec(s@));
    }
    words
}

/// The words rejoined with a single space between neighbours.
pub open spec fn join_rep(ws: Seq<Seq<char>>) -> Seq<char>
    decreases ws.len(),
{
    if ws.len() == 0 {
        Seq::<char>::empty()
    } else if ws.len() == 1 {
        ws[0]
    } else {
        join_rep(ws.drop_last()) + seq![' '] + ws.last()
    }
}

/// Joins words with single spaces.
pub fn join_words(ws: &Vec<Vec<char>>) -> (r: Vec<char>)
    ensures
        r@ == join_rep(words_view(ws@)),
{
    let mut out: Vec<char> = Vec::new();
    let mut t: usize = 0;
    while t < ws.len()
        invariant
            t <= ws.len(),
            out@ == join_rep(words_view(ws@).take(t as int)),
        decreases ws.len() - t,
    {
        if t > 0 {
            out.push(' ');
        }
        let word = &ws[t];
        let mut j: usize = 0;
        while j < word.len()
            invariant
                j <= word.len(),
                word == &ws[t as int],
                t < ws.len(),
                out@ == join_rep(words_view(ws@).take(t as int)) + (if t > 0 {
                    seq![' ']
                } else {
                    Seq::<char>::empty()
                }) + ws@[t as int]@.take(j as int),
            decreases word.len() - j,
        {
            out.push(word[j]);
            assert(ws@[t as int]@.take(j + 1) =~= ws@[t as int]@.take(j as int).push(
                ws@[t as int]@[j as int],
            ));
            j += 1;
        }
        proof {
            let vw = words_view(ws@);
            assert(ws@[t as int]@.take(word@.len() as int) =~= vw[t as int]);
            assert(vw.take(t + 1).drop_last() =~= vw.take(t as int));
            assert(vw.take(t + 1).last() == vw[t as int]);
            assert(out@ =~= join_rep(vw.take(t + 1)));
        }
        t += 1;
    }
    assert(words_view(ws@).take(ws@.len() as int) =~= words_view(ws@));
    out
}

/// Where word `t` starts in the joined text: every earlier word contributes
/// its length plus one separator cell.
pub open spec fn word_start(ws: Seq<Seq<char>>, t: int) -> int
    decreases t,
{
    if t <= 0 {
        0
    } else {
        word_start(ws, t - 1) + ws[t - 1].len() + 1
    }
}

/// `word_start` only reads words before `t`, so dropping the last word does
/// not move the earlier starts.
proof fn lemma_word_start_drop_last(ws: Seq<Seq<char>>, t: int)
    requires
        0 <= t < ws.len(),
    ensures
        word_start(ws.drop_last(), t) == word_start(ws, t),
    decreases t,
{
    if t > 0 {
        lemma_word_start_drop_last(ws, t - 1);
    }
}

/// The joined text is one cell short of the start the word past the end
/// would have.
pub proof fn lemma_join_len(ws: Seq<Seq<char>>)
    requires
        ws.len() >= 1,
    ensures
        join_rep(ws).len() == word_start(ws, ws.len() as int) - 1,
    decreases ws.len(),
{
    if ws.len() == 1 {
        assert(word_start(ws, 0) == 0);
    } else {
        lemma_join_len(ws.drop_last());
        lemma_word_start_drop_last(ws, ws.len() - 1);
    }
}

/// Character `j` of word `t` sits at position `word_start(ws, t) + j` of the
/// joined text: match positions computed against the normalized text stay
/// aligned with a walk over the words.
pub proof fn lemma_join_index(ws: Seq<Seq<char>>, t: int, j: int)
    requires
        0 <= t < ws.len(),
        0 <= j < ws[t].len(),
    ensures
        0 <= word_start(ws, t) + j < join_rep(ws).len(),
        join_rep(ws)[word_start(ws, t) + j] == ws[t][j],
    decreases ws.len(),
{
    lemma_word_start_nonneg(ws, t);
    if t == ws.len() - 1 {
        if ws.len() == 1 {
        } else {
            lemma_join_len(ws.drop_last());
            lemma_word_start_drop_last(ws, t);
        }
    } else {
        lemma_join_index(ws.drop_last(), t, j);
        lemma_word_start_drop_last(ws, t);
        lemma_join_len(ws.drop_last());
        lemma_word_start_mono(ws.drop_last(), t + 1, ws.len() - 1);
    }
}

/// Word starts are non-negative.
proof fn lemma_word_start_nonneg(ws: Seq<Seq<char>>, t: int)
    requires
        0 <= t <= ws.len(),
    ensures
        word_start(ws, t) >= t,
    decreases t,
{
    if t > 0 {
        lemma_word_start_nonneg(ws, t - 1);
    }
}

/// Word starts grow with the index: every later word adds its length and one
/// separator cell.
pub proof fn lemma_word_start_mono(ws: Seq<Seq<char>>, a: int, b: int)
    requires
        0 <= a <= b <= ws.len(),
    ensures
        word_start(ws, a) + (b - a) <= word_start(ws, b),
    decreases b - a,
{
    if a < b {
        lemma_word_start_mono(ws, a + 1, b);
    }
}

/// The first colon of `s`, or its length when it has none.
pub open spec fn colon_index(s: Seq<char>) -> int
    decreases s.len(),
{
    if s.len() == 0 {
        0
    } else if s[0] == ':' {
        0
    } else {
        1 + colon_index(s.drop_first())
    }
}

/// What `colon_index` finds: the first colon, or the end.
pub proof fn lemma_colon_index(s: Seq<char>)
    ensures
        0 <= colon_index(s) <= s.len(),
        colon_index(s) < s.len() ==> s[colon_index(s)] == ':',
        forall|k: int| 0 <= k < colon_index(s) ==> s[k] != ':',
    decreases s.len(),
{
    if s.len() > 0 && s[0] != ':' {
        lemma_colon_index(s.drop_first());
    }
}

/// The host half of a compound `host:user` identifier: everything before the
/// first colon (all of it when there is none).
pub open spec fn host_part(s: Seq<char>) -> Seq<char> {
    s.subrange(0, colon_index(s))
}

/// The user half of a compound `host:user` identifier: everything after the
/// first colon (empty when there is none).
pub open spec fn user_part(s: Seq<char>) -> Seq<char> {
    if colon_index(s) == s.len() {
        Seq::<char>::empty()
    } else {
        s.subrange(colon_index(s) + 1, s.len() as int)
    }
}

/// Splits a compound `host:user` identifier at its first colon.
pub fn split_host_user(s: &Vec<char>) -> (r: (Vec<char>, Vec<char>))
    ensures
        r.0@ == host_part(s@),
        r.1@ == user_part(s@),
{
    proof {
        lemma_colon_index(s@);
    }
    let mut i: usize = 0;
    while i < s.len() && s[i] != ':'
        invariant
            i <= s.len(),
            forall|k: int| 0 <= k < i ==> s@[k] != ':',
        decreases s.len() - i,
    {
        i += 1;
    }
    proof {
        assert(colon_index(s@) == i) by {
            lemma_colon_index(s@);
            if colon_index(s@) < i {
                assert(s@[colon_index(s@)] != ':');
            }
        }
    }
    let host = crate::text::take_prefix(s, i);
    let mut user: Vec<char> = Vec::new();
    if i < s.len() {
        let mut j: usize = i + 1;
        while j < s.len()
            invariant
                i + 1 <= j <= s.len(),
                i < s.len(),
                user@ == s@.subrange(i + 1, j as int),
            decreases s.len() - j,
        {
            user.push(s[j]);
            assert(s@.subrange(i + 1, j + 1) =~= s@.subrange(i + 1, j as int).push(
                s@[j as int],
            ));
            j += 1;
        }
    }
    proof {
        assert(host@ =~= host_part(s@));
        assert(user@ =~= user_part(s@));
    }
    (host, user)
}

/// The length of the words and the word still under construction, joined.
spec fn partial_join_len(ws: Seq<Seq<char>>, cur: Seq<char>) -> int {
    if cur.len() > 0 {
        join_rep(ws.push(cur)).len() as int
    } else {
        join_rep(ws).len() as int
    }
}

/// Appending a word adds its length and, past the first word, one separator.
proof fn lemma_join_push_len(ws: Seq<Seq<char>>, w: Seq<char>)
    ensures
        join_rep(ws.push(w)).len() == if ws.len() == 0 {
            w.len() as int
        } else {
            (join_rep(ws).len() + 1 + w.len()) as int
        },
{
    let p = ws.push(w);
    if ws.len() == 0 {
        assert(p.len() == 1);
    } else {
        assert(p.drop_last() =~= ws);
        assert(p.last() == w);
    }
}

/// Splitting consumes at least one character for every cell of the rejoined
/// text; closed words additionally consumed the space that closed them.
proof fn lemma_split_join_len(s: Seq<char>, i: int)
    requires
        0 <= i <= s.len(),
    ensures
        ({
            let p = split_state(s, i);
            &&& partial_join_len(p.0, p.1) <= i
            &&& (p.1.len() == 0 && p.0.len() > 0 ==> partial_join_len(p.0, p.1) + 1 <= i)
        }),
    decreases i,
{
    if i > 0 {
        lemma_split_join_len(s, i - 1);
        let q = split_state(s, i - 1);
        let c = s[i - 1];
        if c == ' ' {
            if q.1.len() > 0 {
                lemma_join_push_len(q.0, q.1);
            }
        } else {
            if q.1.len() > 0 {
                lemma_join_push_len(q.0, q.1);
                lemma_join_push_len(q.0, q.1.push(c));
            } else {
                lemma_join_push_len(q.0, q.1.push(c));
            }
        }
    }
}

/// Normalization never lengthens text: the words of `s` rejoined with single
/// spaces fit in the space `s` itself took.
pub proof fn lemma_normalized_no_longer(s: Seq<char>)
    ensures
        join_rep(words_spec(s)).len() <= s.len(),
{
    lemma_split_join_len(s, s.len() as int);
}

} // verus!
