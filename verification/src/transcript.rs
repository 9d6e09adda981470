//! Cleaning the raw text that the local Whisper engine produces.

use vstd::prelude::*;
use crate::text::{is_ws, is_whitespace, chars_of, string_of};

verus! {

/// `s` after its first `']'`; empty when `s` holds no `']'`.
pub open spec fn skip_past_close(s: Seq<char>) -> Seq<char>
    decreases s.len(),
{
    if s.len() == 0 {
        s
    } else if s[0] == ']' {
        s.drop_first()
    } else {
        skip_past_close(s.drop_first())
    }
}

pub proof fn lemma_skip_past_close_len(s: Seq<char>)
    ensures
        skip_past_close(s).len() <= s.len(),
    decreases s.len(),
{
    if s.len() > 0 && s[0] != ']' {
        lemma_skip_past_close_len(s.drop_first());
    }
}

/// `s` with every bracketed annotation removed: each `'['` is dropped
/// together with everything up to and including the next `']'` (or up to
/// the end when no `']'` follows).
pub open spec fn strip_brackets(s: Seq<char>) -> Seq<char>
    decreases s.len(),
{
    if s.len() == 0 {
        s
    } else if s[0] == '[' {
        proof {
            lemma_skip_past_close_len(s.drop_first());
        }
        strip_brackets(skip_past_close(s.drop_first()))
    } else {
        seq![s[0]] + strip_brackets(s.drop_first())
    }
}

/// `str::replace(m, "")`: every non-overlapping occurrence of `m`, scanning
/// from the left, removed from `s`.
pub open spec fn remove_all(s: Seq<char>, m: Seq<char>) -> Seq<char>
    decreases s.len(),
{
    if s.len() == 0 {
        s
    } else if m.len() > 0 && m.len() <= s.len() && s.take(m.len() as int) == m {
        remove_all(s.skip(m.len() as int), m)
    } else {
        seq![s[0]] + remove_all(s.drop_first(), m)
    }
}

/// The words of `s`: its maximal runs of characters that are not white
/// space, in order (`str::split_whitespace`).
pub open spec fn words(s: Seq<char>) -> Seq<Seq<char>>
    decreases s.len(),
{
    if s.len() == 0 {
        seq![]
    } else {
        let w = words(s.drop_last());
        let c = s.last();
        if is_ws(c) {
            w
        } else if s.len() >= 2 && !is_ws(s[s.len() - 2]) && w.len() > 0 {
            w.drop_last().push(w.last().push(c))
        } else {
            w.push(seq![c])
        }
    }
}

/// The words of `ws` joined with single spaces.
pub open spec fn join_space(ws: Seq<Seq<char>>) -> Seq<char>
    decreases ws.len(),
{
    if ws.len() == 0 {
        seq![]
    } else if ws.len() == 1 {
        ws[0]
    } else {
        join_space(ws.drop_last()) + seq![' '] + ws.last()
    }
}

/// `s` with its white space collapsed: the words of `s` joined by single
/// spaces, with nothing before the first or after the last.
pub open spec fn collapse_ws(s: Seq<char>) -> Seq<char> {
    join_space(words(s))
}

/// The seven parenthetical noise markers that Whisper emits, in the order
/// in which they are removed.
pub open spec fn noise_markers() -> Seq<Seq<char>> {
    seq![
        "(silence)"@,
        "(Silence)"@,
        "(SILENCE)"@,
        "(inaudible)"@,
        "(Inaudible)"@,
        "(no speech)"@,
        "(No speech)"@,
    ]
}

/// `s` after removing, one marker after the other, the first `k` markers.
pub open spec fn remove_markers(s: Seq<char>, ms: Seq<Seq<char>>, k: nat) -> Seq<char>
    decreases k,
{
    if k == 0 || k > ms.len() {
        s
    } else {
        remove_all(remove_markers(s, ms, (k - 1) as nat), ms[k - 1])
    }
}

/// What `clean_whisper_output` returns for the text `s`.
pub open spec fn cleaned(s: Seq<char>) -> Seq<char> {
    collapse_ws(remove_markers(strip_brackets(s), noise_markers(), 7))
}

fn strip_brackets_exec(s: &Vec<char>) -> (r: Vec<char>)
    ensures
        r@ == strip_brackets(s@),
{
    let n = s.len();
    let mut out: Vec<char> = Vec::new();
    let mut skipping = false;
    let mut i: usize = 0;
    assert(s@.skip(0) =~= s@);
    while i < n
        invariant
            n == s@.len(),
            i <= n,
            !skipping ==> strip_brackets(s@) == out@ + strip_brackets(s@.skip(i as int)),
            skipping ==> strip_brackets(s@) == out@ + strip_brackets(
                skip_past_close(s@.skip(i as int)),
            ),
        decreases n - i,
    {
        let c = s[i];
        let ghost rest = s@.skip(i as int);
        assert(rest.drop_first() =~= s@.skip(i + 1));
        assert(rest[0] == c);
        if skipping {
            if c == ']' {
                skipping = false;
            }
        } else if c == '[' {
            skipping = true;
        } else {
            let ghost before = out@;
            out.push(c);
            assert(before + (seq![c] + strip_brackets(s@.skip(i + 1))) =~= out@ + strip_brackets(
                s@.skip(i + 1),
            ));
        }
        i = i + 1;
    }
    assert(s@.skip(n as int) =~= Seq::<char>::empty());
    assert(out@ + Seq::<char>::empty() =~= out@);
    out
}

fn starts_with_at(s: &Vec<char>, i: usize, m: &Vec<char>) -> (r: bool)
    requires
        i <= s@.len(),
    ensures
        r == (m@.len() <= s@.len() - i && s@.skip(i as int).take(m@.len() as int) == m@),
{
    let n = s.len();
    let k = m.len();
    if k > n - i {
        return false;
    }
    let mut j: usize = 0;
    while j < k
        invariant
            n == s@.len(),
            k == m@.len(),
            i + k <= n,
            j <= k,
            forall|t: int| 0 <= t < j ==> s@[i + t] == m@[t],
        decreases k - j,
    {
        if s[i + j] != m[j] {
            assert(s@.skip(i as int).take(k as int)[j as int] != m@[j as int]);
            return false;
        }
        j = j + 1;
    }
    assert(s@.skip(i as int).take(k as int) =~= m@);
    true
}

fn remove_all_exec(s: &Vec<char>, m: &Vec<char>) -> (r: Vec<char>)
    ensures
        r@ == remove_all(s@, m@),
{
    let n = s.len();
    let k = m.len();
    let mut out: Vec<char> = Vec::new();
    let mut i: usize = 0;
    assert(s@.skip(0) =~= s@);
    while i < n
        invariant
            n == s@.len(),
            k == m@.len(),
            i <= n,
            remove_all(s@, m@) == out@ + remove_all(s@.skip(i as int), m@),
        decreases n - i,
    {
        let ghost rest = s@.skip(i as int);
        if k > 0 && starts_with_at(s, i, m) {
            assert(rest.skip(k as int) =~= s@.skip(i + k));
            i = i + k;
        } else {
            let c = s[i];
            assert(rest.drop_first() =~= s@.skip(i + 1));
            let ghost before = out@;
            out.push(c);
            assert(before + (seq![c] + remove_all(s@.skip(i + 1), m@)) =~= out@ + remove_all(
                s@.skip(i + 1),
                m@,
            ));
            i = i + 1;
        }
    }
    assert(s@.skip(n as int) =~= Seq::<char>::empty());
    assert(out@ + Seq::<char>::empty() =~= out@);
    out
}

proof fn lemma_words_nonempty_when_in_word(s: Seq<char>)
    requires
        s.len() > 0,
        !is_ws(s.last()),
    ensures
        words(s).len() > 0,
{
    let w = words(s.drop_last());
    if s.len() >= 2 && !is_ws(s[s.len() - 2]) && w.len() > 0 {
        assert(words(s) == w.drop_last().push(w.last().push(s.last())));
    } else {
        assert(words(s) == w.push(seq![s.last()]));
    }
}

proof fn lemma_join_nonempty(ws: Seq<Seq<char>>)
    requires
        forall|k: int| 0 <= k < ws.len() ==> #[trigger] ws[k].len() > 0,
    ensures
        join_space(ws).len() == 0 <==> ws.len() == 0,
    decreases ws.len(),
{
    if ws.len() > 1 {
        lemma_join_nonempty(ws.drop_last());
    }
}

proof fn lemma_words_each_nonempty(s: Seq<char>)
    ensures
        forall|k: int| 0 <= k < words(s).len() ==> #[trigger] words(s)[k].len() > 0,
    decreases s.len(),
{
    if s.len() > 0 {
        lemma_words_each_nonempty(s.drop_last());
        let w = words(s.drop_last());
        let c = s.last();
        if !is_ws(c) {
            if s.len() >= 2 && !is_ws(s[s.len() - 2]) && w.len() > 0 {
                let w2 = w.drop_last().push(w.last().push(c));
                assert forall|k: int| 0 <= k < w2.len() implies #[trigger] w2[k].len() > 0 by {
                    if k < w.len() - 1 {
                        assert(w2[k] == w[k]);
                    }
                }
            } else {
                let w2 = w.push(seq![c]);
                assert forall|k: int| 0 <= k < w2.len() implies #[trigger] w2[k].len() > 0 by {
                    if k < w.len() {
                        assert(w2[k] == w[k]);
                    }
                }
            }
        }
    }
}

proof fn lemma_join_extend_last(ws: Seq<Seq<char>>, c: char)
    requires
        ws.len() > 0,
    ensures
        join_space(ws.drop_last().push(ws.last().push(c))) == join_space(ws).push(c),
{
    let w2 = ws.drop_last().push(ws.last().push(c));
    assert(w2.drop_last() =~= ws.drop_last());
    if ws.len() == 1 {
        assert(join_space(w2) == w2[0]);
    } else {
        assert(join_space(w2) == join_space(ws.drop_last()) + seq![' '] + ws.last().push(c));
        assert(join_space(ws.drop_last()) + seq![' '] + ws.last().push(c) =~= (join_space(
            ws.drop_last(),
        ) + seq![' '] + ws.last()).push(c));
    }
}

proof fn lemma_join_push(ws: Seq<Seq<char>>, x: Seq<char>)
    ensures
        ws.len() > 0 ==> join_space(ws.push(x)) == join_space(ws) + seq![' '] + x,
        ws.len() == 0 ==> join_space(ws.push(x)) == x,
{
    assert(ws.push(x).drop_last() =~= ws);
}

fn collapse_ws_exec(s: &Vec<char>) -> (r: Vec<char>)
    ensures
        r@ == collapse_ws(s@),
{
    let n = s.len();
    let mut out: Vec<char> = Vec::new();
    let mut in_word = false;
    let mut i: usize = 0;
    while i < n
        invariant
            n == s@.len(),
            i <= n,
            out@ == join_space(words(s@.take(i as int))),
            in_word == (i > 0 && !is_ws(s@[i - 1])),
            out@.len() == 0 <==> words(s@.take(i as int)).len() == 0,
        decreases n - i,
    {
        let c = s[i];
        let ghost p = s@.take(i as int);
        let ghost p1 = s@.take(i + 1);
        assert(p1.drop_last() =~= p);
        assert(p1.last() == c);
        proof {
            lemma_words_each_nonempty(p1);
            lemma_join_nonempty(words(p1));
        }
        if is_whitespace(c) {
            in_word = false;
        } else if in_word {
            proof {
                assert(p.last() == s@[i - 1]);
                lemma_words_nonempty_when_in_word(p);
                assert(p1[p1.len() - 2] == s@[i - 1]);
                lemma_join_extend_last(words(p), c);
            }
            out.push(c);
        } else {
            proof {
                lemma_join_push(words(p), seq![c]);
                if i >= 1 {
                    assert(p1[p1.len() - 2] == s@[i - 1]);
                }
            }
            if out.len() > 0 {
                out.push(' ');
            }
            out.push(c);
            in_word = true;
            proof {
                if words(p).len() > 0 {
                    assert(out@ =~= join_space(words(p)) + seq![' '] + seq![c]);
                } else {
                    assert(out@ =~= seq![c]);
                }
            }
        }
        i = i + 1;
    }
    assert(s@.take(n as int) =~= s@);
    out
}

/// Removes Whisper's bracketed annotations (`[BLANK_AUDIO]`, `[Music]`, ...)
/// and its parenthetical noise markers, then collapses white space into
/// single spaces.
pub fn clean_whisper_output(text: &str) -> (r: String)
    ensures
        r@ == cleaned(text@),
{
    let chars = chars_of(text);
    let mut buf = strip_brackets_exec(&chars);
    let markers: [&str; 7] = [
        "(silence)",
        "(Silence)",
        "(SILENCE)",
        "(inaudible)",
        "(Inaudible)",
        "(no speech)",
        "(No speech)",
    ];
    let ghost ms = noise_markers();
    let ghost start = buf@;
    assert(markers@.len() == 7);
    for k in 0..7usize
        invariant
            buf@ == remove_markers(start, ms, k as nat),
            ms == noise_markers(),
            forall|t: int| 0 <= t < 7 ==> (#[trigger] markers@[t])@ == ms[t],
    {
        let m = chars_of(markers[k]);
        buf = remove_all_exec(&buf, &m);
    }
    let collapsed = collapse_ws_exec(&buf);
    string_of(&collapsed)
}


/// `t` has no white space but single `' '` characters between non-blank
/// ones: nothing blank at either end and no two blanks in a row.
pub open spec fn well_spaced(t: Seq<char>) -> bool {
    &&& forall|i: int| 0 <= i < t.len() && is_ws(#[trigger] t[i]) ==> t[i] == ' '
    &&& t.len() > 0 ==> !is_ws(t[0]) && !is_ws(t.last())
    &&& forall|i: int| 0 <= i < t.len() - 1 ==> !(is_ws(#[trigger] t[i]) && is_ws(t[i + 1]))
}

proof fn lemma_skip_past_close_avoids(s: Seq<char>, c: char)
    requires
        !s.contains(c),
    ensures
        !skip_past_close(s).contains(c),
    decreases s.len(),
{
    if s.len() > 0 {
        assert forall|i: int| 0 <= i < s.drop_first().len() implies s.drop_first()[i] != c by {
            assert(s.drop_first()[i] == s[i + 1]);
        }
        if s[0] != ']' {
            lemma_skip_past_close_avoids(s.drop_first(), c);
        }
    }
}

proof fn lemma_strip_brackets_avoids(s: Seq<char>, c: char)
    requires
        !s.contains(c) || c == '[',
    ensures
        !strip_brackets(s).contains(c),
    decreases s.len(),
{
    if s.len() > 0 {
        assert forall|i: int| 0 <= i < s.drop_first().len() && s.drop_first()[i] == c implies s[i
            + 1] == c by {}
        if s[0] == '[' {
            lemma_skip_past_close_len(s.drop_first());
            if c != '[' {
                lemma_skip_past_close_avoids(s.drop_first(), c);
            }
            lemma_strip_brackets_avoids(skip_past_close(s.drop_first()), c);
        } else {
            lemma_strip_brackets_avoids(s.drop_first(), c);
            let r = seq![s[0]] + strip_brackets(s.drop_first());
            assert forall|i: int| 0 <= i < r.len() implies r[i] != c by {
                if i > 0 {
                    assert(r[i] == strip_brackets(s.drop_first())[i - 1]);
                }
            }
        }
    }
}

proof fn lemma_remove_all_avoids(s: Seq<char>, m: Seq<char>, c: char)
    requires
        !s.contains(c),
    ensures
        !remove_all(s, m).contains(c),
    decreases s.len(),
{
    if s.len() > 0 {
        if m.len() > 0 && m.len() <= s.len() && s.take(m.len() as int) == m {
            assert forall|i: int| 0 <= i < s.skip(m.len() as int).len() implies s.skip(
                m.len() as int,
            )[i] != c by {
                assert(s.skip(m.len() as int)[i] == s[i + m.len()]);
            }
            lemma_remove_all_avoids(s.skip(m.len() as int), m, c);
        } else {
            assert forall|i: int| 0 <= i < s.drop_first().len() implies s.drop_first()[i] != c by {
                assert(s.drop_first()[i] == s[i + 1]);
            }
            lemma_remove_all_avoids(s.drop_first(), m, c);
            let r = seq![s[0]] + remove_all(s.drop_first(), m);
            assert forall|i: int| 0 <= i < r.len() implies r[i] != c by {
                if i > 0 {
                    assert(r[i] == remove_all(s.drop_first(), m)[i - 1]);
                }
            }
        }
    }
}

proof fn lemma_remove_markers_avoids(s: Seq<char>, ms: Seq<Seq<char>>, k: nat, c: char)
    requires
        !s.contains(c),
    ensures
        !remove_markers(s, ms, k).contains(c),
    decreases k,
{
    if k > 0 && k <= ms.len() {
        lemma_remove_markers_avoids(s, ms, (k - 1) as nat, c);
        lemma_remove_all_avoids(remove_markers(s, ms, (k - 1) as nat), ms[k - 1], c);
    }
}

/// Every word is non-empty, holds no white space, and holds no character
/// that `s` does not hold.
proof fn lemma_words_shape(s: Seq<char>)
    ensures
        forall|k: int, i: int|
            0 <= k < words(s).len() && 0 <= i < words(s)[k].len() ==> !is_ws(
                #[trigger] words(s)[k][i],
            ) && s.contains(words(s)[k][i]),
    decreases s.len(),
{
    lemma_words_each_nonempty(s);
    if s.len() > 0 {
        let p = s.drop_last();
        lemma_words_shape(p);
        let w = words(p);
        let c = s.last();
        assert(s[s.len() - 1] == c);
        assert forall|x: char| p.contains(x) implies s.contains(x) by {
            let j = choose|j: int| 0 <= j < p.len() && p[j] == x;
            assert(s[j] == x);
        }
        if !is_ws(c) {
            if s.len() >= 2 && !is_ws(s[s.len() - 2]) && w.len() > 0 {
                let w2 = w.drop_last().push(w.last().push(c));
                assert forall|k: int, i: int| 0 <= k < w2.len() && 0 <= i < w2[k].len() implies !is_ws(
                    #[trigger] w2[k][i],
                ) && s.contains(w2[k][i]) by {
                    if k < w.len() - 1 {
                        assert(w2[k] == w[k]);
                    } else if i < w.last().len() {
                        assert(w2[k][i] == w[w.len() - 1][i]);
                    } else {
                        assert(w2[k][i] == c);
                    }
                }
            } else {
                let w2 = w.push(seq![c]);
                assert forall|k: int, i: int| 0 <= k < w2.len() && 0 <= i < w2[k].len() implies !is_ws(
                    #[trigger] w2[k][i],
                ) && s.contains(w2[k][i]) by {
                    if k < w.len() {
                        assert(w2[k] == w[k]);
                    }
                }
            }
        }
    }
}

proof fn lemma_join_shape(ws: Seq<Seq<char>>, c: char)
    requires
        forall|k: int| 0 <= k < ws.len() ==> #[trigger] ws[k].len() > 0,
        forall|k: int, i: int|
            0 <= k < ws.len() && 0 <= i < ws[k].len() ==> !is_ws(#[trigger] ws[k][i]) && ws[k][i]
                != c,
        c != ' ',
    ensures
        well_spaced(join_space(ws)),
        !join_space(ws).contains(c),
    decreases ws.len(),
{
    if ws.len() == 1 {
        let t = join_space(ws);
        assert(t == ws[0]);
        assert forall|i: int| 0 <= i < t.len() implies !is_ws(t[i]) && t[i] != c by {
            assert(t[i] == ws[0][i]);
        }
    } else if ws.len() > 1 {
        let a = ws.drop_last();
        assert forall|k: int| 0 <= k < a.len() implies #[trigger] a[k].len() > 0 by {
            assert(a[k] == ws[k]);
        }
        assert forall|k: int, i: int| 0 <= k < a.len() && 0 <= i < a[k].len() implies !is_ws(
            #[trigger] a[k][i],
        ) && a[k][i] != c by {
            assert(a[k] == ws[k]);
        }
        lemma_join_shape(a, c);
        lemma_join_nonempty(a);
        let j = join_space(a);
        let l = ws.last();
        assert(ws[ws.len() - 1] == l);
        assert forall|i: int| 0 <= i < l.len() implies !is_ws(#[trigger] l[i]) && l[i] != c by {
            assert(l[i] == ws[ws.len() - 1][i]);
        }
        let t = join_space(ws);
        assert(t == j + seq![' '] + l);
        assert(t.len() == j.len() + 1 + l.len());
        assert forall|i: int| 0 <= i < t.len() implies (is_ws(#[trigger] t[i]) ==> t[i] == ' ')
            && t[i] != c by {
            if i < j.len() {
                assert(t[i] == j[i]);
                if is_ws(j[i]) {
                    assert(j[i] == ' ');
                    assert(i != 0 && i != j.len() - 1);
                }
            } else if i == j.len() {
                assert(t[i] == ' ');
            } else {
                assert(t[i] == l[i - j.len() - 1]);
            }
        }
        assert(t[0] == j[0]);
        assert(t.last() == l.last());
        assert forall|i: int| 0 <= i < t.len() - 1 implies !(is_ws(#[trigger] t[i]) && is_ws(
            t[i + 1],
        )) by {
            if i < j.len() - 1 {
                assert(t[i] == j[i] && t[i + 1] == j[i + 1]);
            } else if i == j.len() - 1 {
                assert(t[i] == j.last());
            } else if i == j.len() {
                assert(t[i + 1] == l[0]);
            } else {
                assert(t[i] == l[i - j.len() - 1]);
            }
        }
    }
}

/// What comes out of the cleaner never holds a `'['`, and its white space
/// is single `' '` characters between words: none at either end and never
/// two in a row.
pub proof fn law_cleaned_is_well_formed(s: Seq<char>)
    ensures
        !cleaned(s).contains('['),
        well_spaced(cleaned(s)),
{
    let a = strip_brackets(s);
    lemma_strip_brackets_avoids(s, '[');
    let b = remove_markers(a, noise_markers(), 7);
    lemma_remove_markers_avoids(a, noise_markers(), 7, '[');
    lemma_words_shape(b);
    lemma_words_each_nonempty(b);
    let ws = words(b);
    assert forall|k: int, i: int| 0 <= k < ws.len() && 0 <= i < ws[k].len() implies !is_ws(
        #[trigger] ws[k][i],
    ) && ws[k][i] != '[' by {
        assert(b.contains(ws[k][i]));
    }
    lemma_join_shape(ws, '[');
}

proof fn lemma_strip_brackets_id(s: Seq<char>)
    requires
        !s.contains('['),
    ensures
        strip_brackets(s) == s,
    decreases s.len(),
{
    if s.len() > 0 {
        assert(s[0] != '[');
        let d = s.drop_first();
        assert(!d.contains('[')) by {
            if d.contains('[') {
                let k = choose|k: int| 0 <= k < d.len() && d[k] == '[';
                assert(s[k + 1] == '[');
            }
        }
        lemma_strip_brackets_id(d);
        assert(seq![s[0]] + d =~= s);
    }
}

proof fn lemma_remove_all_id(s: Seq<char>, m: Seq<char>)
    requires
        m.len() > 0,
        m[0] == '(',
        !s.contains('('),
    ensures
        remove_all(s, m) == s,
    decreases s.len(),
{
    if s.len() > 0 {
        if m.len() <= s.len() && s.take(m.len() as int) == m {
            assert(s.take(m.len() as int)[0] == s[0]);
            assert(s.contains(s[0]));
        }
        let d = s.drop_first();
        assert(!d.contains('(')) by {
            if d.contains('(') {
                let k = choose|k: int| 0 <= k < d.len() && d[k] == '(';
                assert(s[k + 1] == '(');
            }
        }
        lemma_remove_all_id(d, m);
        assert(seq![s[0]] + d =~= s);
    }
}

proof fn lemma_markers_open_with_paren()
    ensures
        forall|i: int| 0 <= i < noise_markers().len() ==> (#[trigger] noise_markers()[i]).len() > 0
            && noise_markers()[i][0] == '(',
{
    reveal_strlit("(silence)");
    reveal_strlit("(Silence)");
    reveal_strlit("(SILENCE)");
    reveal_strlit("(inaudible)");
    reveal_strlit("(Inaudible)");
    reveal_strlit("(no speech)");
    reveal_strlit("(No speech)");
}

proof fn lemma_remove_markers_id(s: Seq<char>, k: nat)
    requires
        !s.contains('('),
    ensures
        remove_markers(s, noise_markers(), k) == s,
    decreases k,
{
    if k > 0 && k <= noise_markers().len() {
        lemma_remove_markers_id(s, (k - 1) as nat);
        lemma_markers_open_with_paren();
        assert(noise_markers()[k - 1][0] == '(');
        lemma_remove_all_id(s, noise_markers()[k - 1]);
    }
}

/// Well-spaced text is its own collapse.
proof fn lemma_collapse_well_spaced(t: Seq<char>)
    requires
        well_spaced(t),
    ensures
        collapse_ws(t) == t,
    decreases t.len(),
{
    if t.len() == 0 {
    } else if t.len() == 1 {
        assert(t.drop_last() =~= Seq::<char>::empty());
        assert(words(t.drop_last()) =~= Seq::<Seq<char>>::empty());
        assert(!is_ws(t.last()));
        assert(words(t) == Seq::<Seq<char>>::empty().push(seq![t.last()]));
        assert(words(t).len() == 1);
        assert(words(t)[0] == seq![t.last()]);
        assert(seq![t.last()] =~= t);
    } else {
        let n = t.len();
        let p = t.drop_last();
        let c = t.last();
        assert(!is_ws(c));
        assert(!is_ws(t[0]));
        if !is_ws(t[n - 2]) {
            assert(well_spaced(p)) by {
                assert forall|i: int| 0 <= i < p.len() && is_ws(#[trigger] p[i]) implies p[i] == ' ' by {
                    assert(p[i] == t[i]);
                }
                assert(p[0] == t[0]);
                assert(p.last() == t[n - 2]);
                assert forall|i: int| 0 <= i < p.len() - 1 implies !(is_ws(#[trigger] p[i]) && is_ws(
                    p[i + 1],
                )) by {
                    assert(p[i] == t[i] && p[i + 1] == t[i + 1]);
                }
            }
            lemma_collapse_well_spaced(p);
            lemma_words_nonempty_when_in_word(p);
            lemma_join_extend_last(words(p), c);
            assert(words(t) == words(p).drop_last().push(words(p).last().push(c)));
            assert(p.push(c) =~= t);
        } else {
            let q = p.drop_last();
            assert(t[n - 2] == ' ');
            assert(n >= 3);
            assert(!is_ws(t[n - 3])) by {
                assert(!(is_ws(t[n - 3]) && is_ws(t[n - 2])));
            }
            assert(p.last() == t[n - 2]);
            assert(words(p) == words(q));
            assert(well_spaced(q)) by {
                assert forall|i: int| 0 <= i < q.len() && is_ws(#[trigger] q[i]) implies q[i] == ' ' by {
                    assert(q[i] == t[i]);
                }
                assert(q[0] == t[0]);
                assert(q.last() == t[n - 3]);
                assert forall|i: int| 0 <= i < q.len() - 1 implies !(is_ws(#[trigger] q[i]) && is_ws(
                    q[i + 1],
                )) by {
                    assert(q[i] == t[i] && q[i + 1] == t[i + 1]);
                }
            }
            lemma_collapse_well_spaced(q);
            lemma_words_nonempty_when_in_word(q);
            assert(t[n - 2] == p[p.len() - 1]);
            assert(words(t) == words(p).push(seq![c]));
            lemma_join_push(words(q), seq![c]);
            assert(q + seq![' '] + seq![c] =~= t);
        }
    }
}

/// Cleaned text without parentheses: it holds neither `'['` nor `'('`.
proof fn lemma_cleaned_avoids_paren(s: Seq<char>)
    requires
        !s.contains('('),
    ensures
        !cleaned(s).contains('('),
{
    let a = strip_brackets(s);
    lemma_strip_brackets_avoids(s, '(');
    let b = remove_markers(a, noise_markers(), 7);
    lemma_remove_markers_avoids(a, noise_markers(), 7, '(');
    lemma_words_shape(b);
    lemma_words_each_nonempty(b);
    let ws = words(b);
    assert forall|k: int, i: int| 0 <= k < ws.len() && 0 <= i < ws[k].len() implies !is_ws(
        #[trigger] ws[k][i],
    ) && ws[k][i] != '(' by {
        assert(b.contains(ws[k][i]));
    }
    lemma_join_shape(ws, '(');
}

/// For text without parentheses, cleaning a second time changes nothing.
/// (With parentheses it can: `"(sil(silence)ence)"` cleans to
/// `"(silence)"`, which cleans to `""`.)
pub proof fn law_cleaning_twice_is_cleaning_once(s: Seq<char>)
    requires
        !s.contains('('),
    ensures
        cleaned(cleaned(s)) == cleaned(s),
{
    let t = cleaned(s);
    law_cleaned_is_well_formed(s);
    lemma_cleaned_avoids_paren(s);
    lemma_strip_brackets_id(t);
    lemma_remove_markers_id(t, 7);
    lemma_collapse_well_spaced(t);
}

proof fn lemma_marker_facts()
    ensures
        noise_markers().len() == 7,
        forall|i: int|
            0 <= i < 7 ==> (#[trigger] noise_markers()[i]).len() >= 3 && noise_markers()[i][0] == '('
                && !noise_markers()[i].contains('[') && !noise_markers()[i].drop_first().contains('('),
        forall|i: int, j: int|
            0 <= i < 7 && 0 <= j < 7 && i != j ==> (#[trigger] noise_markers()[i])[1]
                != (#[trigger] noise_markers()[j])[1] || noise_markers()[i][2] != noise_markers()[j][2],
{
    reveal_strlit("(silence)");
    reveal_strlit("(Silence)");
    reveal_strlit("(SILENCE)");
    reveal_strlit("(inaudible)");
    reveal_strlit("(Inaudible)");
    reveal_strlit("(no speech)");
    reveal_strlit("(No speech)");
    let ms = noise_markers();
    assert forall|i: int| 0 <= i < 7 implies (#[trigger] ms[i]).len() >= 3 && ms[i][0] == '('
        && !ms[i].contains('[') && !ms[i].drop_first().contains('(') by {
        let m = ms[i];
        assert forall|t: int| 0 <= t < m.len() implies m[t] != '[' && (t > 0 ==> m[t] != '(') by {
            if i == 0 {
                assert(m == "(silence)"@);
            } else if i == 1 {
                assert(m == "(Silence)"@);
            } else if i == 2 {
                assert(m == "(SILENCE)"@);
            } else if i == 3 {
                assert(m == "(inaudible)"@);
            } else if i == 4 {
                assert(m == "(Inaudible)"@);
            } else if i == 5 {
                assert(m == "(no speech)"@);
            } else {
                assert(m == "(No speech)"@);
            }
        }
        assert forall|t: int| 0 <= t < m.drop_first().len() implies m.drop_first()[t] != '(' by {
            assert(m.drop_first()[t] == m[t + 1]);
        }
    }
}

proof fn lemma_no_char_concat(a: Seq<char>, b: Seq<char>, c: char)
    requires
        !a.contains(c),
        !b.contains(c),
    ensures
        !(a + b).contains(c),
{
    assert forall|t: int| 0 <= t < (a + b).len() implies (a + b)[t] != c by {
        if t < a.len() {
            assert((a + b)[t] == a[t]);
        } else {
            assert((a + b)[t] == b[t - a.len()]);
        }
    }
}

proof fn lemma_remove_all_past_prefix(x: Seq<char>, y: Seq<char>, m: Seq<char>)
    requires
        m.len() > 0,
        m[0] == '(',
        !x.contains('('),
    ensures
        remove_all(x + y, m) == x + remove_all(y, m),
    decreases x.len(),
{
    if x.len() == 0 {
        assert(x + y =~= y);
        assert(x + remove_all(y, m) =~= remove_all(y, m));
    } else {
        let s = x + y;
        assert(s[0] == x[0]);
        assert(x.contains(x[0]));
        if m.len() <= s.len() && s.take(m.len() as int) == m {
            assert(s.take(m.len() as int)[0] == s[0]);
        }
        let d = x.drop_first();
        assert(!d.contains('(')) by {
            if d.contains('(') {
                let k = choose|k: int| 0 <= k < d.len() && d[k] == '(';
                assert(x[k + 1] == '(');
            }
        }
        assert(s.drop_first() =~= d + y);
        lemma_remove_all_past_prefix(d, y, m);
        assert(seq![x[0]] + (d + remove_all(y, m)) =~= x + remove_all(y, m));
    }
}

proof fn lemma_remove_all_at_front(m: Seq<char>, y: Seq<char>)
    requires
        m.len() > 0,
    ensures
        remove_all(m + y, m) == remove_all(y, m),
{
    let s = m + y;
    assert(s.take(m.len() as int) =~= m);
    assert(s.skip(m.len() as int) =~= y);
}

proof fn lemma_remove_all_other_marker(m: Seq<char>, mp: Seq<char>, y: Seq<char>)
    requires
        m.len() >= 3,
        mp.len() >= 3,
        mp[0] == '(',
        m[1] != mp[1] || m[2] != mp[2],
        !m.drop_first().contains('('),
        !y.contains('('),
    ensures
        remove_all(m + y, mp) == m + y,
{
    let s = m + y;
    if mp.len() <= s.len() && s.take(mp.len() as int) == mp {
        assert(s.take(mp.len() as int)[1] == m[1]);
        assert(s.take(mp.len() as int)[2] == m[2]);
    }
    let d = m.drop_first();
    assert(s.drop_first() =~= d + y);
    lemma_no_char_concat(d, y, '(');
    lemma_remove_all_id(d + y, mp);
    assert(seq![s[0]] + (d + y) =~= s);
}

proof fn lemma_remove_markers_one(x: Seq<char>, y: Seq<char>, i: int, k: nat)
    requires
        0 <= i < 7,
        k <= 7,
        !x.contains('('),
        !y.contains('('),
    ensures
        remove_markers(x + noise_markers()[i] + y, noise_markers(), k) == (if k <= i {
            x + noise_markers()[i] + y
        } else {
            x + y
        }),
    decreases k,
{
    lemma_marker_facts();
    let ms = noise_markers();
    let m = ms[i];
    if k > 0 {
        lemma_remove_markers_one(x, y, i, (k - 1) as nat);
        let mk = ms[k - 1];
        assert(x + m + y =~= x + (m + y));
        if k - 1 < i {
            lemma_remove_all_past_prefix(x, m + y, mk);
            lemma_remove_all_other_marker(m, mk, y);
        } else if k - 1 == i {
            lemma_remove_all_past_prefix(x, m + y, m);
            lemma_remove_all_at_front(m, y);
            lemma_remove_all_id(y, m);
        } else {
            lemma_no_char_concat(x, y, '(');
            lemma_remove_all_id(x + y, mk);
        }
    }
}

proof fn lemma_marker_removed(x: Seq<char>, y: Seq<char>, i: int)
    requires
        0 <= i < 7,
        !x.contains('('),
        !y.contains('('),
        !x.contains('['),
        !y.contains('['),
    ensures
        cleaned(x + noise_markers()[i] + y) == cleaned(x + y),
{
    lemma_marker_facts();
    let m = noise_markers()[i];
    lemma_no_char_concat(x, m, '[');
    lemma_no_char_concat(x + m, y, '[');
    lemma_strip_brackets_id(x + m + y);
    lemma_no_char_concat(x, y, '[');
    lemma_strip_brackets_id(x + y);
    lemma_remove_markers_one(x, y, i, 7);
    lemma_no_char_concat(x, y, '(');
    lemma_remove_markers_id(x + y, 7);
}

/// Each of Whisper's seven noise markers is removed: wherever one stands in
/// text that holds no other parenthesis or bracket, the cleaned text is
/// that of the text without it (so `"a (inaudible) b"` cleans to `"a b"`).
pub proof fn law_noise_markers_are_removed(x: Seq<char>, y: Seq<char>)
    requires
        !x.contains('('),
        !y.contains('('),
        !x.contains('['),
        !y.contains('['),
    ensures
        cleaned(x + "(silence)"@ + y) == cleaned(x + y),
        cleaned(x + "(Silence)"@ + y) == cleaned(x + y),
        cleaned(x + "(SILENCE)"@ + y) == cleaned(x + y),
        cleaned(x + "(inaudible)"@ + y) == cleaned(x + y),
        cleaned(x + "(Inaudible)"@ + y) == cleaned(x + y),
        cleaned(x + "(no speech)"@ + y) == cleaned(x + y),
        cleaned(x + "(No speech)"@ + y) == cleaned(x + y),
{
    lemma_marker_removed(x, y, 0);
    lemma_marker_removed(x, y, 1);
    lemma_marker_removed(x, y, 2);
    lemma_marker_removed(x, y, 3);
    lemma_marker_removed(x, y, 4);
    lemma_marker_removed(x, y, 5);
    lemma_marker_removed(x, y, 6);
}

} // verus!
