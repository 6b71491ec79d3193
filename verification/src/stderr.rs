//! Cutting ffmpeg's stderr down to the part worth showing: ffmpeg prints a
//! long banner first and the actual error last.

use vstd::prelude::*;
use crate::text::{
    chars_of, chars_are_blank, copy_chars, free_of, is_blank, is_whitespace, join_from, join_with, lemma_split_join,
    lemma_split_nonempty, lemma_split_pieces_free, lines_of, split_lines, split_on, string_from_chars,
    strip_trailing_cr, views,
};

verus! {

/// `\r` replaced by `\n`: ffmpeg rewrites its progress line with carriage
/// returns, and each such rewrite counts as a line of its own.
pub open spec fn cr_to_lf(s: Seq<char>) -> Seq<char> {
    s.map_values(|c: char| if c == '\r' { '\n' } else { c })
}

/// The lines that are not blank, in order.
pub open spec fn non_blank(ls: Seq<Seq<char>>) -> Seq<Seq<char>>
    decreases ls.len(),
{
    if ls.len() == 0 {
        Seq::<Seq<char>>::empty()
    } else {
        let r = non_blank(ls.drop_last());
        if is_blank(ls.last()) {
            r
        } else {
            r.push(ls.last())
        }
    }
}

/// The last `n` elements (all of them when there are fewer).
pub open spec fn last_n<A>(ls: Seq<A>, n: nat) -> Seq<A> {
    if ls.len() <= n {
        ls
    } else {
        ls.subrange(ls.len() - n, ls.len() as int)
    }
}

/// The lines of the tail: the last `n` non-blank lines of the text.
pub open spec fn tail_lines(s: Seq<char>, n: nat) -> Seq<Seq<char>> {
    last_n(non_blank(lines_of(cr_to_lf(s))), n)
}

/// What `tail_stderr` returns: those lines joined with `\n`.
pub open spec fn tail_spec(s: Seq<char>, n: nat) -> Seq<char> {
    join_with(tail_lines(s, n), '\n')
}

/// Tail ffmpeg's stderr to the last `max_lines` non-empty lines.
/// ffmpeg's verbose banner is at the start; the actual error is at the end,
/// so the tail is what's worth surfacing to the user.
pub fn tail_stderr(stderr: &str, max_lines: usize) -> (r: String)
    ensures
        r@ == tail_spec(stderr@, max_lines as nat),
{
    let cs = chars_of(stderr);
    let mut cleaned: Vec<char> = Vec::new();
    let mut i: usize = 0;
    while i < cs.len()
        invariant
            i <= cs.len(),
            cleaned@ == cr_to_lf(cs@.take(i as int)),
        decreases cs.len() - i,
    {
        let c = cs[i];
        if c == '\r' {
            cleaned.push('\n');
        } else {
            cleaned.push(c);
        }
        proof {
            assert(cr_to_lf(cs@.take(i + 1)) =~= cr_to_lf(cs@.take(i as int)).push(
                if c == '\r' { '\n' } else { c },
            ));
        }
        i = i + 1;
    }
    assert(cs@.take(cs.len() as int) =~= cs@);
    let ls = split_lines(&cleaned);
    let mut kept: Vec<Vec<char>> = Vec::new();
    let mut j: usize = 0;
    assert(views(ls@).take(0) =~= Seq::<Seq<char>>::empty());
    assert(views(kept@) =~= Seq::<Seq<char>>::empty());
    while j < ls.len()
        invariant
            j <= ls.len(),
            views(kept@) == non_blank(views(ls@).take(j as int)),
        decreases ls.len() - j,
    {
        let ghost before = views(kept@);
        proof {
            assert(views(ls@).take(j + 1).drop_last() =~= views(ls@).take(j as int));
            assert(views(ls@).take(j + 1).last() == ls@[j as int]@);
        }
        if !chars_are_blank(&ls[j]) {
            kept.push(copy_chars(&ls[j]));
            assert(views(kept@) =~= before.push(ls@[j as int]@));
        }
        j = j + 1;
    }
    assert(views(ls@).take(ls.len() as int) =~= views(ls@));
    let start: usize = if kept.len() > max_lines {
        kept.len() - max_lines
    } else {
        0
    };
    let joined = join_from(&kept, start, '\n');
    proof {
        let all = views(kept@);
        if all.len() <= max_lines {
            assert(all.subrange(0, all.len() as int) =~= all);
        }
    }
    string_from_chars(joined.as_slice())
}

// ---------------------------------------------------------------------------
// Laws
// ---------------------------------------------------------------------------

/// A line as the tail holds it: not empty, no line break, no carriage
/// return.
pub open spec fn clean_line(l: Seq<char>) -> bool {
    l.len() > 0 && free_of(l, '\n') && free_of(l, '\r')
}

proof fn lemma_lines_clean(s: Seq<char>)
    requires
        free_of(s, '\r'),
    ensures
        forall|i: int|
            0 <= i < lines_of(s).len() ==> free_of(#[trigger] lines_of(s)[i], '\n') && free_of(
                lines_of(s)[i],
                '\r',
            ),
{
    lemma_split_nonempty(s, '\n');
    lemma_split_pieces_free(s, '\n', '\n');
    lemma_split_pieces_free(s, '\n', '\r');
    let p = split_on(s, '\n');
    let ls = lines_of(s);
    assert forall|i: int| 0 <= i < ls.len() implies free_of(#[trigger] ls[i], '\n') && free_of(
        ls[i],
        '\r',
    ) by {
        assert(free_of(p[i], '\n') && free_of(p[i], '\r'));
        if i < p.len() - 1 {
            let q = p[i];
            if q.len() > 0 {
                assert(q.last() == q[q.len() - 1]);
            }
            assert(ls[i] == strip_trailing_cr(p[i]));
            assert(strip_trailing_cr(q) == q);
        } else {
            assert(ls[i] == p.last());
        }
    }
}

proof fn lemma_non_blank_clean(ls: Seq<Seq<char>>)
    requires
        forall|i: int| 0 <= i < ls.len() ==> free_of(#[trigger] ls[i], '\n') && free_of(
            ls[i],
            '\r',
        ),
    ensures
        forall|i: int| 0 <= i < non_blank(ls).len() ==> clean_line(#[trigger] non_blank(ls)[i]),
    decreases ls.len(),
{
    if ls.len() > 0 {
        let init = ls.drop_last();
        assert forall|i: int| 0 <= i < init.len() implies free_of(#[trigger] init[i], '\n')
            && free_of(init[i], '\r') by {
            assert(init[i] == ls[i]);
        }
        lemma_non_blank_clean(init);
        let l = ls.last();
        assert(free_of(l, '\n') && free_of(l, '\r')) by {
            assert(l == ls[ls.len() - 1]);
        }
        let r = non_blank(init);
        assert forall|i: int| 0 <= i < non_blank(ls).len() implies clean_line(
            #[trigger] non_blank(ls)[i],
        ) by {
            if i < r.len() {
                assert(non_blank(ls)[i] == r[i]);
            } else {
                assert(non_blank(ls)[i] == l);
                assert(!is_blank(l));
            }
        }
    }
}

/// Lines that are clean come back unchanged from joining them with `\n`
/// and reading the result with `str::lines`.
pub proof fn lemma_lines_of_join(ls: Seq<Seq<char>>)
    requires
        forall|i: int| 0 <= i < ls.len() ==> clean_line(#[trigger] ls[i]),
    ensures
        lines_of(join_with(ls, '\n')) == ls,
{
    if ls.len() == 0 {
        assert(split_on(Seq::<char>::empty(), '\n') =~= seq![Seq::<char>::empty()]);
        assert(lines_of(join_with(ls, '\n')) =~= ls);
    } else {
        assert forall|i: int| 0 <= i < ls.len() implies free_of(#[trigger] ls[i], '\n') by {
            assert(clean_line(ls[i]));
        }
        lemma_split_join(ls, '\n');
        let p = split_on(join_with(ls, '\n'), '\n');
        assert(p == ls);
        assert(clean_line(ls[ls.len() - 1]));
        let body = p.drop_last().map_values(|l: Seq<char>| strip_trailing_cr(l));
        assert forall|i: int| 0 <= i < body.len() implies body[i] == ls[i] by {
            assert(clean_line(ls[i]));
            let q = ls[i];
            assert(q.last() == q[q.len() - 1]);
        }
        assert(body.push(p.last()) =~= ls);
    }
}

/// The tail has at most `n` lines; reading it back line by line gives the
/// last `n` non-blank lines of the text, each free of `\r`.
pub proof fn law_tail_reads_back(s: Seq<char>, n: nat)
    ensures
        lines_of(tail_spec(s, n)) == tail_lines(s, n),
        tail_lines(s, n).len() <= n,
        forall|i: int|
            0 <= i < tail_lines(s, n).len() ==> !is_blank(#[trigger] tail_lines(s, n)[i])
                && free_of(tail_lines(s, n)[i], '\r'),
{
    let c = cr_to_lf(s);
    assert(free_of(c, '\r'));
    lemma_lines_clean(c);
    lemma_non_blank_clean(lines_of(c));
    lemma_non_blank_not_blank(lines_of(c));
    let nb = non_blank(lines_of(c));
    let t = tail_lines(s, n);
    assert forall|i: int| 0 <= i < t.len() implies clean_line(#[trigger] t[i]) && !is_blank(
        t[i],
    ) by {
        if nb.len() > n {
            assert(t[i] == nb[i + nb.len() - n]);
        }
    }
    lemma_lines_of_join(t);
}

proof fn lemma_non_blank_not_blank(ls: Seq<Seq<char>>)
    ensures
        forall|i: int| 0 <= i < non_blank(ls).len() ==> !is_blank(#[trigger] non_blank(ls)[i]),
    decreases ls.len(),
{
    if ls.len() > 0 {
        lemma_non_blank_not_blank(ls.drop_last());
        let r = non_blank(ls.drop_last());
        assert forall|i: int| 0 <= i < non_blank(ls).len() implies !is_blank(
            #[trigger] non_blank(ls)[i],
        ) by {
            if i < r.len() {
                assert(non_blank(ls)[i] == r[i]);
            }
        }
    }
}

/// When there are no more non-blank lines than asked for, all of them are
/// kept.
pub proof fn law_tail_keeps_short_input(s: Seq<char>, n: nat)
    requires
        non_blank(lines_of(cr_to_lf(s))).len() <= n,
    ensures
        tail_lines(s, n) == non_blank(lines_of(cr_to_lf(s))),
{
}

} // verus!

verus! {

proof fn lemma_non_blank_of_non_blank(ls: Seq<Seq<char>>)
    requires
        forall|i: int| 0 <= i < ls.len() ==> !is_blank(#[trigger] ls[i]),
    ensures
        non_blank(ls) == ls,
    decreases ls.len(),
{
    if ls.len() > 0 {
        let init = ls.drop_last();
        assert forall|i: int| 0 <= i < init.len() implies !is_blank(#[trigger] init[i]) by {
            assert(init[i] == ls[i]);
        }
        lemma_non_blank_of_non_blank(init);
        assert(!is_blank(ls[ls.len() - 1]));
        assert(init.push(ls.last()) =~= ls);
    }
}

proof fn lemma_join_free_of(ls: Seq<Seq<char>>, sep: char, x: char)
    requires
        sep != x,
        forall|i: int| 0 <= i < ls.len() ==> free_of(#[trigger] ls[i], x),
    ensures
        free_of(join_with(ls, sep), x),
    decreases ls.len(),
{
    if ls.len() == 1 {
        assert(free_of(ls[0], x));
    } else if ls.len() > 1 {
        let init = ls.drop_last();
        assert forall|i: int| 0 <= i < init.len() implies free_of(#[trigger] init[i], x) by {
            assert(init[i] == ls[i]);
        }
        lemma_join_free_of(init, sep, x);
        assert(free_of(ls[ls.len() - 1], x));
        let j = join_with(init, sep).push(sep);
        let r = join_with(ls, sep);
        assert(r == j + ls.last());
        assert forall|k: int| 0 <= k < r.len() implies r[k] != x by {
            if k < join_with(init, sep).len() {
                assert(r[k] == join_with(init, sep)[k]);
            } else if k == join_with(init, sep).len() {
                assert(r[k] == sep);
            } else {
                assert(r[k] == ls.last()[k - j.len()]);
            }
        }
    }
}

proof fn lemma_cr_to_lf_free(s: Seq<char>)
    requires
        free_of(s, '\r'),
    ensures
        cr_to_lf(s) == s,
{
    assert(cr_to_lf(s) =~= s);
}

/// Tailing the tail: cutting to `m` lines and then to `n <= m` lines is
/// cutting to `n` lines at once.
pub proof fn law_tail_of_tail(s: Seq<char>, m: nat, n: nat)
    requires
        n <= m,
    ensures
        tail_spec(tail_spec(s, m), n) == tail_spec(s, n),
{
    law_tail_reads_back(s, m);
    let l = tail_lines(s, m);
    let t = tail_spec(s, m);
    assert forall|i: int| 0 <= i < l.len() implies free_of(#[trigger] l[i], '\r') by {}
    lemma_join_free_of(l, '\n', '\r');
    lemma_cr_to_lf_free(t);
    lemma_non_blank_of_non_blank(l);
    let nb = non_blank(lines_of(cr_to_lf(s)));
    assert(tail_lines(t, n) == last_n(l, n));
    if nb.len() > m {
        assert(last_n(l, n) =~= last_n(nb, n));
    } else {
        assert(l == nb);
    }
}

/// The prefix of the join of `ls` that stands before the join of
/// `ls[k..]`.
pub proof fn lemma_join_suffix(ls: Seq<Seq<char>>, sep: char, k: int) -> (p: Seq<char>)
    requires
        0 <= k <= ls.len(),
    ensures
        join_with(ls, sep) == p + join_with(ls.subrange(k, ls.len() as int), sep),
    decreases ls.len(),
{
    let rest = ls.subrange(k, ls.len() as int);
    if k == ls.len() {
        assert(rest =~= Seq::<Seq<char>>::empty());
        let p = join_with(ls, sep);
        assert(p + join_with(rest, sep) =~= p);
        p
    } else if k == 0 {
        assert(rest =~= ls);
        let p = Seq::<char>::empty();
        assert(p + join_with(ls, sep) =~= join_with(ls, sep));
        p
    } else {
        // 0 < k < ls.len(), so ls has at least two pieces.
        let init = ls.drop_last();
        let q = lemma_join_suffix(init, sep, k);
        let irest = init.subrange(k, init.len() as int);
        assert(rest.drop_last() =~= irest);
        assert(rest.last() == ls.last());
        if rest.len() == 1 {
            assert(irest.len() == 0);
            assert(join_with(irest, sep) =~= Seq::<char>::empty());
            assert(join_with(rest, sep) == rest[0]);
            let p = join_with(init, sep).push(sep);
            assert(join_with(ls, sep) =~= p + join_with(rest, sep));
            p
        } else {
            assert(join_with(rest, sep) == join_with(irest, sep).push(sep) + ls.last());
            assert(join_with(ls, sep) =~= q + join_with(rest, sep));
            q
        }
    }
}

/// The shorter tail ends the longer one: for `n <= m`, the tail to `n`
/// lines is a suffix of the tail to `m` lines.
pub proof fn law_tail_is_suffix(s: Seq<char>, m: nat, n: nat)
    requires
        n <= m,
    ensures
        exists|p: Seq<char>| tail_spec(s, m) == p + tail_spec(s, n),
{
    let l = tail_lines(s, m);
    let nb = non_blank(lines_of(cr_to_lf(s)));
    let k = if l.len() > n { l.len() - n } else { 0 };
    let p = lemma_join_suffix(l, '\n', k);
    let r = l.subrange(k, l.len() as int);
    if nb.len() > m {
        assert(r =~= last_n(nb, n));
    } else if nb.len() > n {
        assert(r =~= last_n(nb, n));
    } else {
        assert(r =~= nb);
    }
    assert(tail_spec(s, m) == p + tail_spec(s, n));
}

/// Once `m` reaches the number of non-blank lines, asking for more lines
/// changes nothing.
pub proof fn law_tail_saturates(s: Seq<char>, m: nat, m2: nat)
    requires
        non_blank(lines_of(cr_to_lf(s))).len() <= m,
        m <= m2,
    ensures
        tail_spec(s, m2) == tail_spec(s, m),
{
}

} // verus!

verus! {

/// Splitting at a separator placed between two texts splits each text.
pub proof fn lemma_split_concat(x: Seq<char>, y: Seq<char>, d: char)
    ensures
        split_on(x.push(d) + y, d) == split_on(x, d) + split_on(y, d),
    decreases y.len(),
{
    lemma_split_nonempty(x, d);
    lemma_split_nonempty(y, d);
    if y.len() == 0 {
        assert(x.push(d) + y =~= x.push(d));
        assert((x.push(d)).drop_last() =~= x);
        assert(split_on(y, d) =~= seq![Seq::<char>::empty()]);
        assert(split_on(x, d).push(Seq::<char>::empty()) =~= split_on(x, d) + split_on(y, d));
    } else {
        let y0 = y.drop_last();
        lemma_split_concat(x, y0, d);
        lemma_split_nonempty(y0, d);
        let whole = x.push(d) + y;
        assert(whole.drop_last() =~= x.push(d) + y0);
        assert(whole.last() == y.last());
        let a = split_on(x, d);
        let b0 = split_on(y0, d);
        if y.last() == d {
            assert((a + b0).push(Seq::<char>::empty()) =~= a + b0.push(Seq::<char>::empty()));
        } else {
            let r = a + b0;
            assert(r.update(r.len() - 1, r.last().push(y.last())) =~= a + b0.update(
                b0.len() - 1,
                b0.last().push(y.last()),
            ));
        }
    }
}

proof fn lemma_non_blank_concat(a: Seq<Seq<char>>, b: Seq<Seq<char>>)
    ensures
        non_blank(a + b) == non_blank(a) + non_blank(b),
    decreases b.len(),
{
    if b.len() == 0 {
        assert(a + b =~= a);
        assert(non_blank(a) + non_blank(b) =~= non_blank(a));
    } else {
        lemma_non_blank_concat(a, b.drop_last());
        assert((a + b).drop_last() =~= a + b.drop_last());
        assert((a + b).last() == b.last());
        if !is_blank(b.last()) {
            assert((non_blank(a) + non_blank(b.drop_last())).push(b.last()) =~= non_blank(a) + (
            non_blank(b.drop_last()).push(b.last())));
        }
    }
}

/// For text without carriage returns, the non-blank lines are the
/// non-blank pieces between line feeds.
proof fn lemma_non_blank_lines(t: Seq<char>)
    requires
        free_of(t, '\r'),
    ensures
        non_blank(lines_of(t)) == non_blank(split_on(t, '\n')),
{
    lemma_split_nonempty(t, '\n');
    lemma_split_pieces_free(t, '\n', '\r');
    let p = split_on(t, '\n');
    let body = p.drop_last().map_values(|l: Seq<char>| strip_trailing_cr(l));
    assert(body =~= p.drop_last()) by {
        assert forall|i: int| 0 <= i < body.len() implies body[i] == p.drop_last()[i] by {
            let q = p[i];
            assert(free_of(q, '\r'));
            if q.len() > 0 {
                assert(q.last() == q[q.len() - 1]);
            }
        }
    }
    assert(p =~= p.drop_last().push(p.last()));
    if p.last().len() == 0 {
        assert(is_blank(p.last()));
    }
}

proof fn lemma_cr_to_lf_concat(a: Seq<char>, b: Seq<char>)
    ensures
        cr_to_lf(a.push('\n') + b) == cr_to_lf(a).push('\n') + cr_to_lf(b),
{
    assert(cr_to_lf(a.push('\n') + b) =~= cr_to_lf(a).push('\n') + cr_to_lf(b));
}

proof fn lemma_cr_to_lf_no_cr(s: Seq<char>)
    ensures
        free_of(cr_to_lf(s), '\r'),
{
}

/// The non-blank lines of text read by `tail_stderr` (after `\r` becomes
/// `\n`).
pub open spec fn counted_lines(s: Seq<char>) -> Seq<Seq<char>> {
    non_blank(lines_of(cr_to_lf(s)))
}

/// Two texts joined by a line break have the non-blank lines of the first
/// followed by those of the second.
pub proof fn law_counted_lines_concat(a: Seq<char>, b: Seq<char>)
    ensures
        counted_lines(a.push('\n') + b) == counted_lines(a) + counted_lines(b),
{
    let ca = cr_to_lf(a);
    let cb = cr_to_lf(b);
    lemma_cr_to_lf_concat(a, b);
    lemma_cr_to_lf_no_cr(a.push('\n') + b);
    lemma_cr_to_lf_no_cr(a);
    lemma_cr_to_lf_no_cr(b);
    lemma_non_blank_lines(ca.push('\n') + cb);
    lemma_non_blank_lines(ca);
    lemma_non_blank_lines(cb);
    lemma_split_concat(ca, cb, '\n');
    lemma_non_blank_concat(split_on(ca, '\n'), split_on(cb, '\n'));
}

/// A leading banner never matters: when the text after a line break has
/// at least `n` non-blank lines, the tail is that text's tail.
pub proof fn law_banner_ignored(a: Seq<char>, b: Seq<char>, n: nat)
    requires
        counted_lines(b).len() >= n,
    ensures
        tail_spec(a.push('\n') + b, n) == tail_spec(b, n),
{
    law_counted_lines_concat(a, b);
    let x = counted_lines(a);
    let y = counted_lines(b);
    if (x + y).len() > n {
        assert(last_n(x + y, n) =~= last_n(y, n));
    }
}

proof fn lemma_split_blank(t: Seq<char>, d: char)
    requires
        is_blank(t),
    ensures
        forall|i: int| 0 <= i < split_on(t, d).len() ==> is_blank(#[trigger] split_on(t, d)[i]),
    decreases t.len(),
{
    lemma_split_nonempty(t, d);
    if t.len() > 0 {
        let u = t.drop_last();
        assert(is_blank(u)) by {
            assert forall|k: int| 0 <= k < u.len() implies is_whitespace(#[trigger] u[k]) by {
                assert(u[k] == t[k]);
            }
        }
        lemma_split_blank(u, d);
        lemma_split_nonempty(u, d);
        let r = split_on(u, d);
        if t.last() != d {
            let nl = r.last().push(t.last());
            assert(is_blank(r[r.len() - 1]));
            assert(is_whitespace(t[t.len() - 1]));
            assert forall|k: int| 0 <= k < nl.len() implies is_whitespace(#[trigger] nl[k]) by {
                if k < nl.len() - 1 {
                    assert(nl[k] == r.last()[k]);
                }
            }
        }
    }
}

proof fn lemma_non_blank_all_blank(ls: Seq<Seq<char>>)
    requires
        forall|i: int| 0 <= i < ls.len() ==> is_blank(#[trigger] ls[i]),
    ensures
        non_blank(ls) == Seq::<Seq<char>>::empty(),
    decreases ls.len(),
{
    if ls.len() > 0 {
        let init = ls.drop_last();
        assert forall|i: int| 0 <= i < init.len() implies is_blank(#[trigger] init[i]) by {
            assert(init[i] == ls[i]);
        }
        lemma_non_blank_all_blank(init);
        assert(is_blank(ls[ls.len() - 1]));
    }
}

/// Blank lines after a line break never count: appending a line break and
/// any whitespace (spaces, tabs, `\r`, `\n`, ...) leaves the tail as it
/// was.
pub proof fn law_trailing_blank_ignored(s: Seq<char>, w: Seq<char>, n: nat)
    requires
        is_blank(w),
    ensures
        tail_spec(s.push('\n') + w, n) == tail_spec(s, n),
{
    law_counted_lines_concat(s, w);
    let cw = cr_to_lf(w);
    assert(is_blank(cw)) by {
        assert forall|k: int| 0 <= k < cw.len() implies is_whitespace(#[trigger] cw[k]) by {
            assert(is_whitespace(w[k]));
        }
    }
    lemma_cr_to_lf_no_cr(w);
    lemma_non_blank_lines(cw);
    lemma_split_blank(cw, '\n');
    lemma_non_blank_all_blank(split_on(cw, '\n'));
    assert(counted_lines(s) + counted_lines(w) =~= counted_lines(s));
}

} // verus!
