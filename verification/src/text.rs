//! Character-level text tools with their specifications: splitting into
//! lines the way `str::lines` does, joining, searching, whitespace, and
//! decimal and hexadecimal numerals.

use vstd::prelude::*;
use vstd::string::StringExecFns;

verus! {

broadcast use vstd::string::group_string_axioms;

/// The characters of `s`, in order.
pub fn chars_of(s: &str) -> (v: Vec<char>)
    ensures
        v@ == s@,
{
    let mut v: Vec<char> = Vec::new();
    for c in it: s.chars()
        invariant
            v@ == it.seq().take(it.index() as int),
            it.seq() == s@,
    {
        v.push(c);
    }
    v
}

/// Collects characters into a `String` (std's `FromIterator<char>` for
/// `String`), which holds exactly those characters in order.
#[verifier::external_body]
pub(crate) fn string_from_chars(cs: &[char]) -> (s: String)
    ensures
        s@ == cs@,
{
    cs.iter().collect()
}

/// Owned copy of a string slice.
pub fn owned(s: &str) -> (r: String)
    ensures
        r@ == s@,
{
    s.to_owned()
}

// ---------------------------------------------------------------------------
// Whitespace
// ---------------------------------------------------------------------------

/// Unicode `White_Space`, the set that `char::is_whitespace` and `str::trim`
/// use.
pub open spec fn is_whitespace(c: char) -> bool {
    let u = c as u32;
    ||| 0x09 <= u <= 0x0D
    ||| u == 0x20
    ||| u == 0x85
    ||| u == 0xA0
    ||| u == 0x1680
    ||| 0x2000 <= u <= 0x200A
    ||| u == 0x2028
    ||| u == 0x2029
    ||| u == 0x202F
    ||| u == 0x205F
    ||| u == 0x3000
}

/// A line whose `trim()` is empty: every character is whitespace.
pub open spec fn is_blank(s: Seq<char>) -> bool {
    forall|i: int| 0 <= i < s.len() ==> is_whitespace(#[trigger] s[i])
}

pub fn char_is_whitespace(c: char) -> (b: bool)
    ensures
        b == is_whitespace(c),
{
    let u = c as u32;
    (0x09 <= u && u <= 0x0D) || u == 0x20 || u == 0x85 || u == 0xA0 || u == 0x1680 || (0x2000
        <= u && u <= 0x200A) || u == 0x2028 || u == 0x2029 || u == 0x202F || u == 0x205F || u
        == 0x3000
}

pub fn chars_are_blank(s: &Vec<char>) -> (b: bool)
    ensures
        b == is_blank(s@),
{
    let mut i: usize = 0;
    while i < s.len()
        invariant
            i <= s.len(),
            forall|j: int| 0 <= j < i ==> is_whitespace(#[trigger] s@[j]),
        decreases s.len() - i,
    {
        if !char_is_whitespace(s[i]) {
            return false;
        }
        i = i + 1;
    }
    true
}

/// What `str::trim` keeps: the characters between the first and the last
/// non-whitespace character.
pub open spec fn trim_start(s: Seq<char>) -> Seq<char>
    decreases s.len(),
{
    if s.len() > 0 && is_whitespace(s[0]) {
        trim_start(s.drop_first())
    } else {
        s
    }
}

pub open spec fn trim_end(s: Seq<char>) -> Seq<char>
    decreases s.len(),
{
    if s.len() > 0 && is_whitespace(s.last()) {
        trim_end(s.drop_last())
    } else {
        s
    }
}

pub open spec fn trim(s: Seq<char>) -> Seq<char> {
    trim_end(trim_start(s))
}

/// Index of the first character that is not whitespace (or the length).
pub open spec fn lead_ws(s: Seq<char>, i: int) -> bool {
    forall|j: int| 0 <= j < i ==> is_whitespace(#[trigger] s[j])
}

proof fn lemma_trim_start_skip(s: Seq<char>, i: int)
    requires
        0 <= i <= s.len(),
        lead_ws(s, i),
    ensures
        trim_start(s) == trim_start(s.subrange(i, s.len() as int)),
    decreases i,
{
    if i > 0 {
        assert(is_whitespace(s[0]));
        let t = s.drop_first();
        assert(lead_ws(t, i - 1)) by {
            assert forall|j: int| 0 <= j < i - 1 implies is_whitespace(#[trigger] t[j]) by {
                assert(t[j] == s[j + 1]);
            }
        }
        lemma_trim_start_skip(t, i - 1);
        assert(t.subrange(i - 1, t.len() as int) =~= s.subrange(i, s.len() as int));
    } else {
        assert(s.subrange(0, s.len() as int) =~= s);
    }
}

proof fn lemma_trim_end_cut(s: Seq<char>, k: int)
    requires
        0 <= k <= s.len(),
        forall|j: int| k <= j < s.len() ==> is_whitespace(#[trigger] s[j]),
    ensures
        trim_end(s) == trim_end(s.subrange(0, k)),
    decreases s.len() - k,
{
    if k < s.len() {
        assert(is_whitespace(s.last()));
        let t = s.drop_last();
        assert forall|j: int| k <= j < t.len() implies is_whitespace(#[trigger] t[j]) by {
            assert(t[j] == s[j]);
        }
        lemma_trim_end_cut(t, k);
        assert(t.subrange(0, k) =~= s.subrange(0, k));
    } else {
        assert(s.subrange(0, k) =~= s);
    }
}

/// `str::trim`.
pub fn trim_chars(s: &Vec<char>) -> (r: Vec<char>)
    ensures
        r@ == trim(s@),
{
    let n = s.len();
    let mut a: usize = 0;
    while a < n && char_is_whitespace(s[a])
        invariant
            a <= n,
            n == s.len(),
            lead_ws(s@, a as int),
        decreases n - a,
    {
        a = a + 1;
    }
    proof {
        lemma_trim_start_skip(s@, a as int);
    }
    let ghost mid = s@.subrange(a as int, n as int);
    assert(mid.len() == 0 || !is_whitespace(mid[0]));
    assert(trim_start(s@) == mid);
    let mut b: usize = n;
    while b > a && char_is_whitespace(s[b - 1])
        invariant
            a <= b <= n,
            n == s.len(),
            forall|j: int| b <= j < n ==> is_whitespace(#[trigger] s@[j]),
        decreases b,
    {
        b = b - 1;
    }
    proof {
        let k = (b - a) as int;
        assert forall|j: int| k <= j < mid.len() implies is_whitespace(#[trigger] mid[j]) by {
            assert(mid[j] == s@[j + a]);
        }
        lemma_trim_end_cut(mid, k);
        let cut = mid.subrange(0, k);
        assert(cut =~= s@.subrange(a as int, b as int));
        if cut.len() > 0 {
            assert(cut.last() == s@[b - 1]);
        }
    }
    let mut r: Vec<char> = Vec::new();
    let mut i: usize = a;
    while i < b
        invariant
            a <= i <= b <= n,
            n == s.len(),
            r@ == s@.subrange(a as int, i as int),
        decreases b - i,
    {
        r.push(s[i]);
        proof {
            assert(s@.subrange(a as int, i + 1) =~= s@.subrange(a as int, i as int).push(s@[i as int]));
        }
        i = i + 1;
    }
    r
}

// ---------------------------------------------------------------------------
// Splitting and joining
// ---------------------------------------------------------------------------

/// All pieces of `s` between occurrences of `d`, empty pieces included
/// (`str::split` with a character pattern).
pub open spec fn split_on(s: Seq<char>, d: char) -> Seq<Seq<char>>
    decreases s.len(),
{
    if s.len() == 0 {
        seq![Seq::<char>::empty()]
    } else {
        let r = split_on(s.drop_last(), d);
        if s.last() == d {
            r.push(Seq::<char>::empty())
        } else {
            r.update(r.len() - 1, r.last().push(s.last()))
        }
    }
}

pub proof fn lemma_split_nonempty(s: Seq<char>, d: char)
    ensures
        split_on(s, d).len() >= 1,
    decreases s.len(),
{
    if s.len() > 0 {
        lemma_split_nonempty(s.drop_last(), d);
    }
}

pub open spec fn strip_trailing_cr(l: Seq<char>) -> Seq<char> {
    if l.len() > 0 && l.last() == '\r' {
        l.drop_last()
    } else {
        l
    }
}

/// `str::lines`: pieces ended by `\n` (a `\r` just before that `\n` is
/// dropped), then the unterminated rest if it is not empty.
pub open spec fn lines_of(s: Seq<char>) -> Seq<Seq<char>> {
    let p = split_on(s, '\n');
    let body = p.drop_last().map_values(|l: Seq<char>| strip_trailing_cr(l));
    if p.last().len() == 0 {
        body
    } else {
        body.push(p.last())
    }
}

/// The contents of a vector of character vectors.
pub open spec fn views(v: Seq<Vec<char>>) -> Seq<Seq<char>> {
    v.map_values(|x: Vec<char>| x@)
}

/// `s` split into lines as `str::lines` does.
pub fn split_lines(s: &Vec<char>) -> (ls: Vec<Vec<char>>)
    ensures
        views(ls@) == lines_of(s@),
{
    let n = s.len();
    let mut done: Vec<Vec<char>> = Vec::new();
    let mut cur: Vec<char> = Vec::new();
    let mut i: usize = 0;
    proof {
        assert(s@.take(0) =~= Seq::<char>::empty());
        assert(views(done@) =~= split_on(s@.take(0), '\n').drop_last().map_values(
            |l: Seq<char>| strip_trailing_cr(l),
        ));
    }
    while i < n
        invariant
            i <= n,
            n == s.len(),
            split_on(s@.take(i as int), '\n').len() >= 1,
            views(done@) == split_on(s@.take(i as int), '\n').drop_last().map_values(
                |l: Seq<char>| strip_trailing_cr(l),
            ),
            cur@ == split_on(s@.take(i as int), '\n').last(),
        decreases n - i,
    {
        let ghost prev = split_on(s@.take(i as int), '\n');
        let c = s[i];
        proof {
            assert(s@.take(i + 1).drop_last() =~= s@.take(i as int));
            assert(s@.take(i + 1).last() == c);
        }
        if c == '\n' {
            let ghost old_done = done@;
            let mut line = cur;
            if line.len() > 0 && line[line.len() - 1] == '\r' {
                line.pop();
            }
            proof {
                assert(line@ == strip_trailing_cr(prev.last()));
            }
            done.push(line);
            cur = Vec::new();
            proof {
                let next = split_on(s@.take(i + 1), '\n');
                assert(next == prev.push(Seq::<char>::empty()));
                assert(next.drop_last() =~= prev);
                assert(prev =~= prev.drop_last().push(prev.last()));
                assert(views(done@) =~= views(old_done).push(line@));
                assert(prev.map_values(|l: Seq<char>| strip_trailing_cr(l)) =~= prev.drop_last().map_values(
                    |l: Seq<char>| strip_trailing_cr(l),
                ).push(strip_trailing_cr(prev.last())));
                assert(views(done@) =~= next.drop_last().map_values(
                    |l: Seq<char>| strip_trailing_cr(l),
                ));
            }
        } else {
            cur.push(c);
            proof {
                let next = split_on(s@.take(i + 1), '\n');
                assert(next == prev.update(prev.len() - 1, prev.last().push(c)));
                assert(next.drop_last() =~= prev.drop_last());
            }
        }
        i = i + 1;
    }
    proof {
        assert(s@.take(n as int) =~= s@);
    }
    if cur.len() > 0 {
        let ghost before = done@;
        done.push(cur);
        proof {
            assert(views(done@) =~= views(before).push(lines_of(s@).last()));
        }
    }
    done
}

/// Pieces joined with `sep` between neighbours (`[&str]::join`).
pub open spec fn join_with(ls: Seq<Seq<char>>, sep: char) -> Seq<char>
    decreases ls.len(),
{
    if ls.len() == 0 {
        Seq::<char>::empty()
    } else if ls.len() == 1 {
        ls[0]
    } else {
        join_with(ls.drop_last(), sep).push(sep) + ls.last()
    }
}

/// Joins `ls[start..]` with `sep`.
pub fn join_from(ls: &Vec<Vec<char>>, start: usize, sep: char) -> (r: Vec<char>)
    requires
        start <= ls.len(),
    ensures
        r@ == join_with(views(ls@).subrange(start as int, ls.len() as int), sep),
{
    let n = ls.len();
    let mut r: Vec<char> = Vec::new();
    let mut i: usize = start;
    proof {
        assert(views(ls@).subrange(start as int, start as int) =~= Seq::<Seq<char>>::empty());
    }
    while i < n
        invariant
            start <= i <= n,
            n == ls.len(),
            r@ == join_with(views(ls@).subrange(start as int, i as int), sep),
        decreases n - i,
    {
        let ghost part = views(ls@).subrange(start as int, i + 1);
        proof {
            assert(part.drop_last() =~= views(ls@).subrange(start as int, i as int));
            assert(part.last() == ls@[i as int]@);
        }
        if i > start {
            r.push(sep);
        }
        let line = &ls[i];
        let mut k: usize = 0;
        let ghost base = r@;
        while k < line.len()
            invariant
                k <= line.len(),
                r@ == base + line@.take(k as int),
            decreases line.len() - k,
        {
            r.push(line[k]);
            proof {
                assert(line@.take(k + 1) =~= line@.take(k as int).push(line@[k as int]));
            }
            k = k + 1;
        }
        proof {
            assert(line@.take(line.len() as int) =~= line@);
            if i == start {
                assert(base =~= Seq::<char>::empty());
                assert(r@ =~= part[0]);
            }
        }
        i = i + 1;
    }
    r
}

// ---------------------------------------------------------------------------
// Searching
// ---------------------------------------------------------------------------

/// `pat` occurs in `s` starting at `i`.
pub open spec fn occurs_at(s: Seq<char>, pat: Seq<char>, i: int) -> bool {
    0 <= i && i + pat.len() <= s.len() && s.subrange(i, i + pat.len()) == pat
}

/// `str::contains` with a string pattern.
pub open spec fn contains_seq(s: Seq<char>, pat: Seq<char>) -> bool {
    exists|i: int| occurs_at(s, pat, i)
}

/// `str::find`: the first position where `pat` occurs (as a character
/// index).
#[verifier::opaque]
pub open spec fn first_occurrence(s: Seq<char>, pat: Seq<char>) -> Option<int> {
    if contains_seq(s, pat) {
        Some(
            choose|i: int|
                occurs_at(s, pat, i) && forall|j: int| 0 <= j < i ==> !occurs_at(s, pat, j),
        )
    } else {
        None
    }
}

pub fn occurs_at_exec(s: &Vec<char>, pat: &Vec<char>, i: usize) -> (b: bool)
    ensures
        b == occurs_at(s@, pat@, i as int),
{
    if pat.len() > s.len() || i > s.len() - pat.len() {
        return false;
    }
    let mut k: usize = 0;
    while k < pat.len()
        invariant
            k <= pat.len(),
            i + pat.len() <= s.len(),
            forall|j: int| 0 <= j < k ==> s@[i + j] == pat@[j],
        decreases pat.len() - k,
    {
        if s[i + k] != pat[k] {
            proof {
                assert(s@.subrange(i as int, i + pat.len())[k as int] != pat@[k as int]);
            }
            return false;
        }
        k = k + 1;
    }
    assert(s@.subrange(i as int, i + pat.len()) =~= pat@);
    true
}

/// First occurrence of `pat` in `s` (character index).
pub fn find_seq(s: &Vec<char>, pat: &Vec<char>) -> (r: Option<usize>)
    ensures
        match r {
            Some(i) => first_occurrence(s@, pat@) == Some(i as int) && occurs_at(s@, pat@, i as int)
                && i + pat@.len() <= s@.len(),
            None => first_occurrence(s@, pat@) is None && !contains_seq(s@, pat@),
        },
{
    reveal(first_occurrence);
    if pat.len() > s.len() {
        assert forall|j: int| !occurs_at(s@, pat@, j) by {}
        return None;
    }
    let last = s.len() - pat.len();
    let mut i: usize = 0;
    while i < last
        invariant
            i <= last,
            last == s.len() - pat.len(),
            forall|j: int| 0 <= j < i ==> !occurs_at(s@, pat@, j),
        decreases last - i,
    {
        if occurs_at_exec(s, pat, i) {
            proof {
                reveal(first_occurrence);
                let w = choose|k: int|
                    occurs_at(s@, pat@, k) && forall|j: int| 0 <= j < k ==> !occurs_at(s@, pat@, j);
                assert(occurs_at(s@, pat@, i as int));
            }
            return Some(i);
        }
        i = i + 1;
    }
    if occurs_at_exec(s, pat, last) {
        proof {
            let w = choose|k: int|
                occurs_at(s@, pat@, k) && forall|j: int| 0 <= j < k ==> !occurs_at(s@, pat@, j);
            assert(occurs_at(s@, pat@, last as int));
        }
        return Some(last);
    }
    assert forall|j: int| !occurs_at(s@, pat@, j) by {
        if 0 <= j && j < last {
        }
    }
    None
}

pub fn contains_exec(s: &Vec<char>, pat: &Vec<char>) -> (b: bool)
    ensures
        b == contains_seq(s@, pat@),
{
    match find_seq(s, pat) {
        Some(_) => true,
        None => false,
    }
}

} // verus!

verus! {

/// A copy of a character vector.
pub fn copy_chars(v: &Vec<char>) -> (r: Vec<char>)
    ensures
        r@ == v@,
{
    let mut r: Vec<char> = Vec::new();
    let mut i: usize = 0;
    while i < v.len()
        invariant
            i <= v.len(),
            r@ == v@.take(i as int),
        decreases v.len() - i,
    {
        r.push(v[i]);
        proof {
            assert(v@.take(i + 1) =~= v@.take(i as int).push(v@[i as int]));
        }
        i = i + 1;
    }
    assert(v@.take(v.len() as int) =~= v@);
    r
}

/// Proof tools about splitting and joining.
pub proof fn lemma_split_append_plain(x: Seq<char>, b: Seq<char>, d: char)
    requires
        forall|k: int| 0 <= k < b.len() ==> b[k] != d,
    ensures
        split_on(x + b, d) == split_on(x, d).update(
            split_on(x, d).len() - 1,
            split_on(x, d).last() + b,
        ),
    decreases b.len(),
{
    lemma_split_nonempty(x, d);
    if b.len() == 0 {
        assert(x + b =~= x);
        assert(split_on(x, d).last() + b =~= split_on(x, d).last());
        assert(split_on(x, d).update(split_on(x, d).len() - 1, split_on(x, d).last())
            =~= split_on(x, d));
    } else {
        let b0 = b.drop_last();
        lemma_split_append_plain(x, b0, d);
        assert((x + b).drop_last() =~= x + b0);
        assert((x + b).last() == b.last());
        let r = split_on(x, d);
        assert(split_on(x + b, d) =~= split_on(x, d).update(r.len() - 1, r.last() + b)) by {
            assert(r.last() + b =~= (r.last() + b0).push(b.last()));
        }
    }
}

pub open spec fn free_of(l: Seq<char>, c: char) -> bool {
    forall|k: int| 0 <= k < l.len() ==> l[k] != c
}

/// Joining pieces that hold no separator, then splitting, gives the pieces
/// back.
pub proof fn lemma_split_join(ls: Seq<Seq<char>>, d: char)
    requires
        ls.len() >= 1,
        forall|i: int| 0 <= i < ls.len() ==> free_of(#[trigger] ls[i], d),
    ensures
        split_on(join_with(ls, d), d) == ls,
    decreases ls.len(),
{
    if ls.len() == 1 {
        let e = Seq::<char>::empty();
        assert(free_of(ls[0], d));
        lemma_split_append_plain(e, ls[0], d);
        assert(e + ls[0] =~= ls[0]);
        assert(split_on(e, d) =~= seq![e]);
        assert(e + ls[0] =~= ls[0]);
        assert(split_on(ls[0], d) =~= ls);
    } else {
        let init = ls.drop_last();
        assert forall|i: int| 0 <= i < init.len() implies free_of(#[trigger] init[i], d) by {
            assert(init[i] == ls[i]);
        }
        lemma_split_join(init, d);
        let a = join_with(init, d).push(d);
        assert(free_of(ls.last(), d)) by {
            assert(free_of(ls[ls.len() - 1], d));
        }
        lemma_split_append_plain(a, ls.last(), d);
        assert(a.drop_last() =~= join_with(init, d));
        assert(split_on(a, d) == init.push(Seq::<char>::empty()));
        assert(Seq::<char>::empty() + ls.last() =~= ls.last());
        assert(split_on(a + ls.last(), d) =~= ls);
    }
}

/// Every piece of a split is free of the separator, and of any character
/// the text does not hold.
pub proof fn lemma_split_pieces_free(s: Seq<char>, d: char, x: char)
    requires
        x == d || free_of(s, x),
    ensures
        forall|i: int| 0 <= i < split_on(s, d).len() ==> free_of(#[trigger] split_on(s, d)[i], x),
    decreases s.len(),
{
    lemma_split_nonempty(s, d);
    if s.len() > 0 {
        let t = s.drop_last();
        if x != d {
            assert(free_of(t, x)) by {
                assert forall|k: int| 0 <= k < t.len() implies t[k] != x by {
                    assert(t[k] == s[k]);
                }
            }
        }
        lemma_split_pieces_free(t, d, x);
        lemma_split_nonempty(t, d);
        let r = split_on(t, d);
        if s.last() != d {
            assert(s.last() != x) by {
                if x != d {
                    assert(s[s.len() - 1] != x);
                }
            }
            let nl = r.last().push(s.last());
            assert(free_of(r.last(), x)) by {
                assert(free_of(r[r.len() - 1], x));
            }
            assert(free_of(nl, x)) by {
                assert forall|k: int| 0 <= k < nl.len() implies nl[k] != x by {
                    if k < nl.len() - 1 {
                        assert(nl[k] == r.last()[k]);
                    }
                }
            }
        }
    }
}

} // verus!

verus! {

/// The contents of a vector of strings.
pub open spec fn string_views(v: Seq<String>) -> Seq<Seq<char>> {
    v.map_values(|s: String| s@)
}

/// `a` followed by `b`, as a new string.
pub fn join2(a: &str, b: &str) -> (r: String)
    ensures
        r@ == a@ + b@,
{
    let mut r = owned(a);
    r.append(b);
    r
}

/// `a`, `b`, `c` in a row, as a new string.
pub fn join3(a: &str, b: &str, c: &str) -> (r: String)
    ensures
        r@ == a@ + b@ + c@,
{
    let mut r = owned(a);
    r.append(b);
    r.append(c);
    r
}

} // verus!

verus! {

/// The characters `v[from..to]`.
pub fn slice_chars(v: &Vec<char>, from: usize, to: usize) -> (r: Vec<char>)
    requires
        from <= to <= v.len(),
    ensures
        r@ == v@.subrange(from as int, to as int),
{
    let mut r: Vec<char> = Vec::new();
    let mut i: usize = from;
    while i < to
        invariant
            from <= i <= to <= v.len(),
            r@ == v@.subrange(from as int, i as int),
        decreases to - i,
    {
        r.push(v[i]);
        proof {
            assert(v@.subrange(from as int, i + 1) =~= v@.subrange(from as int, i as int).push(
                v@[i as int],
            ));
        }
        i = i + 1;
    }
    r
}

} // verus!
