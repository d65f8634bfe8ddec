//! Plain text helpers on character buffers: weaving kept text with
//! replacements, trimming, splitting at commas and joining lines.

use vstd::prelude::*;
use vstd::std_specs::iter::IteratorSpec;

verus! {

/// The views of a list of character buffers.
pub open spec fn texts(parts: Seq<Vec<char>>) -> Seq<Seq<char>> {
    parts.map_values(|p: Vec<char>| p@)
}

/// The `i`-th part, or the empty text where there is none.
pub open spec fn piece(parts: Seq<Seq<char>>, i: int) -> Seq<char> {
    if 0 <= i < parts.len() {
        parts[i]
    } else {
        Seq::empty()
    }
}

/// The first `n` rounds of a weave: in each round one gap, then one
/// replacement.
pub open spec fn woven(gaps: Seq<Seq<char>>, reps: Seq<Seq<char>>, n: nat) -> Seq<char>
    decreases n,
{
    if n == 0 {
        Seq::empty()
    } else {
        woven(gaps, reps, (n - 1) as nat) + piece(gaps, n - 1) + piece(reps, n - 1)
    }
}

/// Gaps and replacements in turn, starting with a gap, until both lists are
/// used up.
pub open spec fn weave(gaps: Seq<Seq<char>>, reps: Seq<Seq<char>>) -> Seq<char> {
    woven(gaps, reps, if gaps.len() >= reps.len() { gaps.len() } else { reps.len() })
}

/// Unicode's `White_Space` property.
pub open spec fn is_space(c: char) -> bool {
    let n = c as u32;
    ||| 0x09 <= n <= 0x0d
    ||| n == 0x20
    ||| n == 0x85
    ||| n == 0xa0
    ||| n == 0x1680
    ||| 0x2000 <= n <= 0x200a
    ||| n == 0x2028
    ||| n == 0x2029
    ||| n == 0x202f
    ||| n == 0x205f
    ||| n == 0x3000
}

/// Whether `c` is white space.
pub fn char_is_space(c: char) -> (r: bool)
    ensures
        r == is_space(c),
{
    let n: u32 = c as u32;
    (0x09 <= n && n <= 0x0d) || n == 0x20 || n == 0x85 || n == 0xa0 || n == 0x1680 || (0x2000 <= n
        && n <= 0x200a) || n == 0x2028 || n == 0x2029 || n == 0x202f || n == 0x205f || n == 0x3000
}

/// `s` without its leading white space.
pub open spec fn strip_front(s: Seq<char>) -> Seq<char>
    decreases s.len(),
{
    if s.len() > 0 && is_space(s[0]) {
        strip_front(s.drop_first())
    } else {
        s
    }
}

/// `s` without its trailing white space.
pub open spec fn strip_back(s: Seq<char>) -> Seq<char>
    decreases s.len(),
{
    if s.len() > 0 && is_space(s.last()) {
        strip_back(s.drop_last())
    } else {
        s
    }
}

/// `s` without leading and trailing white space.
pub open spec fn trimmed(s: Seq<char>) -> Seq<char> {
    strip_back(strip_front(s))
}

/// Stripping the front cuts a run of white space from the start, up to the
/// first character that is none. Returns where the run ends.
pub proof fn lemma_strip_front(s: Seq<char>) -> (lo: int)
    ensures
        0 <= lo <= s.len(),
        strip_front(s) == s.subrange(lo, s.len() as int),
        forall|k: int| 0 <= k < lo ==> is_space(s[k]),
        lo < s.len() ==> !is_space(s[lo]),
    decreases s.len(),
{
    if s.len() > 0 && is_space(s[0]) {
        let rest = s.drop_first();
        let at = lemma_strip_front(rest);
        assert(rest.subrange(at, rest.len() as int) =~= s.subrange(at + 1, s.len() as int));
        assert forall|k: int| 0 <= k < at + 1 implies is_space(s[k]) by {
            if k > 0 {
                assert(s[k] == rest[k - 1]);
            }
        }
        at + 1
    } else {
        assert(s.subrange(0, s.len() as int) =~= s);
        0
    }
}

/// Stripping the back cuts a run of white space from the end, down to the
/// last character that is none. Returns where the run starts.
pub proof fn lemma_strip_back(s: Seq<char>) -> (hi: int)
    ensures
        0 <= hi <= s.len(),
        strip_back(s) == s.subrange(0, hi),
        forall|k: int| hi <= k < s.len() ==> is_space(s[k]),
        0 < hi ==> !is_space(s[hi - 1]),
    decreases s.len(),
{
    if s.len() > 0 && is_space(s.last()) {
        let rest = s.drop_last();
        let at = lemma_strip_back(rest);
        assert(rest.subrange(0, at) =~= s.subrange(0, at));
        at
    } else {
        assert(s.subrange(0, s.len() as int) =~= s);
        s.len() as int
    }
}

/// Trimming cuts a run of white space from each end and nothing else: what
/// is left is a stretch of the text that neither starts nor ends with white
/// space, and all that was cut is white space. Returns the stretch's bounds.
pub proof fn lemma_trimmed(s: Seq<char>) -> (cut: (int, int))
    ensures
        0 <= cut.0 <= cut.1 <= s.len(),
        trimmed(s) == s.subrange(cut.0, cut.1),
        forall|k: int| 0 <= k < cut.0 || cut.1 <= k < s.len() ==> is_space(s[k]),
        cut.0 < cut.1 ==> !is_space(s[cut.0]) && !is_space(s[cut.1 - 1]),
{
    let lo = lemma_strip_front(s);
    let front = s.subrange(lo, s.len() as int);
    let len = lemma_strip_back(front);
    assert(front.subrange(0, len) =~= s.subrange(lo, lo + len));
    assert forall|k: int| lo + len <= k < s.len() implies is_space(s[k]) by {
        assert(s[k] == front[k - lo]);
    }
    if len > 0 {
        assert(front[len - 1] == s[lo + len - 1]);
    }
    (lo, lo + len)
}

/// Copies `s[lo..hi]` to the end of `out`.
pub fn push_range(out: &mut Vec<char>, s: &Vec<char>, lo: usize, hi: usize)
    requires
        lo <= hi <= s.len(),
    ensures
        final(out)@ == old(out)@ + s@.subrange(lo as int, hi as int),
{
    let mut i: usize = lo;
    while i < hi
        invariant
            lo <= i <= hi <= s.len(),
            out@ == old(out)@ + s@.subrange(lo as int, i as int),
        decreases hi - i,
    {
        out.push(s[i]);
        i += 1;
        assert(out@ =~= old(out)@ + s@.subrange(lo as int, i as int));
    }
    assert(out@ =~= old(out)@ + s@.subrange(lo as int, hi as int));
}

/// Copies all of `s` to the end of `out`.
pub fn push_all(out: &mut Vec<char>, s: &Vec<char>)
    ensures
        final(out)@ == old(out)@ + s@,
{
    assert(s@.subrange(0, s@.len() as int) =~= s@);
    push_range(out, s, 0, s.len());
}

/// Copies the characters of `s` to the end of `out`.
pub fn push_str(out: &mut Vec<char>, s: &str)
    ensures
        final(out)@ == old(out)@ + s@,
{
    broadcast use vstd::string::group_string_axioms;

    let mut it = s.chars();
    loop
        invariant
            out@ + it.remaining() == old(out)@ + s@,
            it.decrease() is Some,
        ensures
            out@ == old(out)@ + s@,
        decreases it.decrease()->0,
    {
        match it.next() {
            Some(c) => {
                out.push(c);
                assert(out@ + it.remaining() =~= old(out)@ + s@);
            },
            None => {
                assert(out@ =~= old(out)@ + s@);
                break ;
            },
        }
    }
}

/// `s` without leading and trailing white space.
pub fn trim(s: &Vec<char>) -> (r: Vec<char>)
    ensures
        r@ == trimmed(s@),
{
    let n: usize = s.len();
    let mut lo: usize = 0;
    assert(s@.subrange(0, n as int) =~= s@);
    while lo < n && char_is_space(s[lo])
        invariant
            lo <= n == s.len(),
            strip_front(s@) == strip_front(s@.subrange(lo as int, n as int)),
        decreases n - lo,
    {
        assert(s@.subrange(lo as int, n as int).drop_first() =~= s@.subrange(
            lo as int + 1,
            n as int,
        ));
        lo += 1;
    }
    let mut hi: usize = n;
    while hi > lo && char_is_space(s[hi - 1])
        invariant
            lo <= hi <= n == s.len(),
            strip_front(s@) == s@.subrange(lo as int, n as int),
            trimmed(s@) == strip_back(s@.subrange(lo as int, hi as int)),
        decreases hi - lo,
    {
        assert(s@.subrange(lo as int, hi as int).drop_last() =~= s@.subrange(
            lo as int,
            hi as int - 1,
        ));
        hi -= 1;
    }
    let mut r: Vec<char> = Vec::new();
    push_range(&mut r, s, lo, hi);
    assert(r@ =~= s@.subrange(lo as int, hi as int));
    r
}

/// The characters of `s` as a buffer.
pub fn chars_of(s: &str) -> (r: Vec<char>)
    ensures
        r@ == s@,
{
    let mut r: Vec<char> = Vec::new();
    push_str(&mut r, s);
    r
}

/// Whether two buffers hold the same characters.
pub fn same_text(a: &Vec<char>, b: &Vec<char>) -> (r: bool)
    ensures
        r == (a@ == b@),
{
    if a.len() != b.len() {
        return false;
    }
    let mut i: usize = 0;
    while i < a.len()
        invariant
            i <= a.len() == b.len(),
            forall|k: int| 0 <= k < i ==> a@[k] == b@[k],
        decreases a.len() - i,
    {
        if a[i] != b[i] {
            return false;
        }
        i += 1;
    }
    assert(a@ =~= b@);
    true
}

/// The fields of `s` between its commas: one more than it has commas, each
/// possibly empty. A comma opens a new field; any other character goes to the
/// end of the last field.
pub open spec fn fields(s: Seq<char>) -> Seq<Seq<char>>
    decreases s.len(),
{
    if s.len() == 0 {
        seq![Seq::empty()]
    } else {
        let before = fields(s.drop_last());
        if s.last() == ',' {
            before.push(Seq::empty())
        } else {
            before.drop_last().push(before.last().push(s.last()))
        }
    }
}

/// How many commas `s` holds.
pub open spec fn commas(s: Seq<char>) -> nat
    decreases s.len(),
{
    if s.len() == 0 {
        0
    } else if s.last() == ',' {
        commas(s.drop_last()) + 1
    } else {
        commas(s.drop_last())
    }
}

/// There is one field more than there are commas, and no field holds a
/// comma.
pub proof fn lemma_fields_count(s: Seq<char>)
    ensures
        fields(s).len() == commas(s) + 1,
        forall|i: int, j: int|
            0 <= i < fields(s).len() && 0 <= j < fields(s)[i].len() ==> fields(s)[i][j] != ',',
    decreases s.len(),
{
    if s.len() > 0 {
        lemma_fields_count(s.drop_last());
    }
}

/// Splitting at the commas loses nothing and keeps the order: the fields
/// joined by commas are the text again.
pub proof fn lemma_fields_joined(s: Seq<char>)
    ensures
        joined(fields(s), seq![',']) == s,
    decreases s.len(),
{
    if s.len() == 0 {
        assert(joined(fields(s), seq![',']) =~= s);
    } else {
        let before = fields(s.drop_last());
        lemma_fields_count(s.drop_last());
        lemma_fields_joined(s.drop_last());
        if s.last() == ',' {
            assert(fields(s).drop_last() =~= before);
            assert(joined(fields(s), seq![',']) =~= s);
        } else {
            let now = fields(s);
            assert(now.last() == before.last().push(s.last()));
            if before.len() == 1 {
                assert(joined(now, seq![',']) =~= s);
            } else {
                assert(now.drop_last() =~= before.drop_last());
                assert(joined(now, seq![',']) =~= joined(before, seq![',']).push(s.last()));
                assert(joined(now, seq![',']) =~= s);
            }
        }
    }
}

/// Splits `s` at every comma.
pub fn split_fields(s: &Vec<char>) -> (r: Vec<Vec<char>>)
    ensures
        texts(r@) == fields(s@),
{
    let mut parts: Vec<Vec<char>> = Vec::new();
    let mut cur: Vec<char> = Vec::new();
    let mut i: usize = 0;
    assert(texts(parts@).push(cur@) =~= fields(s@.take(0)));
    while i < s.len()
        invariant
            i <= s.len(),
            texts(parts@).push(cur@) == fields(s@.take(i as int)),
        decreases s.len() - i,
    {
        let c: char = s[i];
        let ghost before = fields(s@.take(i as int));
        proof {
            lemma_fields_count(s@.take(i as int));
        }
        assert(s@.take(i + 1).drop_last() =~= s@.take(i as int));
        assert(s@.take(i + 1).last() == c);
        if c == ',' {
            parts.push(cur);
            cur = Vec::new();
            assert(texts(parts@) =~= before);
        } else {
            cur.push(c);
            assert(texts(parts@).push(cur@) =~= before.drop_last().push(before.last().push(c)));
        }
        i += 1;
    }
    assert(s@.take(s@.len() as int) =~= s@);
    parts.push(cur);
    assert(texts(parts@) =~= fields(s@));
    parts
}

/// The parts one after another, with `sep` between each two.
pub open spec fn joined(parts: Seq<Seq<char>>, sep: Seq<char>) -> Seq<char>
    decreases parts.len(),
{
    if parts.len() == 0 {
        Seq::empty()
    } else if parts.len() == 1 {
        parts[0]
    } else {
        joined(parts.drop_last(), sep) + sep + parts.last()
    }
}

/// The fields of an argument list, each trimmed, one per line.
pub open spec fn argument_lines(args: Seq<char>) -> Seq<char> {
    joined(fields(args).map_values(|f: Seq<char>| trimmed(f)), seq!['\n'])
}

/// Splits `args` at its commas, trims each field and puts each on a line of
/// its own, in the order in which they stand.
pub fn lines_of_arguments(args: &Vec<char>) -> (r: Vec<char>)
    ensures
        r@ == argument_lines(args@),
{
    let parts = split_fields(args);
    let ghost want = fields(args@).map_values(|f: Seq<char>| trimmed(f));
    let mut out: Vec<char> = Vec::new();
    let mut i: usize = 0;
    assert(want.take(0) =~= Seq::empty());
    while i < parts.len()
        invariant
            i <= parts.len(),
            texts(parts@) == fields(args@),
            want == fields(args@).map_values(|f: Seq<char>| trimmed(f)),
            out@ == joined(want.take(i as int), seq!['\n']),
        decreases parts.len() - i,
    {
        let t = trim(&parts[i]);
        assert(texts(parts@)[i as int] == parts@[i as int]@);
        assert(want[i as int] == t@);
        assert(want.take(i + 1).drop_last() =~= want.take(i as int));
        assert(want.take(i + 1).last() == t@);
        if i > 0 {
            out.push('\n');
        }
        push_all(&mut out, &t);
        assert(out@ =~= joined(want.take(i + 1), seq!['\n']));
        i += 1;
    }
    assert(want.take(want.len() as int) =~= want);
    out
}

/// Weaves the gaps with the replacements, starting with a gap.
pub fn weave_texts(gaps: &Vec<Vec<char>>, reps: &Vec<Vec<char>>) -> (r: Vec<char>)
    ensures
        r@ == weave(texts(gaps@), texts(reps@)),
{
    let n: usize = if gaps.len() >= reps.len() {
        gaps.len()
    } else {
        reps.len()
    };
    let mut out: Vec<char> = Vec::new();
    let mut i: usize = 0;
    while i < n
        invariant
            i <= n,
            n == if gaps.len() >= reps.len() {
                gaps.len()
            } else {
                reps.len()
            },
            out@ == woven(texts(gaps@), texts(reps@), i as nat),
        decreases n - i,
    {
        if i < gaps.len() {
            push_all(&mut out, &gaps[i]);
        }
        if i < reps.len() {
            push_all(&mut out, &reps[i]);
        }
        i += 1;
        assert(out@ =~= woven(texts(gaps@), texts(reps@), i as nat));
    }
    out
}

} // verus!
