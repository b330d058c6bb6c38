use vstd::prelude::*;

verus! {

/// The byte values the pipeline treats as blank: space, tab, line feed,
/// carriage return.
pub open spec fn is_blank_byte(b: u8) -> bool {
    b == 32 || b == 9 || b == 10 || b == 13
}

/// Whether every byte of `s` is blank; holds of the empty sequence.
pub open spec fn all_blank(s: Seq<u8>) -> bool {
    forall|i: int| 0 <= i < s.len() ==> is_blank_byte(s[i])
}

/// `s` without its leading blank bytes.
pub open spec fn trim_front(s: Seq<u8>) -> Seq<u8>
    decreases s.len(),
{
    if s.len() > 0 && is_blank_byte(s[0]) {
        trim_front(s.drop_first())
    } else {
        s
    }
}

/// `s` without its trailing blank bytes.
pub open spec fn trim_back(s: Seq<u8>) -> Seq<u8>
    decreases s.len(),
{
    if s.len() > 0 && is_blank_byte(s.last()) {
        trim_back(s.drop_last())
    } else {
        s
    }
}

/// `s` without its leading and trailing blank bytes.
pub open spec fn trim_spec(s: Seq<u8>) -> Seq<u8> {
    trim_back(trim_front(s))
}

/// Dropping an all-blank prefix does not change what trimming leaves.
proof fn lemma_trim_front_skip(s: Seq<u8>, k: int)
    requires
        0 <= k <= s.len(),
        forall|i: int| 0 <= i < k ==> is_blank_byte(s[i]),
    ensures
        trim_front(s) == trim_front(s.skip(k)),
    decreases k,
{
    if k > 0 {
        assert(s.drop_first() =~= s.skip(1));
        assert(forall|i: int| 0 <= i < k - 1 ==> is_blank_byte(#[trigger] s.skip(1)[i]));
        lemma_trim_front_skip(s.skip(1), k - 1);
        assert(s.skip(1).skip(k - 1) =~= s.skip(k));
    } else {
        assert(s.skip(0) =~= s);
    }
}

/// Dropping an all-blank suffix does not change what trimming leaves.
proof fn lemma_trim_back_take(s: Seq<u8>, k: int)
    requires
        0 <= k <= s.len(),
        forall|i: int| k <= i < s.len() ==> is_blank_byte(s[i]),
    ensures
        trim_back(s) == trim_back(s.take(k)),
    decreases s.len() - k,
{
    if k < s.len() {
        assert(s.drop_last() =~= s.take(s.len() - 1));
        assert(forall|i: int|
            k <= i < s.len() - 1 ==> is_blank_byte(#[trigger] s.take(s.len() - 1)[i]));
        lemma_trim_back_take(s.take(s.len() - 1), k);
        assert(s.take(s.len() - 1).take(k) =~= s.take(k));
    } else {
        assert(s.take(s.len() as int) =~= s);
    }
}

/// Trimming the front leaves nothing exactly of an all-blank sequence.
proof fn lemma_trim_front_empty(s: Seq<u8>)
    ensures
        trim_front(s).len() == 0 <==> all_blank(s),
    decreases s.len(),
{
    if s.len() > 0 && is_blank_byte(s[0]) {
        lemma_trim_front_empty(s.drop_first());
        assert forall|i: int| 0 <= i < s.drop_first().len() implies
            s.drop_first()[i] == s[i + 1] by {}
        if all_blank(s.drop_first()) {
            assert forall|i: int| 0 <= i < s.len() implies is_blank_byte(s[i]) by {
                if i > 0 {
                    assert(s.drop_first()[i - 1] == s[i]);
                }
            }
        }
        if all_blank(s) {
            assert forall|i: int| 0 <= i < s.drop_first().len() implies
                is_blank_byte(s.drop_first()[i]) by {
                assert(s.drop_first()[i] == s[i + 1]);
            }
        }
    }
}

/// What trimming the front leaves never starts with a blank byte.
proof fn lemma_trim_front_head(s: Seq<u8>)
    ensures
        trim_front(s).len() > 0 ==> !is_blank_byte(trim_front(s)[0]),
    decreases s.len(),
{
    if s.len() > 0 && is_blank_byte(s[0]) {
        lemma_trim_front_head(s.drop_first());
    }
}

/// Trimming the back leaves nothing exactly of an all-blank sequence.
proof fn lemma_trim_back_empty(s: Seq<u8>)
    ensures
        trim_back(s).len() == 0 <==> all_blank(s),
    decreases s.len(),
{
    if s.len() > 0 && is_blank_byte(s.last()) {
        lemma_trim_back_empty(s.drop_last());
        if all_blank(s.drop_last()) {
            assert forall|i: int| 0 <= i < s.len() implies is_blank_byte(s[i]) by {
                if i < s.len() - 1 {
                    assert(s.drop_last()[i] == s[i]);
                }
            }
        }
        if all_blank(s) {
            assert forall|i: int| 0 <= i < s.drop_last().len() implies
                is_blank_byte(s.drop_last()[i]) by {
                assert(s.drop_last()[i] == s[i]);
            }
        }
    }
}

/// A sequence is blank exactly when trimming leaves nothing of it. In
/// particular, what trimming does leave is never empty-but-successful.
pub proof fn lemma_trim_empty_iff_blank(s: Seq<u8>)
    ensures
        trim_spec(s).len() == 0 <==> all_blank(s),
{
    lemma_trim_front_empty(s);
    lemma_trim_back_empty(trim_front(s));
    lemma_trim_front_head(s);
    if trim_front(s).len() > 0 && all_blank(trim_front(s)) {
        assert(is_blank_byte(trim_front(s)[0]));
    }
}

/// Whether `b` is one of the blank byte values.
pub fn byte_is_blank(b: u8) -> (r: bool)
    ensures
        r == is_blank_byte(b),
{
    b == 32 || b == 9 || b == 10 || b == 13
}

/// Whether the whole of `v` is blank or empty.
pub fn blank_text(v: &Vec<u8>) -> (r: bool)
    ensures
        r == all_blank(v@),
{
    let mut i: usize = 0;
    while i < v.len()
        invariant
            i <= v@.len(),
            forall|j: int| 0 <= j < i ==> is_blank_byte(v@[j]),
        decreases v@.len() - i,
    {
        if !byte_is_blank(v[i]) {
            return false;
        }
        i = i + 1;
    }
    true
}

/// Strip leading and trailing blank bytes from a recognized line.
pub fn trim_blank(s: &Vec<u8>) -> (r: Vec<u8>)
    ensures
        r@ == trim_spec(s@),
{
    let n: usize = s.len();
    let mut start: usize = 0;
    while start < n && byte_is_blank(s[start])
        invariant
            n == s@.len(),
            start <= n,
            forall|i: int| 0 <= i < start ==> is_blank_byte(s@[i]),
        decreases n - start,
    {
        start = start + 1;
    }
    let mut end: usize = n;
    while end > start && byte_is_blank(s[end - 1])
        invariant
            n == s@.len(),
            start <= end <= n,
            forall|i: int| end <= i < n ==> is_blank_byte(s@[i]),
        decreases end,
    {
        end = end - 1;
    }
    proof {
        lemma_trim_front_skip(s@, start as int);
        let t = s@.skip(start as int);
        if start < n {
            assert(t[0] == s@[start as int]);
            assert(trim_front(t) == t);
        } else {
            assert(t =~= Seq::<u8>::empty());
        }
        assert forall|i: int| end - start <= i < t.len() implies is_blank_byte(t[i]) by {
            assert(t[i] == s@[i + start]);
        }
        lemma_trim_back_take(t, end - start as int);
        assert(t.take(end - start as int) =~= s@.subrange(start as int, end as int));
        let u = s@.subrange(start as int, end as int);
        if end > start {
            assert(u.last() == s@[end - 1]);
            assert(trim_back(u) == u);
        } else {
            assert(u =~= Seq::<u8>::empty());
        }
        assert(trim_spec(s@) == u);
    }
    let mut r: Vec<u8> = Vec::new();
    let mut i: usize = start;
    while i < end
        invariant
            n == s@.len(),
            start <= i <= end <= n,
            r@ == s@.subrange(start as int, i as int),
        decreases end - i,
    {
        r.push(s[i]);
        proof {
            assert(r@ =~= s@.subrange(start as int, i + 1 as int));
        }
        i = i + 1;
    }
    proof {
        assert(r@ == s@.subrange(start as int, end as int));
    }
    r
}

/// The assembled recognition text: every line trimmed, each followed by a
/// line feed.
pub open spec fn assembled(lines: Seq<Vec<u8>>) -> Seq<u8>
    decreases lines.len(),
{
    if lines.len() == 0 {
        Seq::empty()
    } else {
        assembled(lines.drop_last()) + trim_spec(lines.last()@) + seq![10u8]
    }
}

/// Assemble recognized lines into the delivered text: trim each line and
/// append a line feed after it.
pub fn assemble_lines(lines: &Vec<Vec<u8>>) -> (r: Vec<u8>)
    ensures
        r@ == assembled(lines@),
{
    let mut r: Vec<u8> = Vec::new();
    let mut i: usize = 0;
    while i < lines.len()
        invariant
            i <= lines@.len(),
            r@ == assembled(lines@.take(i as int)),
        decreases lines@.len() - i,
    {
        let mut t = trim_blank(&lines[i]);
        r.append(&mut t);
        r.push(10);
        proof {
            let taken = lines@.take(i + 1 as int);
            assert(taken.drop_last() =~= lines@.take(i as int));
            assert(taken.last() == lines@[i as int]);
            assert(r@ =~= assembled(taken));
        }
        i = i + 1;
    }
    proof {
        assert(lines@.take(lines@.len() as int) =~= lines@);
    }
    r
}

/// All-blank lines assemble into all-blank text: trimming leaves nothing of
/// any line, and the line feeds themselves are blank.
pub proof fn lemma_assembled_blank(lines: Seq<Vec<u8>>)
    requires
        forall|i: int| 0 <= i < lines.len() ==> all_blank(#[trigger] lines[i]@),
    ensures
        all_blank(assembled(lines)),
    decreases lines.len(),
{
    if lines.len() > 0 {
        assert(forall|i: int|
            0 <= i < lines.drop_last().len() ==> all_blank(#[trigger] lines.drop_last()[i]@));
        lemma_assembled_blank(lines.drop_last());
        lemma_trim_empty_iff_blank(lines.last()@);
        let a = assembled(lines.drop_last());
        let w = assembled(lines);
        assert(w =~= a + seq![10u8]);
        assert forall|i: int| 0 <= i < w.len() implies is_blank_byte(w[i]) by {
            if i < a.len() {
                assert(w[i] == a[i]);
            } else {
                assert(w[i] == 10u8);
            }
        }
    }
}

} // verus!
