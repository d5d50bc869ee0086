use vstd::prelude::*;

verus! {

/// `s` begins with `prefix`.
pub open spec fn starts_with(s: Seq<char>, prefix: Seq<char>) -> bool {
    prefix.len() <= s.len() && s.subrange(0, prefix.len() as int) == prefix
}

/// `s` ends with `suffix`.
pub open spec fn ends_with(s: Seq<char>, suffix: Seq<char>) -> bool {
    suffix.len() <= s.len() && s.subrange(s.len() - suffix.len(), s.len() as int) == suffix
}

/// `needle` occurs somewhere in `s` as a contiguous run of characters.
pub open spec fn contains_run(s: Seq<char>, needle: Seq<char>) -> bool {
    exists|i: int|
        0 <= i && i + needle.len() <= s.len() && #[trigger] s.subrange(i, i + needle.len())
            == needle
}

/// Copies the characters of `s` into a vector.
pub fn str_chars(s: &str) -> (v: Vec<char>)
    ensures
        v@ == s@,
{
    let mut v: Vec<char> = Vec::new();
    for c in it: s.chars()
        invariant
            v@ == it.seq().subrange(0, it.index() as int),
    {
        v.push(c);
    }
    v
}

/// Builds a `String` from a run of characters (std's `FromIterator<&char>` for `String`).
#[verifier::external_body]
pub(crate) fn string_from_chars(chars: &[char]) -> (s: String)
    ensures
        s@ == chars@,
{
    chars.iter().collect()
}

/// Whether `needle` occurs in `hay` starting at index `at`.
pub fn run_at(hay: &[char], needle: &[char], at: usize) -> (b: bool)
    requires
        at <= hay@.len(),
    ensures
        b == (at + needle@.len() <= hay@.len() && hay@.subrange(at as int, at + needle@.len())
            == needle@),
{
    if needle.len() > hay.len() - at {
        return false;
    }
    let mut k: usize = 0;
    while k < needle.len()
        invariant
            hay.len() == hay@.len(),
            at + needle@.len() <= hay@.len(),
            k <= needle@.len(),
            forall|j: int| 0 <= j < k ==> hay@[at + j] == needle@[j],
        decreases needle@.len() - k,
    {
        if hay[at + k] != needle[k] {
            assert(hay@.subrange(at as int, at + needle@.len())[k as int] != needle@[k as int]);
            return false;
        }
        k = k + 1;
    }
    assert(hay@.subrange(at as int, at + needle@.len()) =~= needle@);
    true
}

/// Whether `needle` occurs anywhere in `hay`.
pub fn contains_run_exec(hay: &[char], needle: &[char]) -> (b: bool)
    ensures
        b == contains_run(hay@, needle@),
{
    let mut i: usize = 0;
    while i < hay.len()
        invariant
            i <= hay@.len(),
            forall|j: int|
                0 <= j < i ==> !(j + needle@.len() <= hay@.len() && #[trigger] hay@.subrange(
                    j,
                    j + needle@.len(),
                ) == needle@),
        decreases hay@.len() - i,
    {
        if run_at(hay, needle, i) {
            return true;
        }
        i = i + 1;
    }
    if run_at(hay, needle, i) {
        return true;
    }
    proof {
        assert forall|j: int|
            0 <= j && j + needle@.len() <= hay@.len() implies #[trigger] hay@.subrange(
            j,
            j + needle@.len(),
        ) != needle@ by {
            if j < i {
            } else {
                assert(j == i);
            }
        }
    }
    false
}

/// Whether the character `c` occurs in `hay`.
pub fn contains_char(hay: &[char], c: char) -> (b: bool)
    ensures
        b == hay@.contains(c),
{
    let mut i: usize = 0;
    while i < hay.len()
        invariant
            i <= hay@.len(),
            forall|j: int| 0 <= j < i ==> hay@[j] != c,
        decreases hay@.len() - i,
    {
        if hay[i] == c {
            assert(hay@[i as int] == c);
            return true;
        }
        i = i + 1;
    }
    false
}

/// `k` is the position of the first `c` in `s`.
pub open spec fn first_at(s: Seq<char>, c: char, k: int) -> bool {
    &&& 0 <= k < s.len()
    &&& s[k] == c
    &&& forall|j: int| 0 <= j < k ==> s[j] != c
}

/// What `str::split_once` gives for a character: the text before the first `c` and the text
/// after it, or nothing when `c` does not occur.
pub open spec fn split_once(s: Seq<char>, c: char) -> Option<(Seq<char>, Seq<char>)> {
    if s.contains(c) {
        let k = choose|k: int| first_at(s, c, k);
        Some((s.subrange(0, k), s.subrange(k + 1, s.len() as int)))
    } else {
        None
    }
}

/// The first occurrence of a character is unique.
pub proof fn lemma_first_at_unique(s: Seq<char>, c: char, k1: int, k2: int)
    requires
        first_at(s, c, k1),
        first_at(s, c, k2),
    ensures
        k1 == k2,
{
    if k1 < k2 {
        assert(s[k1] != c);
    } else if k2 < k1 {
        assert(s[k2] != c);
    }
}

/// Finds the first occurrence of `c`, as `split_once` does.
pub fn find_first(hay: &[char], c: char) -> (r: Option<usize>)
    ensures
        match r {
            Some(k) => first_at(hay@, c, k as int) && split_once(hay@, c) == Some(
                (hay@.subrange(0, k as int), hay@.subrange(k + 1, hay@.len() as int)),
            ),
            None => !hay@.contains(c) && split_once(hay@, c) is None,
        },
{
    let mut i: usize = 0;
    while i < hay.len()
        invariant
            i <= hay@.len(),
            forall|j: int| 0 <= j < i ==> hay@[j] != c,
        decreases hay@.len() - i,
    {
        if hay[i] == c {
            proof {
                assert(first_at(hay@, c, i as int));
                let k = choose|k: int| first_at(hay@, c, k);
                lemma_first_at_unique(hay@, c, k, i as int);
            }
            return Some(i);
        }
        i = i + 1;
    }
    None
}

/// Copies `v[from..to]`.
pub fn copy_range(v: &[char], from: usize, to: usize) -> (r: Vec<char>)
    requires
        from <= to <= v@.len(),
    ensures
        r@ == v@.subrange(from as int, to as int),
{
    let mut r: Vec<char> = Vec::new();
    let mut i: usize = from;
    while i < to
        invariant
            from <= i <= to <= v@.len(),
            r@ == v@.subrange(from as int, i as int),
        decreases to - i,
    {
        r.push(v[i]);
        assert(v@.subrange(from as int, i + 1) =~= v@.subrange(from as int, i as int).push(v@[i as int]));
        i = i + 1;
    }
    r
}

/// Whether `hay` ends with `suffix`.
pub fn ends_with_exec(hay: &[char], suffix: &[char]) -> (b: bool)
    ensures
        b == ends_with(hay@, suffix@),
{
    if suffix.len() > hay.len() {
        return false;
    }
    run_at(hay, suffix, hay.len() - suffix.len())
}

/// Whether `hay` starts with `prefix`.
pub fn starts_with_exec(hay: &[char], prefix: &[char]) -> (b: bool)
    ensures
        b == starts_with(hay@, prefix@),
{
    run_at(hay, prefix, 0)
}

/// What `str::trim_end_matches` leaves of `s` for a fixed pattern: every trailing copy of
/// `suffix` is removed.
pub open spec fn trim_end_matches(s: Seq<char>, suffix: Seq<char>) -> Seq<char>
    decreases s.len(),
{
    if suffix.len() > 0 && ends_with(s, suffix) {
        trim_end_matches(s.subrange(0, s.len() - suffix.len()), suffix)
    } else {
        s
    }
}

/// Removes every trailing copy of `suffix` from `v`, as `str::trim_end_matches` does.
pub fn trim_end_matches_exec(v: &[char], suffix: &[char]) -> (r: Vec<char>)
    ensures
        r@ == trim_end_matches(v@, suffix@),
{
    let mut end: usize = v.len();
    assert(v@.subrange(0, end as int) =~= v@);
    while suffix.len() > 0 && suffix.len() <= end && run_at(v, suffix, end - suffix.len())
        invariant
            end <= v@.len(),
            trim_end_matches(v@.subrange(0, end as int), suffix@) == trim_end_matches(v@, suffix@),
        decreases end,
    {
        let ghost cur = v@.subrange(0, end as int);
        assert(cur.subrange(cur.len() - suffix@.len(), cur.len() as int) =~= v@.subrange(
            end - suffix@.len(),
            end as int,
        ));
        assert(cur.subrange(0, cur.len() - suffix@.len()) =~= v@.subrange(0, end - suffix@.len()));
        end = end - suffix.len();
    }
    proof {
        let cur = v@.subrange(0, end as int);
        if suffix@.len() > 0 && suffix@.len() <= end {
            assert(cur.subrange(cur.len() - suffix@.len(), cur.len() as int) =~= v@.subrange(
                end - suffix@.len(),
                end as int,
            ));
        }
        if end == v@.len() {
            assert(cur =~= v@);
        }
    }
    copy_range(v, 0, end)
}

} // verus!
