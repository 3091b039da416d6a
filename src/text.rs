use vstd::prelude::*;
use vstd::std_specs::iter::IteratorSpec;

verus! {

/// `c` stands at index `i` of `s`, and at no earlier index.
pub open spec fn is_first_char(s: Seq<char>, c: char, i: int) -> bool {
    &&& 0 <= i < s.len()
    &&& s[i] == c
    &&& forall|k: int| 0 <= k < i ==> s[k] != c
}

/// The index of the first `c` in `s`, if any.
pub open spec fn first_char(s: Seq<char>, c: char) -> Option<int> {
    if exists|i: int| is_first_char(s, c, i) {
        Some(choose|i: int| is_first_char(s, c, i))
    } else {
        None
    }
}

/// `p` occurs in `s` starting at index `i`.
pub open spec fn occurs_at(s: Seq<char>, p: Seq<char>, i: int) -> bool {
    0 <= i && i + p.len() <= s.len() && s.subrange(i, i + p.len()) == p
}

/// `p` occurs in `s` at index `i` and at no index in `from..i`.
pub open spec fn is_first_occurrence(s: Seq<char>, p: Seq<char>, from: int, i: int) -> bool {
    &&& from <= i
    &&& occurs_at(s, p, i)
    &&& forall|k: int| from <= k < i ==> !occurs_at(s, p, k)
}

/// The index of the first occurrence of `p` in `s` at or after `from`, if any.
pub open spec fn first_occurrence(s: Seq<char>, p: Seq<char>, from: int) -> Option<int> {
    if exists|i: int| is_first_occurrence(s, p, from, i) {
        Some(choose|i: int| is_first_occurrence(s, p, from, i))
    } else {
        None
    }
}

/// The characters that `char::is_whitespace` accepts (Unicode White_Space).
pub open spec fn is_white(c: char) -> bool {
    let u = c as u32;
    (0x9 <= u <= 0xd) || u == 0x20 || u == 0x85 || u == 0xa0 || u == 0x1680 || (0x2000 <= u
        <= 0x200a) || u == 0x2028 || u == 0x2029 || u == 0x202f || u == 0x205f || u == 0x3000
}

/// `s` without its trailing whitespace.
pub open spec fn trim_end_white(s: Seq<char>) -> Seq<char>
    decreases s.len(),
{
    if s.len() > 0 && is_white(s.last()) {
        trim_end_white(s.drop_last())
    } else {
        s
    }
}

/// `s` without its trailing whitespace, then without one trailing `;`.
pub open spec fn trimmed_statement(s: Seq<char>) -> Seq<char> {
    let t = trim_end_white(s);
    if t.len() > 0 && t.last() == ';' {
        t.drop_last()
    } else {
        t
    }
}

/// The characters of `s`, one entry each.
pub(crate) fn chars_of(s: &str) -> (r: Vec<char>)
    ensures
        r@ == s@,
{
    broadcast use vstd::string::next_postcondition, vstd::string::axiom_spec_iter;

    let mut it = s.chars();
    let mut r: Vec<char> = Vec::new();
    loop
        invariant
            it.obeys_prophetic_iter_laws(),
            r@ + it.remaining() == s@,
            it.decrease() is Some,
        decreases it.decrease()->0,
    {
        match it.next() {
            Some(c) => {
                proof {
                    assert(r@.push(c) + it.remaining() =~= s@);
                }
                r.push(c);
            },
            None => {
                assert(r@ =~= s@);
                return r;
            },
        }
    }
}

/// Relies on collecting characters into a `String`: the string of those characters.
#[verifier::external_body]
pub(crate) fn string_of(v: &[char]) -> (r: String)
    ensures
        r@ == v@,
{
    v.iter().collect()
}

/// What `first_occurrence` gives is an occurrence, the first one from `from`.
pub proof fn lemma_first_occurrence_some(s: Seq<char>, p: Seq<char>, from: int)
    ensures
        first_occurrence(s, p, from) matches Some(i) ==> is_first_occurrence(s, p, from, i),
{
    if exists|i: int| is_first_occurrence(s, p, from, i) {
        let i = choose|i: int| is_first_occurrence(s, p, from, i);
        assert(is_first_occurrence(s, p, from, i));
    }
}

/// What `first_char` gives is the index of the first `c`.
pub proof fn lemma_first_char_some(s: Seq<char>, c: char)
    ensures
        first_char(s, c) matches Some(i) ==> is_first_char(s, c, i),
{
    if exists|i: int| is_first_char(s, c, i) {
        let i = choose|i: int| is_first_char(s, c, i);
        assert(is_first_char(s, c, i));
    }
}

pub proof fn lemma_first_char_unique(s: Seq<char>, c: char, i: int)
    requires
        is_first_char(s, c, i),
    ensures
        first_char(s, c) == Some(i),
{
    let j = choose|j: int| is_first_char(s, c, j);
    assert(is_first_char(s, c, j));
    assert(j == i) by {
        if j < i {
            assert(s[j] != c);
        } else if i < j {
            assert(s[i] != c);
        }
    }
}

proof fn lemma_first_occurrence_unique(s: Seq<char>, p: Seq<char>, from: int, i: int)
    requires
        is_first_occurrence(s, p, from, i),
    ensures
        first_occurrence(s, p, from) == Some(i),
{
    let j = choose|j: int| is_first_occurrence(s, p, from, j);
    assert(is_first_occurrence(s, p, from, j));
    assert(j == i) by {
        if j < i {
            assert(!occurs_at(s, p, j));
        } else if i < j {
            assert(!occurs_at(s, p, i));
        }
    }
}

/// Index of the first `c` in `s` at or after `from`; `None` where there is none.
pub fn find_char(s: &[char], c: char, from: usize) -> (r: Option<usize>)
    requires
        from <= s@.len(),
    ensures
        match r {
            Some(i) => first_char(s@.subrange(from as int, s@.len() as int), c) == Some(i - from),
            None => first_char(s@.subrange(from as int, s@.len() as int), c) is None,
        },
{
    let ghost t = s@.subrange(from as int, s@.len() as int);
    let mut i: usize = from;
    while i < s.len()
        invariant
            from <= i <= s@.len(),
            t == s@.subrange(from as int, s@.len() as int),
            forall|k: int| 0 <= k < i - from ==> t[k] != c,
        decreases s@.len() - i,
    {
        if s[i] == c {
            proof {
                assert(is_first_char(t, c, i - from));
                lemma_first_char_unique(t, c, i - from);
            }
            return Some(i);
        }
        i = i + 1;
    }
    proof {
        if exists|j: int| is_first_char(t, c, j) {
            let j = choose|j: int| is_first_char(t, c, j);
            assert(t[j] != c);
        }
    }
    None
}

/// Whether `p` occurs in `s` at index `i`.
fn matches_at(s: &[char], p: &[char], i: usize) -> (r: bool)
    requires
        i + p@.len() <= s@.len(),
    ensures
        r == occurs_at(s@, p@, i as int),
{
    let n = s.len();
    let mut k: usize = 0;
    while k < p.len()
        invariant
            k <= p@.len(),
            i + p@.len() <= s@.len(),
            n == s@.len(),
            forall|m: int| 0 <= m < k ==> s@[i + m] == p@[m],
        decreases p@.len() - k,
    {
        if s[i + k] != p[k] {
            proof {
                assert(s@.subrange(i as int, i + p@.len())[k as int] != p@[k as int]);
            }
            return false;
        }
        k = k + 1;
    }
    assert(s@.subrange(i as int, i + p@.len()) =~= p@);
    true
}

/// Index of the first occurrence of `p` in `s` at or after `from`; `None` where
/// there is none.
pub fn find_seq(s: &[char], p: &[char], from: usize) -> (r: Option<usize>)
    requires
        from <= s@.len(),
    ensures
        match r {
            Some(i) => first_occurrence(s@, p@, from as int) == Some(i as int),
            None => first_occurrence(s@, p@, from as int) is None,
        },
{
    if p.len() > s.len() {
        proof {
            if exists|j: int| is_first_occurrence(s@, p@, from as int, j) {
                let j = choose|j: int| is_first_occurrence(s@, p@, from as int, j);
                assert(occurs_at(s@, p@, j));
            }
        }
        return None;
    }
    let last: usize = s.len() - p.len();
    let mut i: usize = from;
    if from > last {
        proof {
            if exists|j: int| is_first_occurrence(s@, p@, from as int, j) {
                let j = choose|j: int| is_first_occurrence(s@, p@, from as int, j);
                assert(occurs_at(s@, p@, j));
            }
        }
        return None;
    }
    loop
        invariant
            from <= i <= last,
            last == s@.len() - p@.len(),
            forall|k: int| from <= k < i ==> !occurs_at(s@, p@, k),
        ensures
            forall|k: int| from <= k <= last ==> !occurs_at(s@, p@, k),
        decreases last - i,
    {
        if matches_at(s, p, i) {
            proof {
                lemma_first_occurrence_unique(s@, p@, from as int, i as int);
            }
            return Some(i);
        }
        if i == last {
            break;
        }
        i = i + 1;
    }
    proof {
        if exists|j: int| is_first_occurrence(s@, p@, from as int, j) {
            let j = choose|j: int| is_first_occurrence(s@, p@, from as int, j);
            assert(occurs_at(s@, p@, j));
            assert(j <= last);
        }
    }
    None
}

/// Whether `char::is_whitespace` holds of `c`.
fn is_white_char(c: char) -> (r: bool)
    ensures
        r == is_white(c),
{
    let u = c as u32;
    (0x9 <= u && u <= 0xd) || u == 0x20 || u == 0x85 || u == 0xa0 || u == 0x1680 || (0x2000 <= u
        && u <= 0x200a) || u == 0x2028 || u == 0x2029 || u == 0x202f || u == 0x205f || u == 0x3000
}

/// End of `s[lo..hi]` once trailing whitespace and then one trailing `;` are
/// dropped: `s[lo..r]` is the trimmed statement.
pub fn trim_statement(s: &[char], lo: usize, hi: usize) -> (r: usize)
    requires
        lo <= hi <= s@.len(),
    ensures
        lo <= r <= hi,
        s@.subrange(lo as int, r as int) == trimmed_statement(s@.subrange(lo as int, hi as int)),
{
    let mut e: usize = hi;
    while e > lo && is_white_char(s[e - 1])
        invariant
            lo <= e <= hi <= s@.len(),
            trim_end_white(s@.subrange(lo as int, e as int)) == trim_end_white(
                s@.subrange(lo as int, hi as int),
            ),
        decreases e,
    {
        proof {
            let t = s@.subrange(lo as int, e as int);
            assert(t.drop_last() =~= s@.subrange(lo as int, e - 1));
        }
        e = e - 1;
    }
    let ghost t = s@.subrange(lo as int, e as int);
    assert(trim_end_white(t) == t);
    if e > lo && s[e - 1] == ';' {
        assert(t.drop_last() =~= s@.subrange(lo as int, e - 1));
        e - 1
    } else {
        e
    }
}

} // verus!
