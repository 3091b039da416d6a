use vstd::prelude::*;
use vstd::string::StringExecFns;

use crate::text::{is_white, chars_of, find_seq, first_occurrence, lemma_first_occurrence_some, string_of, trim_statement, trimmed_statement};

verus! {

/// Why a marked region could not be taken out of a document.
#[derive(Debug, Clone)]
pub enum ExtractError {
    /// The marker, given in full, does not occur where it was looked for.
    MarkerNotFound(String),
}

/// Bounds of the text strictly between the first `a` at or after `from` and the
/// first `b` after that `a`; or the marker that is missing.
pub open spec fn locate(doc: Seq<char>, from: int, a: Seq<char>, b: Seq<char>) -> Result<
    (int, int),
    Seq<char>,
> {
    match first_occurrence(doc, a, from) {
        None => Err(a),
        Some(i) => match first_occurrence(doc, b, i + a.len()) {
            None => Err(b),
            Some(j) => Ok((i + a.len(), j)),
        },
    }
}

/// The text strictly between the first `a` at or after `from` and the first `b`
/// after it, untrimmed; or the marker that is missing.
pub open spec fn between(doc: Seq<char>, from: int, a: Seq<char>, b: Seq<char>) -> Result<
    Seq<char>,
    Seq<char>,
> {
    match locate(doc, from, a, b) {
        Ok((lo, hi)) => Ok(doc.subrange(lo, hi)),
        Err(m) => Err(m),
    }
}

/// What `extract_between` gives: the text between the markers with trailing
/// whitespace and one trailing `;` dropped; or the marker that is missing.
pub open spec fn extracted(doc: Seq<char>, from: int, a: Seq<char>, b: Seq<char>) -> Result<
    Seq<char>,
    Seq<char>,
> {
    match between(doc, from, a, b) {
        Ok(t) => Ok(trimmed_statement(t)),
        Err(m) => Err(m),
    }
}

/// Extraction gives exactly the text strictly between the first `a` and the
/// first `b` after it, wherever that text does not end in whitespace or `;`;
/// and where `a` occurs with no `b` after it, it names `b` as missing.
pub proof fn lemma_extract_exact(doc: Seq<char>, a: Seq<char>, b: Seq<char>)
    ensures
        match between(doc, 0, a, b) {
            Ok(t) => !(t.len() > 0 && (is_white(t.last()) || t.last() == ';')) ==> extracted(
                doc,
                0,
                a,
                b,
            ) == Ok::<Seq<char>, Seq<char>>(t),
            Err(_) => true,
        },
        match first_occurrence(doc, a, 0) {
            Some(i) => first_occurrence(doc, b, i + a.len()) is None ==> extracted(doc, 0, a, b)
                == Err::<Seq<char>, Seq<char>>(b),
            None => true,
        },
{
}

/// `r` is the extraction result that `e` describes.
pub open spec fn extract_result_is(r: Result<String, ExtractError>, e: Result<Seq<char>, Seq<char>>) -> bool {
    match (r, e) {
        (Ok(x), Ok(y)) => x@ == y,
        (Err(ExtractError::MarkerNotFound(m)), Err(y)) => m@ == y,
        _ => false,
    }
}

/// Finds the region between `a` and `b` in `doc`, searching from `from`.
pub(crate) fn locate_region(doc: &[char], from: usize, a: &str, b: &str) -> (r: Result<
    (usize, usize),
    ExtractError,
>)
    requires
        from <= doc@.len(),
    ensures
        match (r, locate(doc@, from as int, a@, b@)) {
            (Ok((lo, hi)), Ok((l, h))) => lo == l && hi == h && lo <= hi <= doc@.len(),
            (Err(ExtractError::MarkerNotFound(m)), Err(x)) => m@ == x,
            _ => false,
        },
{
    let n = doc.len();
    let ac = chars_of(a);
    match find_seq(doc, ac.as_slice(), from) {
        None => Err(ExtractError::MarkerNotFound(String::from_str(a))),
        Some(i) => {
            proof {
                lemma_first_occurrence_some(doc@, a@, from as int);
            }
            let lo = i + ac.len();
            let bc = chars_of(b);
            match find_seq(doc, bc.as_slice(), lo) {
                None => Err(ExtractError::MarkerNotFound(String::from_str(b))),
                Some(j) => {
                    proof {
                        lemma_first_occurrence_some(doc@, b@, lo as int);
                    }
                    Ok((lo, j))
                },
            }
        },
    }
}

/// Takes out the text strictly between the first `start_marker` in `doc` and the
/// first `end_marker` after it, with trailing whitespace and one trailing `;`
/// dropped. Fails with the marker that is missing.
pub fn extract_between(doc: &str, start_marker: &str, end_marker: &str) -> (r: Result<
    String,
    ExtractError,
>)
    ensures
        extract_result_is(r, extracted(doc@, 0, start_marker@, end_marker@)),
{
    let dc = chars_of(doc);
    match locate_region(dc.as_slice(), 0, start_marker, end_marker) {
        Ok((lo, hi)) => {
            let e = trim_statement(dc.as_slice(), lo, hi);
            Ok(string_of(slice_range(dc.as_slice(), lo, e).as_slice()))
        },
        Err(err) => Err(err),
    }
}

/// The entries `v[lo..hi]`.
pub(crate) fn slice_range(v: &[char], lo: usize, hi: usize) -> (r: Vec<char>)
    requires
        lo <= hi <= v@.len(),
    ensures
        r@ == v@.subrange(lo as int, hi as int),
{
    let mut r: Vec<char> = Vec::new();
    let mut i: usize = lo;
    while i < hi
        invariant
            lo <= i <= hi <= v@.len(),
            r@ == v@.subrange(lo as int, i as int),
        decreases hi - i,
    {
        r.push(v[i]);
        proof {
            assert(r@ =~= v@.subrange(lo as int, i + 1));
        }
        i = i + 1;
    }
    r
}

} // verus!
