use vstd::prelude::*;

use crate::extract::{locate, locate_region, slice_range, ExtractError};
use crate::text::{chars_of, string_of, trim_statement, trimmed_statement};

verus! {

/// Marker that opens the label list in the station page.
pub const STATION_LIST_MARKER: &'static str = "stationList = ";

/// Marker that closes the label list and opens the code list.
pub const STATION_CODING_MARKER: &'static str = "stationCoding = ";

/// Marker of the unrelated list that closes the code list.
pub const LOCALIZATION_MARKER: &'static str = "localization";

/// A code record of the station page: the station's code and URL slug.
#[derive(Debug, Clone)]
pub struct StationCode {
    code: String,
    url_coding: String,
}

pub struct CodeView {
    pub code: Seq<char>,
    pub url_coding: Seq<char>,
}

impl View for StationCode {
    type V = CodeView;

    closed spec fn view(&self) -> CodeView {
        CodeView { code: self.code@, url_coding: self.url_coding@ }
    }
}

impl StationCode {
    pub fn new(code: String, url_coding: String) -> (r: StationCode)
        ensures
            r@ == (CodeView { code: code@, url_coding: url_coding@ }),
    {
        StationCode { code, url_coding }
    }

    pub fn code(&self) -> (r: &String)
        ensures
            r@ == self@.code,
    {
        &self.code
    }

    pub fn url_coding(&self) -> (r: &String)
        ensures
            r@ == self@.url_coding,
    {
        &self.url_coding
    }
}

/// A label record of the station page: a station's code (`value`) and its
/// display name (`label`).
#[derive(Debug, Clone)]
pub struct StationLabel {
    label: String,
    value: String,
}

pub struct LabelView {
    pub label: Seq<char>,
    pub value: Seq<char>,
}

impl View for StationLabel {
    type V = LabelView;

    closed spec fn view(&self) -> LabelView {
        LabelView { label: self.label@, value: self.value@ }
    }
}

impl StationLabel {
    pub fn new(label: String, value: String) -> (r: StationLabel)
        ensures
            r@ == (LabelView { label: label@, value: value@ }),
    {
        StationLabel { label, value }
    }

    pub fn label(&self) -> (r: &String)
        ensures
            r@ == self@.label,
    {
        &self.label
    }

    pub fn value(&self) -> (r: &String)
        ensures
            r@ == self@.value,
    {
        &self.value
    }
}

/// Station metadata.
#[derive(Debug, Clone)]
pub struct Station {
    /// Internal service ID.
    code: String,
    /// Partial URL of the station's page.
    url_coding: String,
    /// Human friendly station name.
    name: String,
}

pub struct StationView {
    pub code: Seq<char>,
    pub url_coding: Seq<char>,
    pub name: Seq<char>,
}

impl View for Station {
    type V = StationView;

    closed spec fn view(&self) -> StationView {
        StationView { code: self.code@, url_coding: self.url_coding@, name: self.name@ }
    }
}

impl Station {
    pub fn new(code: String, url_coding: String, name: String) -> (r: Station)
        ensures
            r@ == (StationView { code: code@, url_coding: url_coding@, name: name@ }),
    {
        Station { code, url_coding, name }
    }

    pub fn code(&self) -> (r: &String)
        ensures
            r@ == self@.code,
    {
        &self.code
    }

    pub fn url_coding(&self) -> (r: &String)
        ensures
            r@ == self@.url_coding,
    {
        &self.url_coding
    }

    pub fn name(&self) -> (r: &String)
        ensures
            r@ == self@.name,
    {
        &self.name
    }
}

/// The label of the last label record whose value is `code`; empty where none is.
pub open spec fn label_for(labels: Seq<LabelView>, code: Seq<char>) -> Seq<char>
    decreases labels.len(),
{
    if labels.len() == 0 {
        Seq::empty()
    } else if labels.last().value == code {
        labels.last().label
    } else {
        label_for(labels.drop_last(), code)
    }
}

/// The station that code record `c` gives, named from `labels`.
pub open spec fn station_of(labels: Seq<LabelView>, c: CodeView) -> StationView {
    StationView { code: c.code, url_coding: c.url_coding, name: label_for(labels, c.code) }
}

pub open spec fn has_name(s: StationView) -> bool {
    s.name.len() > 0
}

/// The catalog: one station per code record, in the order of the code records,
/// without those whose name is empty.
pub open spec fn catalog(labels: Seq<LabelView>, codes: Seq<CodeView>) -> Seq<StationView> {
    codes.map_values(|c: CodeView| station_of(labels, c)).filter(|s: StationView| has_name(s))
}

pub open spec fn label_views(labels: Seq<StationLabel>) -> Seq<LabelView> {
    labels.map_values(|l: StationLabel| l@)
}

pub open spec fn code_views(codes: Seq<StationCode>) -> Seq<CodeView> {
    codes.map_values(|c: StationCode| c@)
}

pub open spec fn station_views(stations: Seq<Station>) -> Seq<StationView> {
    stations.map_values(|s: Station| s@)
}

/// The name that `labels` gives to `code`: the last matching label wins.
fn lookup_label(labels: &Vec<StationLabel>, code: &String) -> (r: String)
    ensures
        r@ == label_for(label_views(labels@), code@),
{
    let ghost all = label_views(labels@);
    let mut i: usize = labels.len();
    proof {
        assert(all.subrange(0, i as int) =~= all);
    }
    while i > 0
        invariant
            i <= labels@.len(),
            all == label_views(labels@),
            label_for(all.subrange(0, i as int), code@) == label_for(all, code@),
        decreases i,
    {
        let ghost part = all.subrange(0, i as int);
        assert(part.last() == labels@[i - 1]@);
        assert(part.drop_last() =~= all.subrange(0, i - 1));
        if labels[i - 1].value == *code {
            return labels[i - 1].label.clone();
        }
        i = i - 1;
    }
    assert(all.subrange(0, 0) =~= Seq::<LabelView>::empty());
    String::new()
}

/// Joins the code records with the label records into the station catalog:
/// one station per code record, in order, named by the last label record with
/// the same code, and only those whose name is not empty.
pub fn build_stations(labels: &Vec<StationLabel>, codes: &Vec<StationCode>) -> (r: Vec<Station>)
    ensures
        station_views(r@) == catalog(label_views(labels@), code_views(codes@)),
{
    let ghost lv = label_views(labels@);
    let ghost cv = code_views(codes@);
    let ghost f = |c: CodeView| station_of(lv, c);
    let ghost p = |s: StationView| has_name(s);
    let mut out: Vec<Station> = Vec::new();
    let mut i: usize = 0;
    proof {
        reveal(Seq::filter);
        assert(cv.subrange(0, 0).map_values(f) =~= Seq::<StationView>::empty());
        assert(station_views(out@) =~= Seq::<StationView>::empty());
    }
    while i < codes.len()
        invariant
            i <= codes@.len(),
            lv == label_views(labels@),
            cv == code_views(codes@),
            f == (|c: CodeView| station_of(lv, c)),
            p == (|s: StationView| has_name(s)),
            station_views(out@) == cv.subrange(0, i as int).map_values(f).filter(p),
        decreases codes@.len() - i,
    {
        let c = &codes[i];
        let name = lookup_label(labels, &c.code);
        let ghost prev = cv.subrange(0, i as int).map_values(f);
        let ghost next = cv.subrange(0, i + 1).map_values(f);
        proof {
            reveal(Seq::filter);
            assert(next.drop_last() =~= prev);
            assert(next.last() == f(codes@[i as int]@));
        }
        if !name.as_str().is_empty() {
            let s = Station { code: c.code.clone(), url_coding: c.url_coding.clone(), name };
            let ghost before = out@;
            out.push(s);
            proof {
                assert(station_views(out@) =~= station_views(before).push(s@));
            }
        }
        i = i + 1;
    }
    proof {
        assert(cv.subrange(0, codes@.len() as int) =~= cv);
    }
    out
}

/// `idx` picks, for each station of the catalog, the code record it came from,
/// at strictly increasing positions.
pub open spec fn drawn_in_order(labels: Seq<LabelView>, codes: Seq<CodeView>, idx: Seq<int>) -> bool {
    let cat = catalog(labels, codes);
    &&& idx.len() == cat.len()
    &&& forall|k: int| 0 <= k < idx.len() ==> 0 <= #[trigger] idx[k] < codes.len()
    &&& forall|k: int| 0 <= k < idx.len() ==> #[trigger] cat[k] == station_of(labels, codes[idx[k]])
    &&& forall|j: int, k: int| 0 <= j < k < idx.len() ==> #[trigger] idx[j] < #[trigger] idx[k]
}

/// The catalog holds no station with an empty name, and its stations come in
/// the order of the code records they were built from: the result names, for
/// each station, the position of its code record.
pub proof fn lemma_catalog_named_in_order(labels: Seq<LabelView>, codes: Seq<CodeView>) -> (idx: Seq<int>)
    ensures
        forall|k: int| 0 <= k < catalog(labels, codes).len() ==> has_name(
            #[trigger] catalog(labels, codes)[k],
        ),
        drawn_in_order(labels, codes, idx),
    decreases codes.len(),
{
    reveal(Seq::filter);
    let f = |c: CodeView| station_of(labels, c);
    let p = |s: StationView| has_name(s);
    if codes.len() == 0 {
        assert(codes.map_values(f) =~= Seq::<StationView>::empty());
        Seq::empty()
    } else {
        let front = codes.drop_last();
        let prev = lemma_catalog_named_in_order(labels, front);
        let m = codes.map_values(f);
        assert(m.drop_last() =~= front.map_values(f));
        let pc = catalog(labels, front);
        let cat = catalog(labels, codes);
        if has_name(station_of(labels, codes.last())) {
            assert(cat == pc.push(m.last()));
            let idx = prev.push(codes.len() - 1);
            assert forall|k: int| 0 <= k < idx.len() implies #[trigger] cat[k] == station_of(labels, codes[idx[k]]) by {
                if k < prev.len() {
                    assert(codes[prev[k]] == front[prev[k]]);
                }
            }
            idx
        } else {
            assert(cat == pc);
            assert forall|k: int| 0 <= k < prev.len() implies #[trigger] cat[k] == station_of(labels, codes[prev[k]]) by {
                assert(codes[prev[k]] == front[prev[k]]);
            }
            prev
        }
    }
}

/// The two regions of the station page: the label list (between the list and
/// coding markers) and the code list (between the coding marker and the
/// localization marker), each trimmed; or the marker that is missing.
pub open spec fn station_regions_of(doc: Seq<char>) -> Result<(Seq<char>, Seq<char>), Seq<char>> {
    match locate(doc, 0, STATION_LIST_MARKER@, STATION_CODING_MARKER@) {
        Err(m) => Err(m),
        Ok((lo, hi)) => match locate(doc, hi, STATION_CODING_MARKER@, LOCALIZATION_MARKER@) {
            Err(m) => Err(m),
            Ok((lo2, hi2)) => Ok(
                (trimmed_statement(doc.subrange(lo, hi)), trimmed_statement(doc.subrange(lo2, hi2))),
            ),
        },
    }
}

/// Takes the label-list and code-list texts out of the station page.
pub fn station_regions(doc: &str) -> (r: Result<(String, String), ExtractError>)
    ensures
        match (r, station_regions_of(doc@)) {
            (Ok((l, c)), Ok((x, y))) => l@ == x && c@ == y,
            (Err(ExtractError::MarkerNotFound(m)), Err(x)) => m@ == x,
            _ => false,
        },
{
    let dc = chars_of(doc);
    let d = dc.as_slice();
    match locate_region(d, 0, STATION_LIST_MARKER, STATION_CODING_MARKER) {
        Err(e) => Err(e),
        Ok((lo, hi)) => match locate_region(d, hi, STATION_CODING_MARKER, LOCALIZATION_MARKER) {
            Err(e) => Err(e),
            Ok((lo2, hi2)) => {
                let e1 = trim_statement(d, lo, hi);
                let e2 = trim_statement(d, lo2, hi2);
                let labels = string_of(slice_range(d, lo, e1).as_slice());
                let codes = string_of(slice_range(d, lo2, e2).as_slice());
                Ok((labels, codes))
            },
        },
    }
}

/// Arrival and departure boards of a station.
#[derive(Debug, Clone)]
pub struct StationRealtime {
    pub arrival_board: Vec<StationTrainRealtime>,
    pub departure_board: Vec<StationTrainRealtime>,
}

/// A train during its stay at a station.
#[derive(Debug, Clone)]
pub struct StationTrainRealtime {
    /// Train number.
    pub number: String,
    /// Where the train ends.
    pub destination: String,
    /// Scheduled time.
    pub scheduled_time: String,
    /// Expected time.
    pub forecast_time: String,
    pub platform: String,
    pub description: String,
}

} // verus!
