use vstd::prelude::*;
use vstd::string::StringExecFns;

use crate::station::Station;
use crate::timestamp::{
    date_result_is, decoded_date, decoded_date_time, encode_date_time, encoded, extract_date,
    extract_utc_time, time_result_is, CalendarDate, TimestampError, UtcDateTime,
};

verus! {

/// Source-system identifier sent with a journey search.
pub const SEARCH_SOURCE_SYSTEM: u8 = 2;

/// Round-trip request: the flag, then the start and the end of the return
/// window.
pub type RoundTrip = (bool, Option<UtcDateTime>, Option<UtcDateTime>);

/// A round trip was asked for without both ends of the return window.
#[derive(Debug, Clone, Copy, PartialEq, Eq, Structural)]
pub struct RoundTripError {
    pub start: Option<UtcDateTime>,
    pub end: Option<UtcDateTime>,
}

/// The state of a journey search request.
pub struct JourneyRequestView {
    pub departure_station: Seq<char>,
    pub arrival_station: Seq<char>,
    pub interval_start_date_time: Seq<char>,
    pub interval_end_date_time: Seq<char>,
    pub adult_number: u8,
    pub child_number: u8,
    pub infant_number: u8,
    pub senior_number: u8,
    pub override_interval_time_restriction: bool,
    pub currency_code: Seq<char>,
    pub is_guest: bool,
    pub round_trip: bool,
    pub round_trip_interval_start_date_time: Option<Seq<char>>,
    pub round_trip_interval_end_date_time: Option<Seq<char>>,
}

impl JourneyRequestView {
    /// Round-trip fields are both set on a round trip and both unset otherwise.
    pub open spec fn wf(self) -> bool {
        if self.round_trip {
            self.round_trip_interval_start_date_time is Some
                && self.round_trip_interval_end_date_time is Some
        } else {
            self.round_trip_interval_start_date_time is None
                && self.round_trip_interval_end_date_time is None
        }
    }
}

pub open spec fn opt_view(o: Option<String>) -> Option<Seq<char>> {
    match o {
        Some(s) => Some(s@),
        None => None,
    }
}

/// Input of a journey search.
#[derive(Debug)]
pub struct JourneyRequest {
    departure_station: String,
    arrival_station: String,
    interval_start_date_time: String,
    interval_end_date_time: String,
    adult_number: u8,
    child_number: u8,
    infant_number: u8,
    senior_number: u8,
    override_interval_time_restriction: bool,
    currency_code: String,
    is_guest: bool,
    round_trip: bool,
    round_trip_interval_start_date_time: Option<String>,
    round_trip_interval_end_date_time: Option<String>,
}

impl View for JourneyRequest {
    type V = JourneyRequestView;

    closed spec fn view(&self) -> JourneyRequestView {
        JourneyRequestView {
            departure_station: self.departure_station@,
            arrival_station: self.arrival_station@,
            interval_start_date_time: self.interval_start_date_time@,
            interval_end_date_time: self.interval_end_date_time@,
            adult_number: self.adult_number,
            child_number: self.child_number,
            infant_number: self.infant_number,
            senior_number: self.senior_number,
            override_interval_time_restriction: self.override_interval_time_restriction,
            currency_code: self.currency_code@,
            is_guest: self.is_guest,
            round_trip: self.round_trip,
            round_trip_interval_start_date_time: opt_view(self.round_trip_interval_start_date_time),
            round_trip_interval_end_date_time: opt_view(self.round_trip_interval_end_date_time),
        }
    }
}

impl Default for JourneyRequest {
    /// Empty stations and window, one adult, no other passengers, euro, as a
    /// guest, one way.
    fn default() -> (r: JourneyRequest)
        ensures
            r@.departure_station.len() == 0,
            r@.arrival_station.len() == 0,
            r@.interval_start_date_time.len() == 0,
            r@.interval_end_date_time.len() == 0,
            r@.adult_number == 1,
            r@.child_number == 0,
            r@.infant_number == 0,
            r@.senior_number == 0,
            !r@.override_interval_time_restriction,
            r@.currency_code == seq!['E', 'U', 'R'],
            r@.is_guest,
            !r@.round_trip,
            r@.round_trip_interval_start_date_time is None,
            r@.round_trip_interval_end_date_time is None,
            r@.wf(),
    {
        let currency = String::from_str("EUR");
        proof {
            reveal_strlit("EUR");
        }
        JourneyRequest {
            departure_station: String::new(),
            arrival_station: String::new(),
            interval_start_date_time: String::new(),
            interval_end_date_time: String::new(),
            adult_number: 1,
            child_number: 0,
            infant_number: 0,
            senior_number: 0,
            override_interval_time_restriction: false,
            currency_code: currency,
            is_guest: true,
            round_trip: false,
            round_trip_interval_start_date_time: None,
            round_trip_interval_end_date_time: None,
        }
    }
}

impl JourneyRequest {
    /// Sets the departure station: its code is stored.
    pub fn set_departure_station(&mut self, val: Station) -> (r: &mut JourneyRequest)
        ensures
            r@ == (JourneyRequestView { departure_station: val@.code, ..old(self)@ }),
            *final(self) == *final(r),
    {
        self.departure_station = val.code().clone();
        self
    }

    /// Sets the arrival station: its code is stored.
    pub fn set_arrival_station(&mut self, val: Station) -> (r: &mut JourneyRequest)
        ensures
            r@ == (JourneyRequestView { arrival_station: val@.code, ..old(self)@ }),
            *final(self) == *final(r),
    {
        self.arrival_station = val.code().clone();
        self
    }

    /// Sets the start of the search window, encoded.
    pub fn set_interval_start_date_time(&mut self, val: UtcDateTime) -> (r: &mut JourneyRequest)
        ensures
            r@ == (JourneyRequestView {
                interval_start_date_time: encoded(val.millis() / 1000),
                ..old(self)@
            }),
            *final(self) == *final(r),
    {
        self.interval_start_date_time = encode_date_time(&val);
        self
    }

    /// Sets the end of the search window, encoded.
    pub fn set_interval_end_date_time(&mut self, val: UtcDateTime) -> (r: &mut JourneyRequest)
        ensures
            r@ == (JourneyRequestView {
                interval_end_date_time: encoded(val.millis() / 1000),
                ..old(self)@
            }),
            *final(self) == *final(r),
    {
        self.interval_end_date_time = encode_date_time(&val);
        self
    }

    /// Sets the number of adults.
    pub fn set_adult_number(&mut self, val: u8) -> (r: &mut JourneyRequest)
        ensures
            r@ == (JourneyRequestView { adult_number: val, ..old(self)@ }),
            *final(self) == *final(r),
    {
        self.adult_number = val;
        self
    }

    /// Sets the number of children.
    pub fn set_child_number(&mut self, val: u8) -> (r: &mut JourneyRequest)
        ensures
            r@ == (JourneyRequestView { child_number: val, ..old(self)@ }),
            *final(self) == *final(r),
    {
        self.child_number = val;
        self
    }

    /// Sets the number of infants.
    pub fn set_infant_number(&mut self, val: u8) -> (r: &mut JourneyRequest)
        ensures
            r@ == (JourneyRequestView { infant_number: val, ..old(self)@ }),
            *final(self) == *final(r),
    {
        self.infant_number = val;
        self
    }

    /// Sets the number of seniors.
    pub fn set_senior_number(&mut self, val: u8) -> (r: &mut JourneyRequest)
        ensures
            r@ == (JourneyRequestView { senior_number: val, ..old(self)@ }),
            *final(self) == *final(r),
    {
        self.senior_number = val;
        self
    }

    /// Sets whether the search window is to be ignored.
    pub fn set_override_interval_time_restriction(&mut self, val: bool) -> (r: &mut JourneyRequest)
        ensures
            r@ == (JourneyRequestView { override_interval_time_restriction: val, ..old(self)@ }),
            *final(self) == *final(r),
    {
        self.override_interval_time_restriction = val;
        self
    }

    /// Sets the currency of the amounts.
    pub fn set_currency_code(&mut self, val: String) -> (r: &mut JourneyRequest)
        ensures
            r@ == (JourneyRequestView { currency_code: val@, ..old(self)@ }),
            *final(self) == *final(r),
    {
        self.currency_code = val;
        self
    }

    /// Sets the round-trip data. With the flag unset both return-window fields
    /// are cleared, whatever dates are passed. With the flag set and both dates
    /// given, both are stored, encoded. With the flag set and a date missing,
    /// the request is left as it was and the dates given are returned in the
    /// error.
    pub fn set_round_trip(&mut self, val: RoundTrip) -> (r: Result<&mut JourneyRequest, RoundTripError>)
        ensures
            r is Ok <==> (!val.0 || (val.1 is Some && val.2 is Some)),
            r matches Ok(x) ==> x@.wf(),
            match r {
                Ok(x) => *final(self) == *final(x) && x@ == (if val.0 {
                    JourneyRequestView {
                        round_trip: true,
                        round_trip_interval_start_date_time: Some(
                            encoded(val.1->Some_0.millis() / 1000),
                        ),
                        round_trip_interval_end_date_time: Some(
                            encoded(val.2->Some_0.millis() / 1000),
                        ),
                        ..old(self)@
                    }
                } else {
                    JourneyRequestView {
                        round_trip: false,
                        round_trip_interval_start_date_time: None,
                        round_trip_interval_end_date_time: None,
                        ..old(self)@
                    }
                }),
                Err(e) => e == (RoundTripError { start: val.1, end: val.2 }) && *final(self)
                    == *old(self),
            },
    {
        match val {
            (false, _, _) => {
                self.round_trip = false;
                self.round_trip_interval_start_date_time = None;
                self.round_trip_interval_end_date_time = None;
                Ok(self)
            },
            (true, Some(start), Some(end)) => {
                self.round_trip = true;
                self.round_trip_interval_start_date_time = Some(encode_date_time(&start));
                self.round_trip_interval_end_date_time = Some(encode_date_time(&end));
                Ok(self)
            },
            (true, start, end) => Err(RoundTripError { start, end }),
        }
    }

    /// The fields of the outbound payload, in order; the round-trip window
    /// fields appear only when set.
    pub fn payload_fields(&self) -> (r: Vec<(RequestField, FieldValue)>)
        ensures
            field_views(r@) == payload(self@),
    {
        let mut v: Vec<(RequestField, FieldValue)> = Vec::new();
        v.push((RequestField::DepartureStation, FieldValue::Text(self.departure_station.clone())));
        v.push((RequestField::ArrivalStation, FieldValue::Text(self.arrival_station.clone())));
        v.push(
            (
                RequestField::IntervalStartDateTime,
                FieldValue::Text(self.interval_start_date_time.clone()),
            ),
        );
        v.push(
            (
                RequestField::IntervalEndDateTime,
                FieldValue::Text(self.interval_end_date_time.clone()),
            ),
        );
        v.push((RequestField::AdultNumber, FieldValue::Count(self.adult_number)));
        v.push((RequestField::ChildNumber, FieldValue::Count(self.child_number)));
        v.push((RequestField::InfantNumber, FieldValue::Count(self.infant_number)));
        v.push((RequestField::SeniorNumber, FieldValue::Count(self.senior_number)));
        v.push(
            (
                RequestField::OverrideIntervalTimeRestriction,
                FieldValue::Flag(self.override_interval_time_restriction),
            ),
        );
        v.push((RequestField::CurrencyCode, FieldValue::Text(self.currency_code.clone())));
        v.push((RequestField::IsGuest, FieldValue::Flag(self.is_guest)));
        v.push((RequestField::RoundTrip, FieldValue::Flag(self.round_trip)));
        match &self.round_trip_interval_start_date_time {
            Some(x) => v.push(
                (RequestField::RoundTripIntervalStartDateTime, FieldValue::Text(x.clone())),
            ),
            None => {},
        }
        match &self.round_trip_interval_end_date_time {
            Some(x) => v.push(
                (RequestField::RoundTripIntervalEndDateTime, FieldValue::Text(x.clone())),
            ),
            None => {},
        }
        assert(field_views(v@) =~= payload(self@));
        v
    }
}


/// The key under which a field is written in the payload: its name.
pub open spec fn field_key(f: RequestField) -> Seq<char> {
    match f {
        RequestField::DepartureStation => "DepartureStation"@,
        RequestField::ArrivalStation => "ArrivalStation"@,
        RequestField::IntervalStartDateTime => "IntervalStartDateTime"@,
        RequestField::IntervalEndDateTime => "IntervalEndDateTime"@,
        RequestField::AdultNumber => "AdultNumber"@,
        RequestField::ChildNumber => "ChildNumber"@,
        RequestField::InfantNumber => "InfantNumber"@,
        RequestField::SeniorNumber => "SeniorNumber"@,
        RequestField::OverrideIntervalTimeRestriction => "OverrideIntervalTimeRestriction"@,
        RequestField::CurrencyCode => "CurrencyCode"@,
        RequestField::IsGuest => "IsGuest"@,
        RequestField::RoundTrip => "RoundTrip"@,
        RequestField::RoundTripIntervalStartDateTime => "RoundTripIntervalStartDateTime"@,
        RequestField::RoundTripIntervalEndDateTime => "RoundTripIntervalEndDateTime"@,
    }
}

/// The fields of a journey search request, by their names in the payload.
#[derive(Debug, Clone, Copy, PartialEq, Eq, Structural)]
pub enum RequestField {
    DepartureStation,
    ArrivalStation,
    IntervalStartDateTime,
    IntervalEndDateTime,
    AdultNumber,
    ChildNumber,
    InfantNumber,
    SeniorNumber,
    OverrideIntervalTimeRestriction,
    CurrencyCode,
    IsGuest,
    RoundTrip,
    RoundTripIntervalStartDateTime,
    RoundTripIntervalEndDateTime,
}

impl RequestField {
    /// The field's key in the payload.
    pub fn key(&self) -> (r: &'static str)
        ensures
            r@ == field_key(*self),
    {
        match self {
            RequestField::DepartureStation => "DepartureStation",
            RequestField::ArrivalStation => "ArrivalStation",
            RequestField::IntervalStartDateTime => "IntervalStartDateTime",
            RequestField::IntervalEndDateTime => "IntervalEndDateTime",
            RequestField::AdultNumber => "AdultNumber",
            RequestField::ChildNumber => "ChildNumber",
            RequestField::InfantNumber => "InfantNumber",
            RequestField::SeniorNumber => "SeniorNumber",
            RequestField::OverrideIntervalTimeRestriction => "OverrideIntervalTimeRestriction",
            RequestField::CurrencyCode => "CurrencyCode",
            RequestField::IsGuest => "IsGuest",
            RequestField::RoundTrip => "RoundTrip",
            RequestField::RoundTripIntervalStartDateTime => "RoundTripIntervalStartDateTime",
            RequestField::RoundTripIntervalEndDateTime => "RoundTripIntervalEndDateTime",
        }
    }
}

/// The keys of the search envelope.
#[derive(Debug, Clone, Copy, PartialEq, Eq, Structural)]
pub enum EnvelopeField {
    /// The session token.
    Signature,
    /// The source-system identifier.
    SourceSystem,
    /// The request, an object of its payload fields.
    GetAvailableTrains,
}

/// The key under which an envelope entry is written.
pub open spec fn envelope_key(f: EnvelopeField) -> Seq<char> {
    match f {
        EnvelopeField::Signature => "Signature"@,
        EnvelopeField::SourceSystem => "SourceSystem"@,
        EnvelopeField::GetAvailableTrains => "GetAvailableTrains"@,
    }
}

impl EnvelopeField {
    /// The entry's key in the envelope.
    pub fn key(&self) -> (r: &'static str)
        ensures
            r@ == envelope_key(*self),
    {
        match self {
            EnvelopeField::Signature => "Signature",
            EnvelopeField::SourceSystem => "SourceSystem",
            EnvelopeField::GetAvailableTrains => "GetAvailableTrains",
        }
    }
}

/// A value of the payload.
#[derive(Debug, Clone)]
pub enum FieldValue {
    Text(String),
    Count(u8),
    Flag(bool),
}

pub enum FieldValueView {
    Text(Seq<char>),
    Count(u8),
    Flag(bool),
}

impl View for FieldValue {
    type V = FieldValueView;

    open spec fn view(&self) -> FieldValueView {
        match self {
            FieldValue::Text(s) => FieldValueView::Text(s@),
            FieldValue::Count(n) => FieldValueView::Count(*n),
            FieldValue::Flag(b) => FieldValueView::Flag(*b),
        }
    }
}

pub open spec fn field_views(v: Seq<(RequestField, FieldValue)>) -> Seq<(RequestField, FieldValueView)> {
    v.map_values(|p: (RequestField, FieldValue)| (p.0, p.1@))
}

/// The payload of a request in state `v`: every field in order, the
/// round-trip window fields only where set.
pub open spec fn payload(v: JourneyRequestView) -> Seq<(RequestField, FieldValueView)> {
    seq![
        (RequestField::DepartureStation, FieldValueView::Text(v.departure_station)),
        (RequestField::ArrivalStation, FieldValueView::Text(v.arrival_station)),
        (RequestField::IntervalStartDateTime, FieldValueView::Text(v.interval_start_date_time)),
        (RequestField::IntervalEndDateTime, FieldValueView::Text(v.interval_end_date_time)),
        (RequestField::AdultNumber, FieldValueView::Count(v.adult_number)),
        (RequestField::ChildNumber, FieldValueView::Count(v.child_number)),
        (RequestField::InfantNumber, FieldValueView::Count(v.infant_number)),
        (RequestField::SeniorNumber, FieldValueView::Count(v.senior_number)),
        (
            RequestField::OverrideIntervalTimeRestriction,
            FieldValueView::Flag(v.override_interval_time_restriction),
        ),
        (RequestField::CurrencyCode, FieldValueView::Text(v.currency_code)),
        (RequestField::IsGuest, FieldValueView::Flag(v.is_guest)),
        (RequestField::RoundTrip, FieldValueView::Flag(v.round_trip)),
    ] + match v.round_trip_interval_start_date_time {
        Some(s) => seq![(RequestField::RoundTripIntervalStartDateTime, FieldValueView::Text(s))],
        None => Seq::empty(),
    } + match v.round_trip_interval_end_date_time {
        Some(s) => seq![(RequestField::RoundTripIntervalEndDateTime, FieldValueView::Text(s))],
        None => Seq::empty(),
    }
}

/// A payload leaves out each round-trip window field that is unset: no entry
/// carries that field or is written under its key, not even with an empty
/// value; and each one that is set appears.
pub proof fn lemma_payload_omits_unset(v: JourneyRequestView)
    ensures
        v.round_trip_interval_start_date_time is None ==> forall|i: int|
            0 <= i < payload(v).len() ==> (#[trigger] payload(v)[i]).0
                != RequestField::RoundTripIntervalStartDateTime,
        v.round_trip_interval_end_date_time is None ==> forall|i: int|
            0 <= i < payload(v).len() ==> (#[trigger] payload(v)[i]).0
                != RequestField::RoundTripIntervalEndDateTime,
        v.round_trip_interval_start_date_time is Some ==> exists|i: int|
            0 <= i < payload(v).len() && (#[trigger] payload(v)[i]).0
                == RequestField::RoundTripIntervalStartDateTime,
        v.round_trip_interval_end_date_time is Some ==> exists|i: int|
            0 <= i < payload(v).len() && (#[trigger] payload(v)[i]).0
                == RequestField::RoundTripIntervalEndDateTime,
        v.round_trip_interval_start_date_time is None ==> forall|i: int|
            0 <= i < payload(v).len() ==> field_key((#[trigger] payload(v)[i]).0)
                != "RoundTripIntervalStartDateTime"@,
        v.round_trip_interval_end_date_time is None ==> forall|i: int|
            0 <= i < payload(v).len() ==> field_key((#[trigger] payload(v)[i]).0)
                != "RoundTripIntervalEndDateTime"@,
        !v.round_trip && v.wf() ==> payload(v).len() == 12,
{
    let p = payload(v);
    reveal_strlit("DepartureStation");
    reveal_strlit("ArrivalStation");
    reveal_strlit("IntervalStartDateTime");
    reveal_strlit("IntervalEndDateTime");
    reveal_strlit("AdultNumber");
    reveal_strlit("ChildNumber");
    reveal_strlit("InfantNumber");
    reveal_strlit("SeniorNumber");
    reveal_strlit("OverrideIntervalTimeRestriction");
    reveal_strlit("CurrencyCode");
    reveal_strlit("IsGuest");
    reveal_strlit("RoundTrip");
    reveal_strlit("RoundTripIntervalStartDateTime");
    reveal_strlit("RoundTripIntervalEndDateTime");
    assert forall|f: RequestField| f != RequestField::RoundTripIntervalStartDateTime implies field_key(f)
        != "RoundTripIntervalStartDateTime"@ by {
        assert(field_key(f).len() != "RoundTripIntervalStartDateTime"@.len());
    }
    assert forall|f: RequestField| f != RequestField::RoundTripIntervalEndDateTime implies field_key(f)
        != "RoundTripIntervalEndDateTime"@ by {
        assert(field_key(f).len() != "RoundTripIntervalEndDateTime"@.len());
    }
    if v.round_trip_interval_start_date_time is Some {
        assert(p[12].0 == RequestField::RoundTripIntervalStartDateTime);
    }
    if v.round_trip_interval_end_date_time is Some {
        assert(p[p.len() - 1].0 == RequestField::RoundTripIntervalEndDateTime);
    }
}


/// The envelope of a journey search: session token, source system and
/// request.
#[derive(Debug)]
pub struct InternalJourneyRequest<'a> {
    signature: &'a str,
    source_system: u8,
    get_available_trains: &'a JourneyRequest,
}

impl<'a> InternalJourneyRequest<'a> {
    /// The `signature` field as stored.
    pub closed spec fn spec_signature(&self) -> &'a str {
        self.signature
    }

    /// The `source_system` field as stored.
    pub closed spec fn spec_source_system(&self) -> u8 {
        self.source_system
    }

    /// The `get_available_trains` field as stored.
    pub closed spec fn spec_get_available_trains(&self) -> &'a JourneyRequest {
        self.get_available_trains
    }

    pub fn new(signature: &'a str, source_system: u8, get_available_trains: &'a JourneyRequest) -> (r: InternalJourneyRequest<'a>)
        ensures
            r.spec_signature() == signature,
            r.spec_source_system() == source_system,
            r.spec_get_available_trains() == get_available_trains,
    {
        InternalJourneyRequest { signature, source_system, get_available_trains }
    }

    pub fn signature(&self) -> (r: &'a str)
        ensures
            r == self.spec_signature(),
    {
        self.signature
    }

    pub fn source_system(&self) -> (r: u8)
        ensures
            r == self.spec_source_system(),
    {
        self.source_system
    }

    pub fn get_available_trains(&self) -> (r: &'a JourneyRequest)
        ensures
            r == self.spec_get_available_trains(),
    {
        self.get_available_trains
    }
}

/// Result of a journey search: the solutions, one per date.
#[derive(Debug)]
pub struct JourneyResults {
    solutions: Vec<JourneysSolution>,
}

impl JourneyResults {
    /// The `solutions` field as stored.
    pub closed spec fn spec_solutions(&self) -> Vec<JourneysSolution> {
        self.solutions
    }

    pub fn new(solutions: Vec<JourneysSolution>) -> (r: JourneyResults)
        ensures
            r.spec_solutions()@ == solutions@,
    {
        JourneyResults { solutions }
    }

    /// Alternative solutions.
    pub fn solutions(&self) -> (r: &Vec<JourneysSolution>)
        ensures
            *r == self.spec_solutions(),
    {
        &self.solutions
    }
}

/// The journeys for one departure date.
#[derive(Debug)]
pub struct JourneysSolution {
    departure_date: String,
    journeys: Vec<Journey>,
}

impl JourneysSolution {
    /// The `departure_date` field as stored.
    pub closed spec fn spec_departure_date(&self) -> String {
        self.departure_date
    }

    /// The `journeys` field as stored.
    pub closed spec fn spec_journeys(&self) -> Vec<Journey> {
        self.journeys
    }

    pub fn new(departure_date: String, journeys: Vec<Journey>) -> (r: JourneysSolution)
        ensures
            r.spec_departure_date()@ == departure_date@,
            r.spec_journeys()@ == journeys@,
    {
        JourneysSolution { departure_date, journeys }
    }

    /// Date on which the journeys are valid, decoded from the raw field, whose
    /// integer counts milliseconds.
    pub fn departure_date(&self) -> (r: Result<CalendarDate, TimestampError>)
        ensures
            date_result_is(r, decoded_date(self.spec_departure_date()@)),
    {
        extract_date(self.departure_date.as_str())
    }

    /// Journeys for the date.
    pub fn journeys(&self) -> (r: &Vec<Journey>)
        ensures
            *r == self.spec_journeys(),
    {
        &self.journeys
    }
}

/// A journey on one or more trains.
#[derive(Debug)]
pub struct Journey {
    segments: Vec<JourneySegment>,
}

impl Journey {
    /// The `segments` field as stored.
    pub closed spec fn spec_segments(&self) -> Vec<JourneySegment> {
        self.segments
    }

    pub fn new(segments: Vec<JourneySegment>) -> (r: Journey)
        ensures
            r.spec_segments()@ == segments@,
    {
        Journey { segments }
    }

    /// The legs of the journey, one per train.
    pub fn segments(&self) -> (r: &Vec<JourneySegment>)
        ensures
            *r == self.spec_segments(),
    {
        &self.segments
    }
}

/// The part of a journey on one train.
#[derive(Debug)]
pub struct JourneySegment {
    departure_time: String,
    arrival_time: String,
    train_number: String,
    no_stop_train: bool,
    stops: Vec<Stop>,
}

impl JourneySegment {
    /// The `departure_time` field as stored.
    pub closed spec fn spec_departure_time(&self) -> String {
        self.departure_time
    }

    /// The `arrival_time` field as stored.
    pub closed spec fn spec_arrival_time(&self) -> String {
        self.arrival_time
    }

    /// The `train_number` field as stored.
    pub closed spec fn spec_train_number(&self) -> String {
        self.train_number
    }

    /// The `no_stop_train` field as stored.
    pub closed spec fn spec_no_stop_train(&self) -> bool {
        self.no_stop_train
    }

    /// The `stops` field as stored.
    pub closed spec fn spec_stops(&self) -> Vec<Stop> {
        self.stops
    }

    pub fn new(
        departure_time: String,
        arrival_time: String,
        train_number: String,
        no_stop_train: bool,
        stops: Vec<Stop>,
    ) -> (r: JourneySegment)
        ensures
            r.spec_departure_time()@ == departure_time@,
            r.spec_arrival_time()@ == arrival_time@,
            r.spec_train_number()@ == train_number@,
            r.spec_no_stop_train() == no_stop_train,
            r.spec_stops()@ == stops@,
    {
        JourneySegment { departure_time, arrival_time, train_number, no_stop_train, stops }
    }

    /// Departure time, decoded from the raw field, whose integer counts seconds.
    pub fn departure_time(&self) -> (r: Result<UtcDateTime, TimestampError>)
        ensures
            time_result_is(r, decoded_date_time(self.spec_departure_time()@)),
    {
        extract_utc_time(self.departure_time.as_str())
    }

    /// Arrival time, decoded from the raw field, whose integer counts seconds.
    pub fn arrival_time(&self) -> (r: Result<UtcDateTime, TimestampError>)
        ensures
            time_result_is(r, decoded_date_time(self.spec_arrival_time()@)),
    {
        extract_utc_time(self.arrival_time.as_str())
    }

    /// The train's number.
    pub fn train_number(&self) -> (r: &String)
        ensures
            *r == self.spec_train_number(),
    {
        &self.train_number
    }

    /// The train runs without intermediate stops.
    pub fn no_stop_train(&self) -> (r: bool)
        ensures
            r == self.spec_no_stop_train(),
    {
        self.no_stop_train
    }

    /// The train's stops.
    pub fn stops(&self) -> (r: &Vec<Stop>)
        ensures
            *r == self.spec_stops(),
    {
        &self.stops
    }
}

/// A stop of a train.
#[derive(Debug)]
pub struct Stop {
    departure_time: String,
    arrival_time: String,
    departure_station: String,
    arrival_station: String,
}

impl Stop {
    /// The `departure_time` field as stored.
    pub closed spec fn spec_departure_time(&self) -> String {
        self.departure_time
    }

    /// The `arrival_time` field as stored.
    pub closed spec fn spec_arrival_time(&self) -> String {
        self.arrival_time
    }

    /// The `departure_station` field as stored.
    pub closed spec fn spec_departure_station(&self) -> String {
        self.departure_station
    }

    /// The `arrival_station` field as stored.
    pub closed spec fn spec_arrival_station(&self) -> String {
        self.arrival_station
    }

    pub fn new(
        departure_time: String,
        arrival_time: String,
        departure_station: String,
        arrival_station: String,
    ) -> (r: Stop)
        ensures
            r.spec_departure_time()@ == departure_time@,
            r.spec_arrival_time()@ == arrival_time@,
            r.spec_departure_station()@ == departure_station@,
            r.spec_arrival_station()@ == arrival_station@,
    {
        Stop { departure_time, arrival_time, departure_station, arrival_station }
    }

    /// Departure time, decoded from the raw field, whose integer counts seconds.
    pub fn departure_time(&self) -> (r: Result<UtcDateTime, TimestampError>)
        ensures
            time_result_is(r, decoded_date_time(self.spec_departure_time()@)),
    {
        extract_utc_time(self.departure_time.as_str())
    }

    /// Arrival time, decoded from the raw field, whose integer counts seconds.
    pub fn arrival_time(&self) -> (r: Result<UtcDateTime, TimestampError>)
        ensures
            time_result_is(r, decoded_date_time(self.spec_arrival_time()@)),
    {
        extract_utc_time(self.arrival_time.as_str())
    }

    /// Departure station.
    pub fn departure_station(&self) -> (r: &String)
        ensures
            *r == self.spec_departure_station(),
    {
        &self.departure_station
    }

    /// Arrival station.
    pub fn arrival_station(&self) -> (r: &String)
        ensures
            *r == self.spec_arrival_station(),
    {
        &self.arrival_station
    }
}

} // verus!
