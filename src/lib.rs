//! Typed client core for a passenger-rail information service: the codec for
//! its embedded timestamps, extraction of data embedded in its pages, the
//! station catalog join, the journey search request and the session gate.

mod extract;
mod journey;
mod login;
mod station;
mod text;
mod timestamp;
mod train;

pub use extract::{extract_between, ExtractError};
pub use journey::{
    EnvelopeField, FieldValue, InternalJourneyRequest, Journey, JourneyRequest, JourneyResults, JourneySegment,
    JourneysSolution, RequestField, RoundTrip, RoundTripError, Stop, SEARCH_SOURCE_SYSTEM,
};
pub use login::{LoginRequestBody, LoginRequestInternal, LoginResponse, SessionGate};
pub use station::{
    build_stations, station_regions, Station, StationCode, StationLabel, StationRealtime,
    StationTrainRealtime, LOCALIZATION_MARKER, STATION_CODING_MARKER, STATION_LIST_MARKER,
};
pub use timestamp::{
    encode_date_time, extract_date, extract_utc_time, CalendarDate, Malformed,
    TimestampError, UtcDateTime, MAX_EPOCH_SECONDS, MIN_EPOCH_SECONDS,
};
pub use train::{Distruption, TrainRealtime, TrainSchedule, TrainStation};
