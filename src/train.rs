use vstd::prelude::*;

verus! {

/// Realtime data for a train.
#[derive(Debug, Clone)]
pub struct TrainRealtime {
    pub last_update: String,
    pub train_schedule: TrainSchedule,
}

/// A train's trip.
#[derive(Debug, Clone)]
pub struct TrainSchedule {
    /// The service's train ID.
    pub train_number: String,
    /// The network operator's train ID.
    pub rfi_train_number: String,
    /// Scheduled departure time.
    pub departure_time: String,
    /// Name of the first station.
    pub departure_station_name: String,
    /// Scheduled arrival time.
    pub arrival_time: String,
    /// Name of the terminus.
    pub arrival_station_name: String,
    /// Service disruption data.
    pub distruption: Distruption,
    /// The first station.
    pub departure_station: TrainStation,
    /// Stations where the train has already stopped.
    pub stations_with_stop: Vec<TrainStation>,
    /// Stations where it will stop.
    pub stations_with_transit: Vec<TrainStation>,
}

/// Service disruption data.
#[derive(Debug, Clone)]
pub struct Distruption {
    /// Delay, in minutes.
    pub delay_amount: i32,
    pub location_code: String,
    pub warning: bool,
    pub running_state: u16,
}

/// A station of a train's trip.
#[derive(Debug, Clone)]
pub struct TrainStation {
    /// The service's station ID.
    pub location_code: String,
    /// Human friendly name.
    pub location_description: String,
    /// The network operator's station ID.
    pub rfi_location_code: String,
    pub estimated_departure_time: String,
    pub actual_departure_time: String,
    pub estimated_arrival_time: String,
    pub actual_arrival_time: String,
    pub platform: Option<String>,
    /// Position of the station in the trip.
    pub sequence: u8,
}

} // verus!
