//! Exchange-level data models: operational status, trading schedule and
//! announcements.

use vstd::prelude::*;

verus! {

/// Represents the operational status of the Kalshi exchange.
///
/// Simple boolean flags indicating whether the exchange platform and the
/// trading engine are currently active and operational.
#[derive(Debug, PartialEq)]
pub struct ExchangeStatus {
    /// Whether the trading engine is currently active and accepting orders.
    pub trading_active: bool,
    /// Whether the exchange platform is currently operational.
    pub exchange_active: bool,
}

/// The trading schedule for a specific day: the opening and closing times
/// of one trading period.
#[derive(Debug, PartialEq)]
pub struct DaySchedule {
    /// The time when trading opens for this day.
    pub open_time: String,
    /// The time when trading closes for this day.
    pub close_time: String,
}

/// The standard trading hours of the exchange, day by day.
#[derive(Debug, PartialEq)]
pub struct StandardHours {
    /// The start time for the trading period.
    pub start_time: String,
    /// The end time for the trading period.
    pub end_time: String,
    /// Trading schedule for Monday.
    pub monday: Vec<DaySchedule>,
    /// Trading schedule for Tuesday.
    pub tuesday: Vec<DaySchedule>,
    /// Trading schedule for Wednesday.
    pub wednesday: Vec<DaySchedule>,
    /// Trading schedule for Thursday.
    pub thursday: Vec<DaySchedule>,
    /// Trading schedule for Friday.
    pub friday: Vec<DaySchedule>,
    /// Trading schedule for Saturday.
    pub saturday: Vec<DaySchedule>,
    /// Trading schedule for Sunday.
    pub sunday: Vec<DaySchedule>,
}

/// A scheduled maintenance window, during which the exchange may be
/// unavailable for trading or other operations.
#[derive(Debug, PartialEq)]
pub struct MaintenanceWindow {
    /// The start datetime of the maintenance window.
    pub start_datetime: String,
    /// The end datetime of the maintenance window.
    pub end_datetime: String,
}

/// The trading schedule and maintenance windows of the exchange.
#[derive(Debug, PartialEq)]
pub struct ExchangeSchedule {
    /// The standard trading hours for each day of the week.
    pub standard_hours: Vec<StandardHours>,
    /// Scheduled maintenance windows when the exchange may be unavailable.
    pub maintenance_windows: Vec<MaintenanceWindow>,
}

/// An exchange-wide announcement: updates, maintenance schedules, new
/// features, or other information users need to be aware of.
#[derive(Debug, PartialEq)]
pub struct ExchangeAnnouncement {
    /// The announcement message content.
    pub message: String,
    /// When the announcement was created.
    pub ts: String,
    /// The current status of the announcement (e.g., "active").
    pub status: String,
}

/// The timestamp of the last portfolio data refresh, for judging data
/// freshness.
#[derive(Debug, PartialEq)]
pub struct UserDataTimestamp {
    /// The timestamp of the last portfolio data validation or refresh.
    pub last_validated_ts: String,
}

} // verus!
