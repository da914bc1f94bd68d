//! Shairport dashboard: line parsers for the telemetry collectors (Wi-Fi
//! station dumps, shairport-sync logs and metadata, system statistics) and the
//! replay history, with their contracts proved.
pub mod clock;
pub mod external;
pub mod history;
pub mod iw_event;
pub mod laws;
pub mod metadata;
pub mod models;
pub mod numbers;
pub mod shairport;
pub mod system;
pub mod text;
pub mod wifi;

pub use models::WifiStationSample;
pub use wifi::WifiStationParser;
