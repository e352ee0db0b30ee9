//! Verified core of a terminal WiFi manager for NetworkManager: the security
//! classification of access points, the merged and ordered network list, the
//! connection settings sent for a new network, and the state machine of the
//! user interface.
pub mod types;
pub mod text;
pub mod error;
pub mod access_point;
pub mod saved;
pub mod networks;
pub mod config;
pub mod adapter;
pub mod settings;
pub mod manager;
pub mod field;
pub mod app;
pub mod ui;
