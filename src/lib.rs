//! Event dispatch and subscription core for a BLE controller binding: weakly held
//! subscribers, one-shot and recurring subscriptions, waitable bridges, and the
//! per-event-kind router that feeds them, with the connection, advertising and
//! device objects built on it.

// The subscription registry, publishers, and what a dispatch pass does.
pub mod subscription;
pub mod publisher;
pub mod event_publisher;
pub mod laws;

// One-shot bridges from pushed events to waits and callbacks.
pub mod waitable;
pub mod connection_waitable;

// Event kinds, payloads, and the router of a driver.
pub mod ble_event;
pub mod common;
pub mod events;
pub mod driver_events;

// GAP data, advertising payloads, and error codes.
pub mod gap;
pub mod gap_address;
pub mod advertise_data;
pub mod error;
pub mod text;

// Objects that subscribe to a driver and republish.
pub mod peer;
pub mod advertiser;
pub mod device;
