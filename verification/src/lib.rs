//! Colour and brightness control for a BLE-connected bedside light ring.
pub mod app;
pub mod battery;
pub mod ble;
pub mod light_ring;
pub mod light_state;
