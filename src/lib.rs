//! Control plane of a device-bridge host: the event taxonomy shared by the
//! workers, and the router that decides, event by event, what to forward
//! where and whether a device connection may exist.

pub mod events;
pub mod router;
pub mod laws;
pub mod store;
