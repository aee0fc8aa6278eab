//! Decision logic of a tray-resident input forwarder: the normalisation of
//! captured keyboard and pointer events, the delivery channel towards the
//! application's listeners, and the window lifecycle policy behind the tray icon.

pub mod bridge;
pub mod capture;
pub mod event;
pub mod lifecycle;
