pub mod dispatch;
pub mod pacing;
pub mod ports;
pub mod shutdown;
pub mod tempo;
