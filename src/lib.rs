pub mod clock;
pub mod data;
pub mod drain;
pub mod keyed_channel;
pub mod latest_channel;
pub mod pipeline;
pub mod session;
pub mod shutdown_signal;
pub mod timeout_map;
