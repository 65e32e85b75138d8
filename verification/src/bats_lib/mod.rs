pub mod builder;
pub mod metronome;
pub mod plugin;
pub mod plugin_factory;
pub mod position;
pub mod session;
pub mod transport;
