pub use crate::bats_lib::builder::PluginBuilder;
