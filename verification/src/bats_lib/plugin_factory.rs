pub use super::builder::PluginBuilder;
