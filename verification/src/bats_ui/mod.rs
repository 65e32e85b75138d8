pub mod events;
pub mod menu;
pub mod plugin_factory;
pub mod selection;
pub mod selector;
