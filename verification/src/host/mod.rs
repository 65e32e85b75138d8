pub mod jack_adapter;
pub mod state;
pub mod track;
