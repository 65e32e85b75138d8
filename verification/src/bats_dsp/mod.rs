pub mod position;
