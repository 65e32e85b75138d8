pub mod bats_async;
pub mod bats_dsp;
pub mod bats_lib;
pub mod bats_ui;
pub mod bmidi;
pub mod host;
