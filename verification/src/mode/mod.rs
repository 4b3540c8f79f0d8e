mod periodic;
mod simple_single_shot;
mod single_shot;

pub use periodic::{Periodic, MPS};
pub use periodic::{periodic_command, spec_periodic_command};
pub use simple_single_shot::SimpleSingleShot;
pub use single_shot::SingleShot;
pub use single_shot::{single_shot_command, spec_single_shot_lsb};
pub use simple_single_shot::{retry_command, spec_retry_lsb};
