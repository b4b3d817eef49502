//! Ready to use backends: one made of closures, for any GPIO library, and
//! two that need no GPIO hardware.

pub mod closures;
pub mod dummy;
pub mod recorder;

pub use crate::gpio_api::closures::FnBackend;
pub use crate::gpio_api::dummy::setup_dummy;
pub use crate::gpio_api::dummy::DummyBackend;
pub use crate::gpio_api::recorder::Recorder;
