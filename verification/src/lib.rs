//! Tools for the recovery mode (RCM) of the Tegra X1 boot ROM, as found in
//! the Nintendo Switch.
//!
//! The library builds the image that is staged in device memory
//! ([`payload`]), and decides every step of the USB protocol that stages
//! the image and starts it ([`switch`]), of finding the device
//! ([`device`]), of checking the environment ([`env`]) and of telling when
//! the device arrives and leaves ([`hotplug`]). It reaches no device
//! itself: the caller makes the transfers and hands in what they came to.
//! What a front end keeps and shows is in [`favorites`], [`status`] and
//! [`init_error`].

pub mod buffer;
pub mod device;
pub mod env;
pub mod error;
pub mod favorites;
pub mod hotplug;
pub mod init_error;
pub mod intermezzo;
pub mod payload;
pub mod status;
pub mod switch;
pub mod text;

pub use device::Switch;
pub use env::check_env;
pub use error::SwitchError;
pub use payload::{Payload, PayloadError};
pub use switch::Handle;
