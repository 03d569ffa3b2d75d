//! Turns a declarative gesture configuration into the trigger recognizers and
//! action executors that a dispatcher invokes.
//!
//! A document is loaded ([`Config::load`]), its absent fields take their
//! defaults ([`RawConfig::resolve`]), and it is realized once for the
//! platform in use ([`Config::make_triggers`]): the global entries and then
//! that platform's own, each as a trigger and an action at the same index.
//! Recognizers and the keyboard device come from the caller; every keyboard
//! action of a realization types on the one [`SharedDevice`].

pub mod action;
pub mod config;
pub mod defaults;
pub mod device;
pub mod key;
pub mod laws;
pub mod load;
pub mod threshold;

pub use action::{Action, ConfigAction};
pub use config::{default_triggers, Config, ConfigTrigger};
pub use defaults::{Field, RawConfig};
pub use device::SharedDevice;
pub use key::ConfigKey;
pub use load::LoadError;
pub use threshold::{default_distance, default_pinch, default_rotation, Magnitude, Thresholds};
