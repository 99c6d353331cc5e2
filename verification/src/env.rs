//! Server configuration.
//!
//! A configuration document is a tree of scopes. The root scope holds the
//! global settings; every scope may hold named profiles, which are scopes
//! themselves and override what their ancestors set. Selecting a profile by
//! its path from the root yields one [`ConcreteConfig`]: for every setting,
//! the value of the deepest scope on that path that sets it.

pub mod concrete;
pub mod lookup;
pub mod selection;
pub mod settings;
pub mod tree;

pub use concrete::{ConcreteConfig, ConfigError, RequiredField};
pub use selection::{join, profile_path, selected_path, split, SEPARATOR};
pub use lookup::{computes, last_defined, reads, MissingProfile};
pub use settings::{EmailSenderConfig, SmtpConfig, SysadminCreationConfig, TlsConfig};
pub use tree::{segments, Profiles, TelescopeConfig};
