//! Telescope's verified core.
//!
//! The server is configured by a document of nested profiles; [`env`] turns
//! such a document and a selected profile into the one configuration that
//! the server runs on. [`meetings`] holds the checks that a submitted
//! meeting has to pass, [`error`] the errors that a request can end in and
//! the status each is answered with, and [`templates`] the pages to render.

pub mod env;
pub mod error;
pub mod meetings;
pub mod name_map;
pub mod templates;
