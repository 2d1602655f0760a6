//! Archiving the images of a user's saved feed entries.
//!
//! - [`feedly`]: the client of the feed service, over a transport that a
//!   caller supplies: the request of each operation, and what is made of
//!   the answer.
//! - [`json`], [`decode`], [`model`]: JSON documents, and the entries and
//!   subscriptions that are read out of them.
//! - [`image_url`]: the URL of the largest variant of an image.
//! - [`namer`]: the path under which an image is stored, which is never one
//!   that is taken.
//! - [`pipeline`]: one run over the saved entries, step by step.
//! - [`config`], [`dropbox`]: the configuration file, and the headers of an
//!   upload.
//! - [`result`], [`text`]: the errors, and texts as character sequences.

pub mod config;
pub mod decode;
pub mod dropbox;
pub mod feedly;
pub mod image_url;
pub mod json;
pub mod model;
pub mod namer;
pub mod pipeline;
pub mod result;
pub mod text;
