//! A slash-command that looks up a GitHub user and renders a plain-text
//! profile summary.
//!
//! The library holds everything that can be verified: the profile record and
//! its JSON grammar (`profile`, `json`), the reply rendering (`render`), the
//! command descriptor and the option guard (`command`), and the function that
//! turns an HTTP status and body into the reply text (`handler`). The network
//! call itself and the conversion to the hosting bot framework's types live
//! outside the library.

pub mod command;
pub mod handler;
pub mod json;
pub mod profile;
pub mod render;
