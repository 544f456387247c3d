//! A live media playback core: a reactive configuration store, session and
//! catalog acquisition with reuse rules, track selection, per-track runner
//! logic, and a frame presentation scheduler.
//!
//! The asynchronous shell (transport, decoder, display) drives these types
//! and performs the I/O they decide on.

use vstd::prelude::*;

pub mod audio;
pub mod backend;
pub mod catalog;
pub mod config;
pub mod error;
pub mod renderer;
pub mod session;
pub mod track;
pub mod video;

pub use config::AttrName;
pub use config::Attributes;
pub use config::Config;

verus! {

/// The custom-element definition the host shell must register: the element
/// tag name together with the attributes to observe for configuration
/// changes.
pub struct ElementSpec {
    pub tag: String,
    pub attributes: Vec<String>,
}

/// Returns the element definition of the player: the shell registers a
/// custom element under this tag and watches exactly these attributes.
pub fn register() -> (r: ElementSpec)
    ensures
        r.tag@ == "moq-player"@,
        r.attributes@.len() == 2,
        r.attributes@[0]@ == "src"@,
        r.attributes@[1]@ == "broadcast"@,
{
    let mut attributes: Vec<String> = Vec::new();
    attributes.push("src".to_owned());
    attributes.push("broadcast".to_owned());
    ElementSpec { tag: "moq-player".to_owned(), attributes }
}

} // verus!
