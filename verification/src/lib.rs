//! Release-integrity checking for a fleet of software components: each
//! component declares its version in three places (a documentation page, a
//! dependency manifest, a readme badge), and this library extracts the three
//! tokens, parses them as semantic versions, and judges whether they agree.

pub mod extract;
pub mod scan;
pub mod service;
pub mod version;
