//! A client of the Registration Data Access Protocol (RFC 7483): the records that a registry
//! answers with, how they are read from JSON, and how the record of a domain is reduced to a
//! description of the domain.

pub mod address;
pub mod decode;
pub mod domain;
pub mod json;
pub mod laws;
pub mod model;
pub mod result;
pub mod sync;

pub use address::IpAddress;
pub use domain::{Country, Domain, Network};
pub use model::{Event, IpVersion, Link};
