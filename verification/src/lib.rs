//! Verified core of a cross-platform mDNS/DNS-SD binding layer.
//!
//! Everything here is plain data and pure decision logic: value types,
//! service-type validation and formatting, the TXT record model, and the
//! state machines that bridge the native callback chains of the Avahi and
//! Bonjour daemons. The native calls themselves are made by the caller, which
//! feeds their results back in.

pub mod avahi;
pub mod bonjour;
pub mod browser;
pub mod builder;
pub mod callback;
pub mod error;
pub mod event_loop;
pub mod future;
pub mod interface;
pub mod prelude;
pub mod service;
pub mod service_type;
pub mod text;
pub mod txt_record;

pub use browser::{BrowserEvent, ServiceDiscovery, ServiceRemoval};
pub use error::Error;
pub use interface::NetworkInterface;
pub use service::ServiceRegistration;
pub use service_type::{check_valid_characters, lstrip_underscore, ServiceType};
pub use txt_record::TxtRecord;
