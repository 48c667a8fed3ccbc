//! Decision logic for the Bonjour (dns-sd) back-end.
//!
//! Bonjour resolves a discovered instance in three chained native calls
//! (browse, resolve, get-address-info), each answered through its own
//! callback. The modules here say what each answer means for a browser or a
//! service, and which native call comes next.

pub mod bonjour_util;
pub mod browser;
pub mod event_loop;
pub mod service;
pub mod service_ref;
