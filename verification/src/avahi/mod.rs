//! Decision logic for the Avahi back-end.
//!
//! Avahi reports progress through callbacks: a client callback, a browser
//! callback, one resolver callback per discovered instance, and an entry-group
//! callback while publishing. The modules here say what each of those events
//! means for a browser or a service, and which native call comes next.

pub mod avahi_util;
pub mod browser;
pub mod client;
pub mod entry_group;
pub mod poll;
pub mod raw_browser;
pub mod resolver;
pub mod service;
pub mod txt_record;
