//! Crate prelude

pub use crate::browser::TMdnsBrowser;
pub use crate::builder::BuilderDelegate;
pub use crate::event_loop::TEventLoop;
pub use crate::service::TMdnsService;
pub use crate::txt_record::TTxtRecord;
