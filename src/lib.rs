//! Task dispatch core: typed handlers registered under names, JSON payload
//! marshalling into handler arguments, task descriptors grouped in queues,
//! and bounded reconnection to a message broker.

pub mod error;
pub mod json;
pub mod decode;
pub mod types;
pub mod handler;
pub mod task;
pub mod queue;
pub mod celery_app;
pub mod broker;
pub mod server;
pub mod sysinfo;

pub use celery_app::CeleryApp;
