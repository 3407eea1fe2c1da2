//! Daily reminder of calendar events: the rows of an exported event list are
//! decoded into events, rendered as one HTML document and handed over for
//! dispatch as a single email.

pub mod dispatch;
pub mod event;
pub mod number;
pub mod prepare;
pub mod reader;
pub mod render;
