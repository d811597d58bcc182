//! Solar-event time pipeline: builds the request locator for a configured
//! coordinate, normalizes the 12-hour time fields of the fetched document to
//! 24-hour form, decodes the result into a typed record, and renders it as a
//! configuration-style text document. All I/O stays outside this crate.

pub mod config;
pub mod digits;
pub mod json;
pub mod pipeline;
pub mod model;
pub mod render;
pub mod strutil;
pub mod timefmt;
pub mod transform;

pub use config::compile_url;
pub use config::Config;
pub use model::Response;
pub use model::SunriseSunsetResults;
pub use timefmt::convert_to_24_hour;
pub use transform::convert_times_to_24_hour;
pub use transform::transform_payload;
