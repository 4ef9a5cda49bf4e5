//! Decision logic of a media endpoint: naming and classifying uploads,
//! gating them behind a bearer credential, and serving stored objects back,
//! photos optionally scaled down.

pub mod classification;
pub mod config;
pub mod identifier;
pub mod media;
pub mod micropub;
pub mod oauth;
pub mod response;
pub mod text;
pub mod time_order;
pub mod transform;
