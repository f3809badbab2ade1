pub mod attrs;
pub mod constants;
pub mod detector;
pub mod error;
pub mod mapping;
pub mod meta;
pub mod strutil;
pub mod zone;

