//! Pure logic behind a small desktop application's two callable commands:
//! a greeting formatter and the response logic of a cache-directory lookup.
//! The host shell performs the platform lookup itself and hands this library
//! plain values.

pub mod cache_dir;
pub mod greeting;
