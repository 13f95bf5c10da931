//! Checks that every installed dependency of an npm lockfile records both an
//! integrity checksum and a resolved download location.
pub mod json;
pub mod lockfile;
pub mod parse;
