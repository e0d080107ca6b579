//! Development utilities.

pub mod test_keys;
