//! Runtime settings, as plain data. Loading them from files or the
//! environment is the launcher's business; the library only states what the
//! values combine to.

pub mod setting;
