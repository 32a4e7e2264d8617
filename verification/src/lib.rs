//! Authentication-factor state of a single user identity: the `User`
//! aggregate, its pool of single-use recovery codes and its optional
//! one-time-password record.
//!
//! Every transition takes the current value by reference and returns a new
//! value; nothing is changed in place. The contracts are stated over the
//! views of the types, which are plain mathematical records.

pub mod model;
pub mod trusted;
