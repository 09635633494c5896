//! What holds of every session, proved from the transitions in
//! [`crate::model`].

pub mod exchange;
pub mod lifecycle;
pub mod publisher;
pub mod subscriber;
