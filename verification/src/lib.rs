//! A minimal task/command container with a polymorphic result wrapper.
//!
//! A [`task::Task`] owns an ordered sequence of commands submitted by a user;
//! a [`result::TaskResult`] reports an outcome back as a status code plus a
//! payload that can render itself as text and as JSON.

pub mod decimal;
pub mod result;
pub mod task;
