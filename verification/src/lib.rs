//! The verified core of conti, a single-shot updater for Docker containers.
//!
//! The library decides; it never talks to Docker, to an SMTP server or to the
//! disk. [`session`] takes one container from its inspection to an installed update
//! or a rollback, and [`notify`] turns what happened into a summary email.
//!
//! - [`text`]: strings as sequences of characters
//! - [`image`]: image references and ids
//! - [`container`]: which containers to update, and what a replacement looks like
//! - [`startup`]: the verdict on a container that was just started
//! - [`failed`]: the log of updates that were rolled back
//! - [`update`]: the states, actions and outcomes of an update
//! - [`session`]: the transitions between them
//! - [`docker`]: what an update leaves behind in Docker
//! - [`trace`]: what a session asks of Docker, told by the answers it was given
//! - [`mail`]: addresses, messages and the way to an SMTP server
//! - [`notify`]: the settings of the summary, and the summary itself
//! - [`report`]: errors and outcomes in words

#![allow(unused_imports)]

pub mod container;
pub mod docker;
pub mod failed;
pub mod image;
pub mod mail;
pub mod notify;
pub mod report;
pub mod session;
pub mod startup;
pub mod text;
pub mod trace;
pub mod update;
