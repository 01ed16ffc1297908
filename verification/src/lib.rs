//! Notifier: short text notifications, kept in memory under tags.
//!
//! The heart of the crate is [`store::TagStore`]. A client stores a
//! notification under a tag and gets its id, reads the live notifications of
//! a tag, or deletes one by tag and id. Ids count up from 0 for each tag and
//! are never given out twice; a tag comes into being with its first
//! notification and stays for good.
//!
//! - [`model`] says what a store is as mathematics, [`history`] what it is
//!   after a sequence of requests, and [`laws`] what follows for every store.
//! - [`store`] is the executable store, verified against the model.
//! - [`wire`] holds the messages, [`server`] answers them from a store, and
//!   [`client`] makes requests and reads replies.
//! - [`board`] is a second, simpler keeper: the latest ten notifications.
//! - [`text`] writes numbers in decimal.
//!
//! The store does no locking of its own. Every operation takes it by `&mut`
//! or `&`, so whoever shares a store between threads puts it behind one lock
//! and each operation is one indivisible step.

pub mod board;
pub mod client;
pub mod history;
pub mod laws;
pub mod model;
pub mod server;
pub mod store;
pub mod text;
pub mod wire;

pub use wire::{
    CreateNotification, CreateNotificationResult, DeleteNotification, DeleteNotificationResult,
    GetNotifications, GetNotificationsResult, NotificationContent,
};
