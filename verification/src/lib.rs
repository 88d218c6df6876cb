//! Uketoru: the decision logic of a small HTTP-to-email relay.
//!
//! A request to the relay passes three stations. [`relay::validate`] holds
//! its authorization header against the configured token. [`relay::message`]
//! composes the outbound email and prepares the channel to the mail server.
//! After the one delivery attempt, which is the caller's to make,
//! [`relay::delivered`] and [`relay::respond`] turn its outcome into the
//! answer to the client. The settings all of this reads are in [`config`].
//!
//! Every function is verified against its contract. The mail library is
//! reached through the few declarations of [`mail`], which are taken on trust.

pub mod config;
pub mod mail;
pub mod relay;
