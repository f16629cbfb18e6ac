//! Verified core of an MPRIS media-player client.
//!
//! A caller controls a media player over the message bus in two ways: through
//! a [`player::Player`] handle, whose methods each describe exactly one remote
//! invocation against the player's well-known bus address, and through an
//! [`event_manager::EventManager`], which builds signal-match filters for the
//! MPRIS signals and keeps the registration tokens so that every subscription
//! can be torn down later.
//!
//! The bus transport itself is not part of this crate's verified surface: an
//! embedding application owns the connection, performs each
//! [`call::MethodCall`] this crate hands it, and feeds results (the verdict of
//! the player-existence probe, registration tokens, the metadata dictionary)
//! back into the verified functions here.

pub mod call;
pub mod event_manager;
pub mod names;
pub mod player;
pub mod value;
