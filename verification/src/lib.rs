//! Tunnel management for reaching a database through an SSH jump host.
//!
//! The crate holds the decisions of the tunnel: which credentials are
//! submitted, how the controller moves between its states, what each
//! forwarded connection relays, and how the adapter layer is pointed at the
//! local end of the tunnel. Sockets, the SSH engine and the database drivers
//! stay with the caller, which performs the actions this crate hands out and
//! reports back what happened.
//!
//! - [`credentials`], [`error`], [`host_key`]: the values a tunnel is made
//!   from, the kinds of failure, and the policy on server keys.
//! - [`session`], [`link`], [`tunnel`]: the session with the jump host, the
//!   relay of one connection, and the controller that holds them together.
//! - [`adapters`], [`connectors`], [`registry`], [`keyed`]: the database side
//!   of the boundary and the bookkeeping of what is connected.
//! - [`keys`], [`menu`], [`text`]: the application key, the menu, and numbers
//!   as text.

pub mod adapters;
pub mod connectors;
pub mod credentials;
pub mod error;
pub mod host_key;
pub mod keyed;
pub mod keys;
pub mod link;
pub mod menu;
pub mod registry;
pub mod session;
pub mod text;
pub mod tunnel;
