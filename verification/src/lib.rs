//! Client core of a server-blind password vault: key derivation, the
//! encrypted vault envelope, and the session protocol that moves it.
//!
//! The backend stores what it cannot read. From e-mail address and password
//! the client derives a master key that never leaves it ([`kdf`]); what it
//! sends in place of the password is a proof derived from that key, and what
//! it stores is the vault sealed under another key derived from it
//! ([`envelope`]). [`protocol`] says which request each operation sends and
//! what each reply means, [`session`] holds token and master key through the
//! phases of a session and wipes them at its end, [`health`] chooses the
//! backend, and [`menu`] orders fetch, edit, update and logout.
//!
//! Nothing here reads a terminal, a file or a socket. An operation hands out
//! the request to send and is completed with the reply that came back.

pub mod entry;
pub mod envelope;
pub mod error;
pub mod health;
pub mod kdf;
pub mod menu;
pub mod password;
pub mod protocol;
pub mod selection;
pub mod session;
