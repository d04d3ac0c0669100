//! The rules of a puzzle-sharing site.
//!
//! People log in through an OpenID Connect provider, get one or more roles,
//! and own puzzles under them.  This crate holds what the site decides and
//! computes; it performs no input or output of its own.
//!
//! On the server's side:
//!
//! * `login` is the login flow, whose state travels with the browser;
//!   `providers` is the registry of the providers it may use.
//! * `identity`, `role` and `puzzle` are the things the store keeps, and
//!   `record` is the form in which the store hands them out.
//! * `normalise` makes short names: safe tokens that are unique in an index.
//! * `store` names keys, puts together the calls of the store's scripts and
//!   reads its answers; `index` and `memory` are the store kept in memory,
//!   on `table`.
//! * `handlers` answers requests about puzzles and roles.
//! * `digest` and `codec` make fingerprints and pack bytes into text.
//!
//! On the pages' side:
//!
//! * `session` is what a page knows about the login, `cache` what it holds
//!   of things it has asked for, `toast` its rack of notices, and `widgets`
//!   what its small parts show.
//! * `fpuzzles` reads and writes grids in the form that links carry, and
//!   `shortcode` says what the short codes in a description stand for.
//!
//! `api`, `rating` and `visibility` are shared by both sides; `address`
//! takes addresses apart, and `text` holds the helpers on strings that the
//! rest is written with.

pub mod address;
pub mod api;
pub mod cache;
pub mod codec;
pub mod digest;
pub mod fpuzzles;
pub mod handlers;
pub mod identity;
pub mod index;
pub mod login;
pub mod memory;
pub mod normalise;
pub mod providers;
pub mod puzzle;
pub mod rating;
pub mod record;
pub mod role;
pub mod session;
pub mod shortcode;
pub mod store;
pub mod table;
pub mod text;
pub mod toast;
pub mod visibility;
pub mod widgets;
