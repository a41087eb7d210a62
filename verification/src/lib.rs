//! A small posting service: a router over four request handlers that share a
//! registry of templates and a store of posts.
//!
//! Every function here is synchronous and takes plain values. A program that
//! serves requests reads each body, calls [`router::begin`], and where the
//! step asks for the store, takes the store's lock for
//! [`store::RecordStore::perform`] alone and answers with [`router::finish`].
//! [`router::route`] does the three in one call for whoever holds the store
//! already.
//!
//! No function here has a precondition, and none panics, with two things left
//! to the machine: memory, and the random bytes of the operating system,
//! without which [`store::RecordStore::insert`] ends the process. The template
//! engine is handed the two standard sources only when it renders, since it
//! can panic on others: a template with another source is answered with
//! [`response::Failure::RenderError`]. Of the engine's parser, which
//! [`templates::TemplateRegistry::register`] runs on any source, it is taken on
//! trust that it returns.
pub mod response;
pub mod text;
pub mod ident;
pub mod templates;
pub mod requests;
pub mod store;
pub mod handlers;
pub mod router;
pub mod guarantees;
