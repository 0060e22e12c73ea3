//! The client side of a replicated key-value store: the store's command
//! semantics, the client's request loops, its HTTP shim, and a Maelstrom
//! `lin-kv` proxy in front of that shim, with decimal text handling.
pub mod client;
pub mod client_data;
pub mod client_laws;
pub mod database;
pub mod decimal;
pub mod http_client;
pub mod kv;
pub mod maelstrom_proxy;
pub mod text;
