//! Messages between the daemon and its clients, and the decisions the daemon
//! takes on them. Sockets and JSON encoding live in the application.
pub mod client;
pub mod methods;
pub mod protocol;
pub mod server;
