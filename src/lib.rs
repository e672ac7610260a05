//! A relay between two named pipes and one TCP connection, with its
//! decisions written as verified state machines: the session that prepares
//! the pipes, connects and relays, the two forwarding directions, and the
//! framing of byte streams into lines.

pub mod lines;
pub mod direction;
pub mod session;
