//! Traffic shaping for one network interface: the ordered shell commands that
//! build an HTB queueing tree and the firewall marks feeding it, and a session
//! that hands those commands out one at a time and stops at the first failure.

pub mod config;
pub mod commands;
pub mod session;
