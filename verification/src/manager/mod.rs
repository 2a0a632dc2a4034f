//! The brackets through which the events of the foreign runtime reach the
//! handlers.
pub mod xdg_shell_v6_handler;
