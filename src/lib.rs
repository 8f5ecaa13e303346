//! Command routing for contactless signing cards: the command grammars of the
//! two card personalities, the session that gathers what an operation needs,
//! and the rendering of each outcome.

pub mod grammar;
pub mod laws;
pub mod outside;
pub mod render;
pub mod session;
pub mod text;
