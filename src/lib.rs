//! A content-moderation policy engine: pattern rules over message text and
//! attachments, channel/role scoping, sliding-window spam detection, and the
//! synthesis of concrete moderation actions from a failing filter.

pub mod action;
pub mod config;
pub mod confusable;
pub mod extract;
pub mod filter;
pub mod message;
pub mod model;
pub mod pattern;
pub mod preview;
pub mod reaction;
pub mod scoping;
pub mod spam;
pub mod text;
