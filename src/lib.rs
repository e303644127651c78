//! Interaction core of a terminal HTTP request composer: focus and tab
//! cycling, key routing into text fields, content validation and request
//! assembly.

pub mod editor;
pub mod modes;
pub mod request;
pub mod router;
pub mod state;
pub mod textarea;
pub mod validate;
