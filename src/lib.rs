//! State and decisions of a configuration form that composes toast
//! notifications: the form's fields, the option tokens of its selectors,
//! the parsing of the expiry input, and the request that a submit sends.

pub mod text;
pub mod level;
pub mod position;
pub mod toast;
pub mod form;
