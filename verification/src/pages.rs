//! The two pages of the interface as values of their own: the main view and
//! the titled form.

pub mod form;
pub mod home;
