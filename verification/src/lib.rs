//! State and key routing for a terminal front-end that lists WireGuard
//! clients next to a connection log.
//!
//! The crate holds no terminal code. It keeps the two selectable lists, the
//! form behind the create and edit dialogs and the focus between them, says
//! for every key what the next state is, and says what the screen shows in
//! each state. Drawing, reading keys and running `wg` belong to the program
//! that uses it.
//!
//! - [`selection`]: the cursor of a list, and what moving it means.
//! - [`dto`]: clients, log entries, the two lists and the form.
//! - [`input`]: keys and terminal events.
//! - [`focus`]: the parts of the screen that can have the keyboard.
//! - [`modal`]: the dialogs and the keys in them.
//! - [`app`]: the interface as a whole, as a state machine over keys and the
//!   answers of the peer source.
//! - [`wireguard`]: the peer source and the listing that it prints.
//! - [`ui`]: the content of the screen.
//! - [`pages`]: the main view and the titled form as values of their own.
//! - [`clock`], [`text`]: what is taken from chrono and from the standard
//!   library without proof.

pub mod app;
pub mod clock;
pub mod dto;
pub mod focus;
pub mod input;
pub mod modal;
pub mod pages;
pub mod selection;
pub mod text;
pub mod ui;
pub mod wireguard;
