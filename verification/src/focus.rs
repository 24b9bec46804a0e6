//! Which part of the screen has the keyboard.

use vstd::prelude::*;

verus! {

/// The two lists of the main view.
#[derive(Clone, Copy, Debug, PartialEq, Eq, Structural)]
pub enum HomeSection {
    Clients,
    Logs,
}

/// The three fields of the client form.
#[derive(Clone, Copy, Debug, PartialEq, Eq, Structural)]
pub enum ClientFormField {
    Name,
    Address,
    PublicKey,
}

/// The part of the screen that takes the keys: a list of the main view, or a
/// field of the form that creates or edits a client.
#[derive(Clone, Copy, Debug, PartialEq, Eq, Structural)]
pub enum Focus {
    Home(HomeSection),
    CreateForm(ClientFormField),
    EditForm(ClientFormField),
}

impl Focus {
    /// The focus at start: the client table.
    pub fn new() -> (focus: Self)
        ensures
            focus == Focus::Home(HomeSection::Clients),
    {
        Self::Home(HomeSection::Clients)
    }
}

} // verus!
