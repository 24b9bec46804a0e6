//! The dialogs that open over the main view, and what keys do in them.

use vstd::prelude::*;
use vstd::std_specs::cmp::PartialEqSpecImpl;
use crate::app::Action;
use crate::app::ActionView;
use crate::app::App;
use crate::app::AppView;
use crate::app::Command;
use crate::app::CommandView;
use crate::dto::ClientForm;
use crate::dto::FormView;
use crate::input::Key;

verus! {

/// An open dialog as contracts speak of it.
pub enum ModalView {
    CreateClient(FormView),
    EditClient(FormView),
    DeleteClient,
}

/// An open dialog: the form for a new client, the form for the selected
/// client, or the question whether to delete the selected client.
#[derive(Debug)]
pub enum Modal {
    CreateClient(ClientForm),
    EditClient(ClientForm),
    DeleteClient,
}

impl View for Modal {
    type V = ModalView;

    open spec fn view(&self) -> ModalView {
        match self {
            Modal::CreateClient(form) => ModalView::CreateClient(form@),
            Modal::EditClient(form) => ModalView::EditClient(form@),
            Modal::DeleteClient => ModalView::DeleteClient,
        }
    }
}

impl PartialEq for Modal {
    fn eq(&self, other: &Self) -> (equal: bool) {
        match (self, other) {
            (Modal::CreateClient(form), Modal::CreateClient(other_form)) => form == other_form,
            (Modal::EditClient(form), Modal::EditClient(other_form)) => form == other_form,
            (Modal::DeleteClient, Modal::DeleteClient) => true,
            _ => false,
        }
    }
}

impl PartialEqSpecImpl for Modal {
    open spec fn obeys_eq_spec() -> bool {
        true
    }

    open spec fn eq_spec(&self, other: &Self) -> bool {
        self@ == other@
    }
}

/// The view of a dialog that may be absent.
pub open spec fn optional_modal_view(modal: Option<Modal>) -> Option<ModalView> {
    match modal {
        Some(modal) => Some(modal@),
        None => None,
    }
}

/// A text field of a dialog as contracts speak of it.
pub struct FieldView {
    pub title: Seq<char>,
    pub value: Seq<char>,
}

/// A text field of a dialog: its label and what has been typed into it.
#[derive(Debug)]
pub struct FieldContent {
    pub title: String,
    pub value: String,
}

impl View for FieldContent {
    type V = FieldView;

    open spec fn view(&self) -> FieldView {
        FieldView { title: self.title@, value: self.value@ }
    }
}

/// What a dialog shows, as contracts speak of it.
pub enum DialogView {
    Form { title: Seq<char>, fields: Seq<FieldView>, footer: Seq<char> },
    Confirm { title: Seq<char>, message: Seq<char> },
}

/// What a dialog shows: a titled form of three fields over a line of help,
/// or a titled question.
#[derive(Debug)]
pub enum DialogContent {
    Form { title: String, fields: [FieldContent; 3], footer: String },
    Confirm { title: String, message: String },
}

impl View for DialogContent {
    type V = DialogView;

    open spec fn view(&self) -> DialogView {
        match self {
            DialogContent::Form { title, fields, footer } => DialogView::Form {
                title: title@,
                fields: Seq::new(fields@.len(), |i: int| fields@[i]@),
                footer: footer@,
            },
            DialogContent::Confirm { title, message } => DialogView::Confirm {
                title: title@,
                message: message@,
            },
        }
    }
}

/// The view of what a dialog shows, where there may be no dialog.
pub open spec fn optional_dialog_view(dialog: Option<DialogContent>) -> Option<DialogView> {
    match dialog {
        Some(dialog) => Some(dialog@),
        None => None,
    }
}

impl DialogView {
    /// The width and the height of the dialog in cells of the terminal. It
    /// stands in the middle of the screen.
    pub open spec fn size(self) -> (u16, u16) {
        match self {
            DialogView::Form { .. } => (64, 12),
            DialogView::Confirm { .. } => (16, 4),
        }
    }
}

impl FormView {
    /// The dialog that shows the form under `title`: the three fields with
    /// their labels, and the keys of the form below them.
    pub open spec fn dialog(self, title: Seq<char>) -> DialogView {
        DialogView::Form {
            title,
            fields: seq![
                FieldView { title: "Name"@, value: self.values.name },
                FieldView { title: "Address"@, value: self.values.address },
                FieldView { title: "Public Key"@, value: self.values.public_key },
            ],
            footer: "(Esc) exit | (Tab) next | (Shift + Tab) previous"@,
        }
    }
}

impl ModalView {
    /// What the dialog shows.
    pub open spec fn dialog(self) -> DialogView {
        match self {
            ModalView::CreateClient(form) => form.dialog("Add Client"@),
            ModalView::EditClient(form) => form.dialog("Edit Client"@),
            ModalView::DeleteClient => DialogView::Confirm {
                title: "Delete Client"@,
                message: "Confirm? y/N"@,
            },
        }
    }
}

impl DialogContent {
    /// The width and the height of the dialog in cells of the terminal.
    pub fn size(&self) -> (size: (u16, u16))
        ensures
            size == self@.size(),
    {
        match self {
            DialogContent::Form { .. } => (64, 12),
            DialogContent::Confirm { .. } => (16, 4),
        }
    }
}

impl FormView {
    /// The form after a key that edits it: Tab and Shift+Tab move between
    /// the fields, Backspace and characters change the active field. Every
    /// other key leaves the form alone.
    pub open spec fn after_key(self, key: Key) -> FormView {
        match key {
            Key::Tab => self.next_field(),
            Key::BackTab => self.prev_field(),
            Key::Backspace => self.backspace(),
            Key::Char(chr) => self.add_char(chr),
            _ => self,
        }
    }
}

impl ClientForm {
    /// Applies a key that edits the form.
    pub fn handle_key(&mut self, key: Key)
        ensures
            final(self)@ == old(self)@.after_key(key),
    {
        match key {
            Key::Tab => self.next_field(),
            Key::BackTab => self.prev_field(),
            Key::Backspace => self.backspace(),
            Key::Char(chr) => self.add_char(chr),
            _ => {},
        }
    }
}

impl AppView {
    /// The dialog after a key that arrives while it is open. Esc closes
    /// either kind of dialog, and so do `n` and Enter in the delete dialog.
    /// In a form the editing keys change the form. Enter in a form and `y` in
    /// the delete dialog leave the dialog as it is, to wait for the peer
    /// source's answer, except where no row is selected that the change could
    /// apply to: the dialog then closes.
    pub open spec fn modal_after(self, key: Key) -> Option<ModalView> {
        match self.modal {
            None => None,
            Some(ModalView::CreateClient(form)) => match key {
                Key::Esc => None,
                _ => Some(ModalView::CreateClient(form.after_key(key))),
            },
            Some(ModalView::EditClient(form)) => match key {
                Key::Esc => None,
                Key::Enter if self.clients.selected_index() is None => None,
                _ => Some(ModalView::EditClient(form.after_key(key))),
            },
            Some(ModalView::DeleteClient) => match key {
                Key::Esc | Key::Enter | Key::Char('n') => None,
                Key::Char('y') if self.clients.selected_index() is None => None,
                _ => self.modal,
            },
        }
    }

    /// The state after a key that arrives while a dialog is open. Nothing
    /// but the dialog changes, and whether it waits for an answer: it does
    /// after the key that put a request to the peer source, and after no
    /// other.
    pub open spec fn modal_key(self, key: Key) -> AppView {
        AppView {
            modal: self.modal_after(key),
            pending: self.modal_action(key) is Request,
            ..self
        }
    }

    /// What the program is asked to do after a key that arrives while a
    /// dialog is open: Enter in a form asks the peer source to take the
    /// client that the form spells, `y` in the delete dialog asks it to drop
    /// the selected client. No key in a dialog ends the program.
    pub open spec fn modal_action(self, key: Key) -> ActionView {
        match (self.modal, key) {
            (Some(ModalView::CreateClient(form)), Key::Enter) => ActionView::Request(
                CommandView::Add(form.to_client()),
            ),
            (Some(ModalView::EditClient(form)), Key::Enter) => match self.clients.selected_index() {
                Some(index) => ActionView::Request(
                    CommandView::Update { index, client: form.to_client() },
                ),
                None => ActionView::Continue,
            },
            (Some(ModalView::DeleteClient), Key::Char('y')) => match self.clients.selected_index() {
                Some(index) => ActionView::Request(CommandView::Remove { index }),
                None => ActionView::Continue,
            },
            _ => ActionView::Continue,
        }
    }
}

impl Modal {
    /// A field of a form as the dialog shows it.
    pub fn create_field(title: &'static str, value: &String) -> (field: FieldContent)
        ensures
            field@ == (FieldView { title: title@, value: value@ }),
    {
        FieldContent { title: title.to_owned(), value: value.clone() }
    }

    fn draw_user_form(title: &str, form: &ClientForm) -> (dialog: DialogContent)
        ensures
            dialog@ == form@.dialog(title@),
    {
        let name_field = Modal::create_field("Name", &form.values.name);
        let address_field = Modal::create_field("Address", &form.values.address);
        let public_key_field = Modal::create_field("Public Key", &form.values.public_key);
        let dialog = DialogContent::Form {
            title: title.to_owned(),
            fields: [name_field, address_field, public_key_field],
            footer: "(Esc) exit | (Tab) next | (Shift + Tab) previous".to_owned(),
        };
        assert(dialog@->Form_fields =~= form@.dialog(title@)->Form_fields);
        dialog
    }

    /// The question whether to delete, as the dialog shows it.
    pub fn draw_delete() -> (dialog: DialogContent)
        ensures
            dialog@ == ModalView::DeleteClient.dialog(),
    {
        DialogContent::Confirm {
            title: "Delete Client".to_owned(),
            message: "Confirm? y/N".to_owned(),
        }
    }

    /// What the dialog shows.
    pub fn draw(&self) -> (dialog: DialogContent)
        ensures
            dialog@ == self@.dialog(),
    {
        match self {
            Modal::CreateClient(form) => Modal::draw_user_form("Add Client", form),
            Modal::EditClient(form) => Modal::draw_user_form("Edit Client", form),
            Modal::DeleteClient => Modal::draw_delete(),
        }
    }

    /// Routes a key to the open dialog. Without a dialog nothing happens.
    pub fn handle_key(app: &mut App, key: Key) -> (action: Action)
        ensures
            final(app)@ == old(app)@.modal_key(key),
            action@ == old(app)@.modal_action(key),
            old(app)@.wf() ==> final(app)@.wf(),
    {
        app.pending = false;
        let modal = app.modal.take();
        match modal {
            None => Action::Continue,
            Some(Modal::CreateClient(mut form)) => match key {
                Key::Esc => Action::Continue,
                Key::Enter => {
                    let client = form.to_client();
                    app.modal = Some(Modal::CreateClient(form));
                    app.pending = true;
                    Action::Request(Command::Add(client))
                },
                _ => {
                    form.handle_key(key);
                    app.modal = Some(Modal::CreateClient(form));
                    Action::Continue
                },
            },
            Some(Modal::EditClient(mut form)) => match key {
                Key::Esc => Action::Continue,
                Key::Enter => match app.clients.selected_index() {
                    Some(index) => {
                        let client = form.to_client();
                        app.modal = Some(Modal::EditClient(form));
                        app.pending = true;
                        Action::Request(Command::Update { index, client })
                    },
                    None => Action::Continue,
                },
                _ => {
                    form.handle_key(key);
                    app.modal = Some(Modal::EditClient(form));
                    Action::Continue
                },
            },
            Some(Modal::DeleteClient) => match key {
                Key::Esc | Key::Enter | Key::Char('n') => Action::Continue,
                Key::Char('y') => match app.clients.selected_index() {
                    Some(index) => {
                        app.modal = Some(Modal::DeleteClient);
                        app.pending = true;
                        Action::Request(Command::Remove { index })
                    },
                    None => Action::Continue,
                },
                _ => {
                    app.modal = Some(Modal::DeleteClient);
                    Action::Continue
                },
            },
        }
    }
}

} // verus!
