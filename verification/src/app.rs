//! The interface as a whole: its state, and what every key and every answer
//! of the peer source does to it.

use vstd::prelude::*;
use vstd::std_specs::cmp::PartialEqSpecImpl;
use crate::dto::Client;
use crate::dto::ClientForm;
use crate::dto::ClientView;
use crate::dto::Clients;
use crate::dto::FormView;
use crate::dto::LogView;
use crate::dto::Logs;
use crate::dto::client_views;
use crate::focus::Focus;
use crate::focus::HomeSection;
use crate::input::Input;
use crate::input::Key;
use crate::modal::Modal;
use crate::modal::ModalView;
use crate::modal::optional_modal_view;
use crate::selection::ListModel;
use crate::wireguard::ProviderError;
use crate::wireguard::Wireguard;

verus! {

/// A request to the peer source, as contracts speak of it.
pub enum CommandView {
    Add(ClientView),
    Update { index: nat, client: ClientView },
    Remove { index: nat },
}

/// A request to the peer source: take a new client, take `client` in place of
/// the one at row `index`, or drop the one at row `index`.
#[derive(Debug)]
pub enum Command {
    Add(Client),
    Update { index: usize, client: Client },
    Remove { index: usize },
}

impl View for Command {
    type V = CommandView;

    open spec fn view(&self) -> CommandView {
        match self {
            Command::Add(client) => CommandView::Add(client@),
            Command::Update { index, client } => CommandView::Update {
                index: *index as nat,
                client: client@,
            },
            Command::Remove { index } => CommandView::Remove { index: *index as nat },
        }
    }
}

impl PartialEq for Command {
    fn eq(&self, other: &Self) -> (equal: bool) {
        match (self, other) {
            (Command::Add(client), Command::Add(other_client)) => client == other_client,
            (
                Command::Update { index, client },
                Command::Update { index: other_index, client: other_client },
            ) => *index == *other_index && client == other_client,
            (Command::Remove { index }, Command::Remove { index: other_index }) => *index
                == *other_index,
            _ => false,
        }
    }
}

impl PartialEqSpecImpl for Command {
    open spec fn obeys_eq_spec() -> bool {
        true
    }

    open spec fn eq_spec(&self, other: &Self) -> bool {
        self@ == other@
    }
}

/// What the program is to do next, as contracts speak of it.
pub enum ActionView {
    Continue,
    Exit,
    Request(CommandView),
}

/// What the program is to do after an event: go on, end, or put a request to
/// the peer source and report the answer with `App::handle_reply`.
#[derive(Debug)]
pub enum Action {
    Continue,
    Exit,
    Request(Command),
}

impl View for Action {
    type V = ActionView;

    open spec fn view(&self) -> ActionView {
        match self {
            Action::Continue => ActionView::Continue,
            Action::Exit => ActionView::Exit,
            Action::Request(command) => ActionView::Request(command@),
        }
    }
}

impl PartialEq for Action {
    fn eq(&self, other: &Self) -> (equal: bool) {
        match (self, other) {
            (Action::Continue, Action::Continue) => true,
            (Action::Exit, Action::Exit) => true,
            (Action::Request(command), Action::Request(other_command)) => command
                == other_command,
            _ => false,
        }
    }
}

impl PartialEqSpecImpl for Action {
    open spec fn obeys_eq_spec() -> bool {
        true
    }

    open spec fn eq_spec(&self, other: &Self) -> bool {
        self@ == other@
    }
}

/// The state of the interface as contracts speak of it.
pub struct AppView {
    pub focus: HomeSection,
    pub modal: Option<ModalView>,
    pub clients: ListModel<ClientView>,
    pub logs: ListModel<LogView>,
    pub pending: bool,
    pub status: Option<ProviderError>,
}

/// The state of the interface: which list has the focus, the open dialog if
/// there is one, the two lists, whether the open dialog waits for an answer
/// of the peer source, and the last failure of the peer source as long as it
/// is worth showing.
#[derive(Debug)]
pub struct App {
    pub focus: HomeSection,
    pub modal: Option<Modal>,
    pub clients: Clients,
    pub logs: Logs,
    pub pending: bool,
    pub status: Option<ProviderError>,
}

impl View for App {
    type V = AppView;

    open spec fn view(&self) -> AppView {
        AppView {
            focus: self.focus,
            modal: optional_modal_view(self.modal),
            clients: self.clients@,
            logs: self.logs@,
            pending: self.pending,
            status: self.status,
        }
    }
}

impl AppView {
    /// The state in which the interface starts over the given lists: no
    /// dialog, the focus on the client table with its first row selected, no
    /// log entry selected.
    pub open spec fn initial(clients: Seq<ClientView>, logs: Seq<LogView>) -> AppView {
        AppView {
            focus: HomeSection::Clients,
            modal: None,
            clients: ListModel::holding(clients),
            logs: ListModel { items: logs, cursor: None },
            pending: false,
            status: None,
        }
    }

    /// What holds of every state that the interface reaches from its start:
    /// both cursors are on a row or unset; the list with the focus has a row
    /// selected unless it is empty; the edit and delete dialogs are open only
    /// over a selected client; and only an open dialog waits for an answer.
    pub open spec fn wf(self) -> bool {
        &&& self.clients.wf()
        &&& self.logs.wf()
        &&& (self.focus == HomeSection::Clients && self.clients.items.len() > 0
            ==> self.clients.cursor is Some)
        &&& (self.focus == HomeSection::Logs && self.logs.items.len() > 0
            ==> self.logs.cursor is Some)
        &&& (self.modal is Some && !(self.modal->0 is CreateClient)
            ==> self.clients.cursor is Some)
        &&& (self.pending ==> self.modal is Some)
    }

    /// The part of the screen that takes the keys: a field of the open form,
    /// or the list with the focus while no dialog is open. The delete dialog
    /// has no part to point at.
    pub open spec fn keyboard_focus(self) -> Option<Focus> {
        match self.modal {
            None => Some(Focus::Home(self.focus)),
            Some(ModalView::CreateClient(form)) => Some(Focus::CreateForm(form.focus.as_field())),
            Some(ModalView::EditClient(form)) => Some(Focus::EditForm(form.focus.as_field())),
            Some(ModalView::DeleteClient) => None,
        }
    }

    /// The dialog `modal` opened in place of whatever dialog was open. A new
    /// dialog waits for no answer.
    pub open spec fn open(self, modal: ModalView) -> AppView {
        AppView { modal: Some(modal), pending: false, ..self }
    }

    /// The create dialog opened with an empty form, in place of whatever
    /// dialog was open.
    pub open spec fn open_create(self) -> AppView {
        self.open(ModalView::CreateClient(FormView::blank()))
    }

    /// The edit dialog opened on the selected client, in place of whatever
    /// dialog was open. Without a selected client nothing changes.
    pub open spec fn open_edit(self) -> AppView {
        match self.clients.selected() {
            Some(client) => self.open(ModalView::EditClient(FormView::editing(client))),
            None => self,
        }
    }

    /// The delete dialog opened, in place of whatever dialog was open.
    /// Without a selected client nothing changes.
    pub open spec fn open_delete(self) -> AppView {
        match self.clients.selected() {
            Some(_) => self.open(ModalView::DeleteClient),
            None => self,
        }
    }

    /// The focus moved to the other list: the list that had it loses its
    /// cursor, the list that gets it has its first row selected.
    pub open spec fn switch_focus(self) -> AppView {
        match self.focus {
            HomeSection::Clients => AppView {
                focus: HomeSection::Logs,
                clients: self.clients.clear_selection(),
                logs: self.logs.select_first(),
                ..self
            },
            HomeSection::Logs => AppView {
                focus: HomeSection::Clients,
                clients: self.clients.select_first(),
                logs: self.logs.clear_selection(),
                ..self
            },
        }
    }

    /// The state after a key that arrives while no dialog is open. Tab
    /// switches the focus; `g`, `G`, `j` or Down, `k` or Up move the cursor of
    /// the list with the focus; on the client table `a`, `e` and `d` open the
    /// dialogs. Every other key changes nothing.
    pub open spec fn home_key(self, key: Key) -> AppView {
        match self.focus {
            HomeSection::Clients => match key {
                Key::Tab => self.switch_focus(),
                Key::Char('g') => AppView { clients: self.clients.select_first(), ..self },
                Key::Char('G') => AppView { clients: self.clients.select_last(), ..self },
                Key::Char('j') | Key::Down => AppView {
                    clients: self.clients.select_next(),
                    ..self
                },
                Key::Char('k') | Key::Up => AppView {
                    clients: self.clients.select_previous(),
                    ..self
                },
                Key::Char('a') => self.open_create(),
                Key::Char('e') => self.open_edit(),
                Key::Char('d') => self.open_delete(),
                _ => self,
            },
            HomeSection::Logs => match key {
                Key::Tab => self.switch_focus(),
                Key::Char('g') => AppView { logs: self.logs.select_first(), ..self },
                Key::Char('G') => AppView { logs: self.logs.select_last(), ..self },
                Key::Char('j') | Key::Down => AppView { logs: self.logs.select_next(), ..self },
                Key::Char('k') | Key::Up => AppView { logs: self.logs.select_previous(), ..self },
                _ => self,
            },
        }
    }

    /// What the program is asked to do after a key that arrives while no
    /// dialog is open: Esc ends it.
    pub open spec fn home_action(self, key: Key) -> ActionView {
        match key {
            Key::Esc => ActionView::Exit,
            _ => ActionView::Continue,
        }
    }

    /// The state after a key. An open dialog gets every key; the main view
    /// gets the keys only while none is open. Any key takes a shown failure
    /// off the screen and gives up waiting for an answer that is still due.
    pub open spec fn after_key(self, key: Key) -> AppView {
        let cleared = AppView { status: None, pending: false, ..self };
        if self.modal is Some {
            cleared.modal_key(key)
        } else {
            cleared.home_key(key)
        }
    }

    /// What the program is asked to do after a key.
    pub open spec fn action_for(self, key: Key) -> ActionView {
        if self.modal is Some {
            self.modal_action(key)
        } else {
            self.home_action(key)
        }
    }

    /// The state after the keys of `keys`, one after the other.
    pub open spec fn after_keys(self, keys: Seq<Key>) -> AppView
        decreases keys.len(),
    {
        if keys.len() == 0 {
            self
        } else {
            self.after_keys(keys.drop_last()).after_key(keys.last())
        }
    }

    /// The state after an event of the terminal. Only a key that went down
    /// reaches the interface, and Control+C not even then.
    pub open spec fn after_input(self, input: Input) -> AppView {
        match input.routed_key() {
            Some(key) if !input.is_interrupt() => self.after_key(key),
            _ => self,
        }
    }

    /// What the program is asked to do after an event of the terminal:
    /// Control+C ends it whatever is open; a key that went down is routed;
    /// every other event is dropped.
    pub open spec fn action_for_input(self, input: Input) -> ActionView {
        if input.is_interrupt() {
            ActionView::Exit
        } else {
            match input.routed_key() {
                Some(key) => self.action_for(key),
                None => ActionView::Continue,
            }
        }
    }

    /// The state after one turn of the event loop with the peer source of
    /// this crate, which does at once whatever it is asked: the event is
    /// taken, and if it puts a request, the request is granted.
    pub open spec fn after_turn(self, input: Input) -> AppView {
        if self.action_for_input(input) is Request {
            self.after_input(input).after_reply(Ok(()))
        } else {
            self.after_input(input)
        }
    }

    /// The client table after the peer source took `client` as a new client:
    /// the client is the new last row, and if the table has the focus and had
    /// no row selected, its first row is selected now.
    pub open spec fn clients_after_add(self, client: ClientView) -> ListModel<ClientView> {
        let appended = self.clients.append(client);
        if self.focus == HomeSection::Clients && appended.cursor is None {
            appended.select_first()
        } else {
            appended
        }
    }

    /// The state after the peer source answered. An answer that no dialog
    /// waits for is dropped. A failure is kept to be shown and leaves the
    /// dialog as it is. A success applies the change of the open dialog to
    /// the client table (the form's client appended, or put in place of the
    /// selected row, or the selected row removed) and closes the dialog.
    /// Either way the waiting is over.
    pub open spec fn after_reply(self, outcome: Result<(), ProviderError>) -> AppView {
        if !self.pending {
            self
        } else {
            match (self.modal, outcome) {
                (None, _) => AppView { pending: false, ..self },
                (Some(_), Err(error)) => AppView { pending: false, status: Some(error), ..self },
                (Some(ModalView::CreateClient(form)), Ok(_)) => AppView {
                    modal: None,
                    pending: false,
                    status: None,
                    clients: self.clients_after_add(form.to_client()),
                    ..self
                },
                (Some(ModalView::EditClient(form)), Ok(_)) => AppView {
                    modal: None,
                    pending: false,
                    status: None,
                    clients: self.clients.replace_selected(form.to_client()),
                    ..self
                },
                (Some(ModalView::DeleteClient), Ok(_)) => AppView {
                    modal: None,
                    pending: false,
                    status: None,
                    clients: self.clients.remove_selected(),
                    ..self
                },
            }
        }
    }
}

impl App {
    /// The interface at start, over the given clients and the sample log.
    pub fn new(clients: Vec<Client>) -> (app: Self)
        ensures
            app@ == AppView::initial(client_views(clients@), app@.logs.items),
            app@.wf(),
            Logs::is_sample(app@.logs.items),
    {
        Self {
            focus: HomeSection::Clients,
            modal: None,
            clients: Clients::init(clients),
            logs: Logs::dummy(),
            pending: false,
            status: None,
        }
    }

    /// The interface at start, over what the peer source listed. Where the
    /// listing failed the client table is empty and the failure is there to
    /// be shown.
    pub fn start(listed: Result<Vec<Client>, ProviderError>) -> (app: Self)
        ensures
            match listed {
                Ok(clients) => app@ == AppView::initial(client_views(clients@), app@.logs.items),
                Err(error) => app@ == (AppView {
                    status: Some(error),
                    ..AppView::initial(Seq::empty(), app@.logs.items)
                }),
            },
            app@.wf(),
            Logs::is_sample(app@.logs.items),
    {
        match listed {
            Ok(clients) => Self::new(clients),
            Err(error) => {
                let mut app = Self::new(Vec::new());
                app.status = Some(error);
                assert(client_views(Seq::<Client>::empty()) =~= Seq::<ClientView>::empty());
                app
            },
        }
    }

    /// The part of the screen that takes the keys.
    pub fn keyboard_focus(&self) -> (focus: Option<Focus>)
        ensures
            focus == self@.keyboard_focus(),
    {
        match &self.modal {
            None => Some(Focus::Home(self.focus)),
            Some(Modal::CreateClient(form)) => Some(Focus::CreateForm(form.focus.field())),
            Some(Modal::EditClient(form)) => Some(Focus::EditForm(form.focus.field())),
            Some(Modal::DeleteClient) => None,
        }
    }

    /// Opens the create dialog with an empty form.
    pub fn open_create(&mut self)
        ensures
            final(self)@ == old(self)@.open_create(),
            old(self)@.wf() ==> final(self)@.wf(),
    {
        self.modal = Some(Modal::CreateClient(ClientForm::new()));
        self.pending = false;
    }

    /// Opens the edit dialog on the selected client, if there is one.
    pub fn open_edit(&mut self)
        ensures
            final(self)@ == old(self)@.open_edit(),
            old(self)@.wf() ==> final(self)@.wf(),
    {
        match self.clients.selected() {
            Some(client) => {
                self.modal = Some(Modal::EditClient(ClientForm::from_client(client)));
                self.pending = false;
            },
            None => {},
        }
    }

    /// Opens the delete dialog, if a client is selected.
    pub fn open_delete(&mut self)
        ensures
            final(self)@ == old(self)@.open_delete(),
            old(self)@.wf() ==> final(self)@.wf(),
    {
        if self.clients.selected_index().is_some() {
            self.modal = Some(Modal::DeleteClient);
            self.pending = false;
        }
    }

    /// Moves the focus to the other list.
    pub fn switch_focus(&mut self)
        ensures
            final(self)@ == old(self)@.switch_focus(),
            old(self)@.wf() && old(self)@.modal is None ==> final(self)@.wf(),
    {
        match self.focus {
            HomeSection::Clients => {
                self.clients.clear_selection();
                self.logs.select_first();
                self.focus = HomeSection::Logs;
            },
            HomeSection::Logs => {
                self.logs.clear_selection();
                self.clients.select_first();
                self.focus = HomeSection::Clients;
            },
        }
    }

    /// Routes one key and says what the program is to do next.
    pub fn handle_key(&mut self, key: Key) -> (action: Action)
        ensures
            final(self)@ == old(self)@.after_key(key),
            action@ == old(self)@.action_for(key),
            old(self)@.wf() ==> final(self)@.wf(),
    {
        self.status = None;
        self.pending = false;
        if self.modal.is_some() {
            return Modal::handle_key(self, key);
        }
        match self.focus {
            HomeSection::Clients => match key {
                Key::Esc => {
                    return Action::Exit;
                },
                Key::Tab => self.switch_focus(),
                Key::Char('g') => self.clients.select_first(),
                Key::Char('G') => self.clients.select_last(),
                Key::Char('j') | Key::Down => self.clients.select_next(),
                Key::Char('k') | Key::Up => self.clients.select_previous(),
                Key::Char('a') => self.open_create(),
                Key::Char('e') => self.open_edit(),
                Key::Char('d') => self.open_delete(),
                _ => {},
            },
            HomeSection::Logs => match key {
                Key::Esc => {
                    return Action::Exit;
                },
                Key::Tab => self.switch_focus(),
                Key::Char('g') => self.logs.select_first(),
                Key::Char('G') => self.logs.select_last(),
                Key::Char('j') | Key::Down => self.logs.select_next(),
                Key::Char('k') | Key::Up => self.logs.select_previous(),
                _ => {},
            },
        }
        Action::Continue
    }

    /// Takes one event of the terminal and says what the program is to do
    /// next.
    pub fn dispatch(&mut self, input: Input) -> (action: Action)
        ensures
            final(self)@ == old(self)@.after_input(input),
            action@ == old(self)@.action_for_input(input),
            old(self)@.wf() ==> final(self)@.wf(),
    {
        match input {
            Input::Key(event) => {
                if !event.pressed {
                    Action::Continue
                } else if event.control && event.key == Key::Char('c') {
                    Action::Exit
                } else {
                    self.handle_key(event.key)
                }
            },
            Input::Other => Action::Continue,
        }
    }

    /// One turn of the event loop with the peer source of this crate: takes
    /// the event, puts the request to the peer source if the event leads to
    /// one, and takes the answer. Says whether the program is to end.
    pub fn turn(&mut self, input: Input) -> (exit: bool)
        ensures
            final(self)@ == old(self)@.after_turn(input),
            exit == (old(self)@.action_for_input(input) is Exit),
            old(self)@.wf() ==> final(self)@.wf(),
    {
        match self.dispatch(input) {
            Action::Continue => false,
            Action::Exit => true,
            Action::Request(command) => {
                let outcome = Wireguard::perform(command);
                self.handle_reply(outcome);
                false
            },
        }
    }

    /// Takes the answer of the peer source to the request of the open
    /// dialog.
    pub fn handle_reply(&mut self, outcome: Result<(), ProviderError>)
        ensures
            final(self)@ == old(self)@.after_reply(outcome),
            old(self)@.wf() ==> final(self)@.wf(),
    {
        if !self.pending {
            return ;
        }
        self.pending = false;
        let modal = self.modal.take();
        match modal {
            None => {},
            Some(modal) => match outcome {
                Err(error) => {
                    self.status = Some(error);
                    self.modal = Some(modal);
                },
                Ok(_) => {
                    self.status = None;
                    match modal {
                        Modal::CreateClient(form) => {
                            self.clients.add_client(form.to_client());
                            if self.focus == HomeSection::Clients && self.clients.cursor.is_none() {
                                self.clients.select_first();
                            }
                        },
                        Modal::EditClient(form) => {
                            self.clients.replace_selected(form.to_client());
                        },
                        Modal::DeleteClient => {
                            let _ = self.clients.remove_selected();
                        },
                    }
                },
            },
        }
    }
}

/// The interface starts in a valid state, and no key, event or answer of the
/// peer source leads out of the valid states. Nor does opening a dialog, nor
/// moving the focus while no dialog is open.
pub proof fn lemma_valid_states_are_closed(
    state: AppView,
    key: Key,
    input: Input,
    outcome: Result<(), ProviderError>,
    clients: Seq<ClientView>,
    logs: Seq<LogView>,
)
    ensures
        AppView::initial(clients, logs).wf(),
        state.wf() ==> state.after_key(key).wf(),
        state.wf() ==> state.after_input(input).wf(),
        state.wf() ==> state.after_reply(outcome).wf(),
        state.wf() ==> state.after_turn(input).wf(),
        state.wf() ==> state.open_create().wf(),
        state.wf() ==> state.open_edit().wf(),
        state.wf() ==> state.open_delete().wf(),
        state.wf() && state.modal is None ==> state.switch_focus().wf(),
{
}

/// Opening a dialog does not depend on the dialog that was open, nor on what
/// that dialog waited for: the new one takes its place, and it is the only
/// one.
pub proof fn lemma_opening_discards_open_dialog(
    state: AppView,
    open: Option<ModalView>,
    pending: bool,
)
    ensures
        (AppView { modal: open, pending, ..state }).open_create() == state.open_create(),
        state.open_create().modal == Some(ModalView::CreateClient(FormView::blank())),
        state.clients.selected() is Some ==> (AppView { modal: open, pending, ..state }).open_edit()
            == state.open_edit(),
        state.clients.selected() is Some ==> state.open_edit().modal == Some(
            ModalView::EditClient(FormView::editing(state.clients.selected()->0)),
        ),
        state.clients.selected() is Some ==> (AppView {
            modal: open,
            pending,
            ..state
        }).open_delete() == state.open_delete(),
        state.clients.selected() is Some ==> state.open_delete().modal == Some(
            ModalView::DeleteClient,
        ),
{
}

/// While a dialog is open no key reaches the main view: focus, lists and
/// cursors stay as they are, and no key ends the program. A dialog never
/// turns into one of another kind: it stays or closes.
pub proof fn lemma_dialog_takes_every_key(state: AppView, key: Key)
    requires
        state.modal is Some,
    ensures
        state.after_key(key).focus == state.focus,
        state.after_key(key).clients == state.clients,
        state.after_key(key).logs == state.logs,
        state.action_for(key) != ActionView::Exit,
        state.after_key(key).pending <==> state.action_for(key) is Request,
        state.after_key(key).modal matches Some(open) ==> (open is CreateClient
            <==> state.modal->0 is CreateClient) && (open is EditClient <==> state.modal->0
            is EditClient),
        state.after_key(Key::Esc).modal is None,
{
}

/// No key changes a row of either list: rows change only when the peer source
/// has answered.
pub proof fn lemma_keys_keep_rows(state: AppView, keys: Seq<Key>)
    ensures
        state.after_keys(keys).clients.items == state.clients.items,
        state.after_keys(keys).logs.items == state.logs.items,
    decreases keys.len(),
{
    if keys.len() > 0 {
        lemma_keys_keep_rows(state, keys.drop_last());
    }
}

/// Whatever is typed into a form, Esc after it leaves everything but the
/// dialog as it was before the typing: the client under edit is not touched.
pub proof fn lemma_cancel_discards_edits(state: AppView, edits: Seq<Key>)
    requires
        state.modal is Some,
        !(state.modal->0 is DeleteClient),
        forall|i: int| 0 <= i < edits.len() ==> edits[i] != Key::Esc && edits[i] != Key::Enter,
    ensures
        state.after_keys(edits).modal is Some,
        state.after_keys(edits).modal->0 is EditClient <==> state.modal->0 is EditClient,
        state.after_keys(edits).modal->0 is CreateClient <==> state.modal->0 is CreateClient,
        edits.len() > 0 ==> state.after_keys(edits) == (AppView {
            modal: state.after_keys(edits).modal,
            pending: false,
            status: None,
            ..state
        }),
        state.after_keys(edits).after_key(Key::Esc) == (AppView {
            modal: None,
            pending: false,
            status: None,
            ..state
        }),
    decreases edits.len(),
{
    if edits.len() > 0 {
        let earlier = edits.drop_last();
        assert forall|i: int| 0 <= i < earlier.len() implies earlier[i] != Key::Esc && earlier[i]
            != Key::Enter by {}
        lemma_cancel_discards_edits(state, earlier);
    }
}

/// `d` without a selected client opens nothing; it changes nothing at all
/// unless a failure was on the screen, which any key takes off. `d` on a
/// selected client opens the delete dialog; `y` then asks the peer source to
/// drop exactly that row, and once it has, that row and no other is gone and
/// the dialog is closed.
pub proof fn lemma_delete_removes_selected_row(state: AppView)
    requires
        state.modal is None,
        state.focus == HomeSection::Clients,
    ensures
        state.clients.selected() is None ==> state.after_key(Key::Char('d')).modal is None,
        state.clients.selected() is None && state.status is None && !state.pending
            ==> state.after_key(Key::Char('d')) == state,
        state.clients.selected_index() matches Some(index) ==> ({
            let asked = state.after_key(Key::Char('d'));
            let confirmed = asked.after_key(Key::Char('y'));
            let done = confirmed.after_reply(Ok(()));
            &&& asked.modal == Some(ModalView::DeleteClient)
            &&& asked.action_for(Key::Char('y')) == ActionView::Request(
                (CommandView::Remove { index }),
            )
            &&& confirmed == (AppView { pending: true, ..asked })
            &&& done.modal is None
            &&& done.clients.items == state.clients.items.remove(index as int)
            &&& done.logs == state.logs
            &&& done.focus == state.focus
        }),
{
}

/// Enter in the create form asks the peer source to take the client that the
/// form spells. Once it has, that client is the new last row and the dialog
/// is closed; if it refuses, the form stays open as it was and the failure is
/// kept to be shown.
pub proof fn lemma_submit_appends_or_keeps_form(
    state: AppView,
    form: FormView,
    error: ProviderError,
)
    requires
        state.modal == Some(ModalView::CreateClient(form)),
    ensures
        state.action_for(Key::Enter) == ActionView::Request(CommandView::Add(form.to_client())),
        state.after_key(Key::Enter) == (AppView { pending: true, status: None, ..state }),
        state.after_key(Key::Enter).after_reply(Ok(())).modal is None,
        state.after_key(Key::Enter).after_reply(Ok(())).clients.items == state.clients.items.push(
            form.to_client(),
        ),
        state.after_key(Key::Enter).after_reply(Err(error)) == (AppView {
            pending: false,
            status: Some(error),
            ..state
        }),
        !state.pending ==> state.after_reply(Ok(())) == state,
{
}

/// With the peer source of this crate Enter in a form is all it takes: in the
/// create form the client that the form spells becomes the new last row, in
/// the edit form it takes the place of the selected row and of no other, and
/// either way the dialog is closed.
pub proof fn lemma_enter_submits_form(state: AppView, form: FormView)
    requires
        state.modal == Some(ModalView::CreateClient(form)) || state.modal == Some(
            ModalView::EditClient(form),
        ),
    ensures
        state.after_turn(Input::pressing(Key::Enter)).modal is None,
        state.after_turn(Input::pressing(Key::Enter)).logs == state.logs,
        state.after_turn(Input::pressing(Key::Enter)).focus == state.focus,
        state.modal->0 is CreateClient ==> state.after_turn(
            Input::pressing(Key::Enter),
        ).clients.items == state.clients.items.push(form.to_client()),
        state.modal->0 is EditClient ==> state.after_turn(Input::pressing(Key::Enter)).clients
            == state.clients.replace_selected(form.to_client()),
{
}

/// With the peer source of this crate `d` and then `y` on a selected client
/// remove exactly that row and close the dialog.
pub proof fn lemma_d_then_y_deletes_selected_row(state: AppView)
    requires
        state.modal is None,
        state.focus == HomeSection::Clients,
        state.clients.selected_index() is Some,
    ensures
        ({
            let index = state.clients.selected_index()->0;
            let done = state.after_turn(Input::pressing(Key::Char('d'))).after_turn(
                Input::pressing(Key::Char('y')),
            );
            &&& done.modal is None
            &&& done.clients.items == state.clients.items.remove(index as int)
            &&& done.logs == state.logs
            &&& done.focus == state.focus
        }),
{
}

/// Control+C ends the program in every state and changes nothing.
pub proof fn lemma_interrupt_always_exits(state: AppView, input: Input)
    requires
        input.is_interrupt(),
    ensures
        state.action_for_input(input) == ActionView::Exit,
        state.after_input(input) == state,
        state.after_turn(input) == state,
{
}

} // verus!
