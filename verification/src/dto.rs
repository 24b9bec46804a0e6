//! The records that the interface shows and edits: clients, log entries, the
//! two selectable lists that hold them, and the form behind the dialogs.

use vstd::prelude::*;
use vstd::std_specs::cmp::PartialEqSpecImpl;
use crate::clock::utc_now;
use crate::clock::Timestamp;
use crate::focus::ClientFormField;
use crate::selection;
use crate::selection::ListModel;
use crate::selection::position;
use crate::text::shrink_to;

verus! {

/// A client as plain text, the way contracts speak of it.
pub struct ClientView {
    pub name: Seq<char>,
    pub address: Seq<char>,
    pub public_key: Seq<char>,
}

/// One WireGuard peer.
#[derive(Debug)]
pub struct Client {
    pub name: String,
    pub address: String,
    pub public_key: String,
}

impl View for Client {
    type V = ClientView;

    open spec fn view(&self) -> ClientView {
        ClientView { name: self.name@, address: self.address@, public_key: self.public_key@ }
    }
}

impl Clone for Client {
    fn clone(&self) -> (copy: Self)
        ensures
            copy@ == self@,
    {
        Client {
            name: self.name.clone(),
            address: self.address.clone(),
            public_key: self.public_key.clone(),
        }
    }
}

impl PartialEq for Client {
    fn eq(&self, other: &Self) -> (equal: bool) {
        self.name == other.name && self.address == other.address && self.public_key
            == other.public_key
    }
}

impl PartialEqSpecImpl for Client {
    open spec fn obeys_eq_spec() -> bool {
        true
    }

    open spec fn eq_spec(&self, other: &Self) -> bool {
        self@ == other@
    }
}

impl Client {
    /// The three columns of the client in display order.
    pub fn ref_array(&self) -> (columns: [&String; 3])
        ensures
            columns[0] == &self.name,
            columns[1] == &self.address,
            columns[2] == &self.public_key,
    {
        [&self.name, &self.address, &self.public_key]
    }
}

/// The views of a sequence of clients, row by row.
pub open spec fn client_views(clients: Seq<Client>) -> Seq<ClientView> {
    Seq::new(clients.len(), |i: int| clients[i]@)
}

/// The view of a client that may be absent.
pub open spec fn optional_client_view(client: Option<Client>) -> Option<ClientView> {
    match client {
        Some(client) => Some(client@),
        None => None,
    }
}

/// The table of clients: the rows and the cursor over them.
#[derive(Debug)]
pub struct Clients {
    pub data: Vec<Client>,
    pub cursor: Option<usize>,
}

impl View for Clients {
    type V = ListModel<ClientView>;

    open spec fn view(&self) -> ListModel<ClientView> {
        ListModel { items: client_views(self.data@), cursor: position(self.cursor) }
    }
}

impl Clients {
    /// A table without rows.
    pub fn new() -> (clients: Self)
        ensures
            clients@ == ListModel::<ClientView>::empty(),
            clients@.wf(),
    {
        let clients = Self { data: Vec::new(), cursor: None };
        assert(clients@.items =~= Seq::empty());
        clients
    }

    /// A table of the given rows with the cursor on the first.
    pub fn init(clients: Vec<Client>) -> (table: Self)
        ensures
            table@ == ListModel::holding(client_views(clients@)),
            table@.wf(),
    {
        let cursor = selection::first(clients.len());
        Self { data: clients, cursor }
    }

    /// Drops every row, and with them the cursor.
    pub fn clear(&mut self)
        ensures
            final(self)@ == ListModel::<ClientView>::empty(),
            final(self)@.wf(),
    {
        self.data.clear();
        shrink_to(&mut self.data, 5);
        self.cursor = selection::first(self.data.len());
        assert(self@.items =~= Seq::empty());
    }

    /// Appends a row. The cursor stays where it is.
    pub fn add_client(&mut self, client: Client)
        ensures
            final(self)@ == old(self)@.append(client@),
            old(self)@.wf() ==> final(self)@.wf(),
    {
        self.data.push(client);
        assert(self@.items =~= old(self)@.items.push(client@));
    }

    /// Exchanges all rows for `clients` and puts the cursor on the first.
    pub fn set_clients(&mut self, clients: Vec<Client>)
        ensures
            final(self)@ == old(self)@.replace_items(client_views(clients@)),
            final(self)@.wf(),
    {
        self.cursor = selection::first(clients.len());
        self.data = clients;
    }

    /// Puts the cursor on the first row, if there is one.
    pub fn select_first(&mut self)
        ensures
            final(self)@ == old(self)@.select_first(),
            final(self)@.wf(),
    {
        self.cursor = selection::first(self.data.len());
    }

    /// Puts the cursor on the last row, if there is one.
    pub fn select_last(&mut self)
        ensures
            final(self)@ == old(self)@.select_last(),
            final(self)@.wf(),
    {
        self.cursor = selection::last(self.data.len());
    }

    /// Moves the cursor one row down, or onto the first row if it was unset.
    /// On the last row it stays.
    pub fn select_next(&mut self)
        ensures
            final(self)@ == old(self)@.select_next(),
            final(self)@.wf(),
    {
        self.cursor = selection::next(self.data.len(), self.cursor);
    }

    /// Moves the cursor one row up, or onto the last row if it was unset. On
    /// the first row it stays.
    pub fn select_previous(&mut self)
        ensures
            final(self)@ == old(self)@.select_previous(),
            final(self)@.wf(),
    {
        self.cursor = selection::previous(self.data.len(), self.cursor);
    }

    /// Unsets the cursor.
    pub fn clear_selection(&mut self)
        ensures
            final(self)@ == old(self)@.clear_selection(),
            final(self)@.wf(),
    {
        self.cursor = None;
    }

    /// The index of the selected row, if the cursor points at one.
    pub fn selected_index(&self) -> (index: Option<usize>)
        ensures
            position(index) == self@.selected_index(),
    {
        match self.cursor {
            Some(i) => if i < self.data.len() {
                Some(i)
            } else {
                None
            },
            None => None,
        }
    }

    /// A copy of the selected row, if the cursor points at one.
    pub fn selected(&self) -> (client: Option<Client>)
        ensures
            optional_client_view(client) == self@.selected(),
    {
        match self.selected_index() {
            Some(i) => Some(self.data[i].clone()),
            None => None,
        }
    }

    /// Puts `client` in the place of the selected row. Without a selected row
    /// nothing changes.
    pub fn replace_selected(&mut self, client: Client)
        ensures
            final(self)@ == old(self)@.replace_selected(client@),
            old(self)@.wf() ==> final(self)@.wf(),
    {
        match self.selected_index() {
            Some(i) => {
                self.data.set(i, client);
                assert(self@.items =~= old(self)@.items.update(i as int, client@));
            },
            None => {},
        }
    }

    /// Takes the selected row out and returns it. The cursor then points at
    /// the row that followed, or at the new last row. Without a selected row
    /// nothing changes.
    pub fn remove_selected(&mut self) -> (removed: Option<Client>)
        ensures
            final(self)@ == old(self)@.remove_selected(),
            old(self)@.wf() ==> final(self)@.wf(),
            optional_client_view(removed) == old(self)@.selected(),
    {
        match self.selected_index() {
            Some(i) => {
                let removed = self.data.remove(i);
                self.cursor = selection::clamp(self.data.len(), self.cursor);
                assert(self@.items =~= old(self)@.items.remove(i as int));
                Some(removed)
            },
            None => None,
        }
    }
}

/// Whether a log entry records a peer coming or going.
#[derive(Clone, Copy, Debug, PartialEq, Eq, Structural)]
pub enum LogStatus {
    Connected,
    Disconnected,
}

/// A log entry as contracts speak of it.
pub struct LogView {
    pub timestamp: Timestamp,
    pub client: ClientView,
    pub status: LogStatus,
}

/// One connection event: when, which peer as it was then, and what happened.
#[derive(Debug)]
pub struct Log {
    pub timestamp: Timestamp,
    pub client: Client,
    pub status: LogStatus,
}

impl View for Log {
    type V = LogView;

    open spec fn view(&self) -> LogView {
        LogView { timestamp: self.timestamp, client: self.client@, status: self.status }
    }
}

impl LogView {
    /// The line that stands for the entry in the log list.
    pub open spec fn line(self) -> Seq<char> {
        "TIME CLIENT TYPE"@
    }
}

impl Log {
    /// The line that stands for the entry in the log list.
    pub fn to_string(&self) -> (line: String)
        ensures
            line@ == self@.line(),
    {
        "TIME CLIENT TYPE".to_owned()
    }
}

/// The views of a sequence of log entries, row by row.
pub open spec fn log_views(logs: Seq<Log>) -> Seq<LogView> {
    Seq::new(logs.len(), |i: int| logs[i]@)
}

/// The log list: the entries and the cursor over them.
#[derive(Debug)]
pub struct Logs {
    pub data: Vec<Log>,
    pub cursor: Option<usize>,
}

impl View for Logs {
    type V = ListModel<LogView>;

    open spec fn view(&self) -> ListModel<LogView> {
        ListModel { items: log_views(self.data@), cursor: position(self.cursor) }
    }
}

/// The three peers of the sample log, in order.
pub open spec fn sample_clients() -> Seq<ClientView> {
    seq![
        ClientView { name: "Albert"@, address: "10.0.0.1"@, public_key: "abc123"@ },
        ClientView { name: "Bobby"@, address: "10.0.0.2"@, public_key: "def456"@ },
        ClientView { name: "Charles"@, address: "10.0.0.3"@, public_key: "ghi789"@ },
    ]
}

/// What happened to each peer of the sample log, in order.
pub open spec fn sample_statuses() -> Seq<LogStatus> {
    seq![LogStatus::Connected, LogStatus::Disconnected, LogStatus::Connected]
}

impl Logs {
    /// The index of the selected entry, if the cursor points at one.
    pub fn selected_index(&self) -> (index: Option<usize>)
        ensures
            position(index) == self@.selected_index(),
    {
        match self.cursor {
            Some(i) => if i < self.data.len() {
                Some(i)
            } else {
                None
            },
            None => None,
        }
    }

    /// The entries are those of the sample log: its three peers in order,
    /// each with its status, at whatever times.
    pub open spec fn is_sample(items: Seq<LogView>) -> bool {
        &&& items.len() == 3
        &&& forall|i: int|
            0 <= i < 3 ==> (#[trigger] items[i]).client == sample_clients()[i] && items[i].status
                == sample_statuses()[i]
    }

    /// A sample log of three entries, each stamped with the moment it was
    /// made, and no entry selected.
    pub fn dummy() -> (logs: Self)
        ensures
            logs@.cursor is None,
            logs@.wf(),
            Self::is_sample(logs@.items),
    {
        let mut dummy_logs = Vec::new();

        dummy_logs.push(
            Log {
                timestamp: utc_now(),
                client: Client {
                    name: "Albert".to_owned(),
                    address: "10.0.0.1".to_owned(),
                    public_key: "abc123".to_owned(),
                },
                status: LogStatus::Connected,
            },
        );

        dummy_logs.push(
            Log {
                timestamp: utc_now(),
                client: Client {
                    name: "Bobby".to_owned(),
                    address: "10.0.0.2".to_owned(),
                    public_key: "def456".to_owned(),
                },
                status: LogStatus::Disconnected,
            },
        );

        dummy_logs.push(
            Log {
                timestamp: utc_now(),
                client: Client {
                    name: "Charles".to_owned(),
                    address: "10.0.0.3".to_owned(),
                    public_key: "ghi789".to_owned(),
                },
                status: LogStatus::Connected,
            },
        );

        Self { data: dummy_logs, cursor: None }
    }

    /// Puts the cursor on the first row, if there is one.
    pub fn select_first(&mut self)
        ensures
            final(self)@ == old(self)@.select_first(),
            final(self)@.wf(),
    {
        self.cursor = selection::first(self.data.len());
    }

    /// Puts the cursor on the last row, if there is one.
    pub fn select_last(&mut self)
        ensures
            final(self)@ == old(self)@.select_last(),
            final(self)@.wf(),
    {
        self.cursor = selection::last(self.data.len());
    }

    /// Moves the cursor one row down, or onto the first row if it was unset.
    /// On the last row it stays.
    pub fn select_next(&mut self)
        ensures
            final(self)@ == old(self)@.select_next(),
            final(self)@.wf(),
    {
        self.cursor = selection::next(self.data.len(), self.cursor);
    }

    /// Moves the cursor one row up, or onto the last row if it was unset. On
    /// the first row it stays.
    pub fn select_previous(&mut self)
        ensures
            final(self)@ == old(self)@.select_previous(),
            final(self)@.wf(),
    {
        self.cursor = selection::previous(self.data.len(), self.cursor);
    }

    /// Unsets the cursor.
    pub fn clear_selection(&mut self)
        ensures
            final(self)@ == old(self)@.clear_selection(),
            final(self)@.wf(),
    {
        self.cursor = None;
    }
}

/// The field of the form that takes the keys.
#[derive(Clone, Copy, Debug, PartialEq, Eq, Structural)]
pub enum ClientFocus {
    Name,
    Address,
    PublicKey,
}

/// The number of fields of the form.
pub const FIELD_COUNT: usize = 3;

impl ClientFocus {
    /// The place of the field in the form, counted from 0.
    pub open spec fn ordinal(self) -> nat {
        match self {
            ClientFocus::Name => 0,
            ClientFocus::Address => 1,
            ClientFocus::PublicKey => 2,
        }
    }

    /// The field at place `n`, counted round the form.
    pub open spec fn from_ordinal(n: nat) -> ClientFocus {
        let place = n % (FIELD_COUNT as nat);
        if place == 0 {
            ClientFocus::Name
        } else if place == 1 {
            ClientFocus::Address
        } else {
            ClientFocus::PublicKey
        }
    }

    /// The field under the name that the focus of the screen gives it.
    pub open spec fn as_field(self) -> ClientFormField {
        match self {
            ClientFocus::Name => ClientFormField::Name,
            ClientFocus::Address => ClientFormField::Address,
            ClientFocus::PublicKey => ClientFormField::PublicKey,
        }
    }

    /// The field after this one; after the last comes the first.
    pub open spec fn next(self) -> ClientFocus {
        Self::from_ordinal(self.ordinal() + 1)
    }

    /// The field before this one; before the first comes the last.
    pub open spec fn prev(self) -> ClientFocus {
        Self::from_ordinal((self.ordinal() + FIELD_COUNT - 1) as nat)
    }

    /// The place of the field in the form, counted from 0.
    pub fn index(self) -> (i: usize)
        ensures
            i == self.ordinal(),
            i < FIELD_COUNT,
    {
        match self {
            ClientFocus::Name => 0,
            ClientFocus::Address => 1,
            ClientFocus::PublicKey => 2,
        }
    }

    /// The field under the name that the focus of the screen gives it.
    pub fn field(self) -> (field: ClientFormField)
        ensures
            field == self.as_field(),
    {
        match self {
            ClientFocus::Name => ClientFormField::Name,
            ClientFocus::Address => ClientFormField::Address,
            ClientFocus::PublicKey => ClientFormField::PublicKey,
        }
    }

    /// The field at place `i`, counted round the form.
    pub fn from_index(i: usize) -> (field: ClientFocus)
        ensures
            field == Self::from_ordinal(i as nat),
    {
        let place: usize = i % FIELD_COUNT;
        if place == 0 {
            ClientFocus::Name
        } else if place == 1 {
            ClientFocus::Address
        } else {
            ClientFocus::PublicKey
        }
    }
}

/// The form as contracts speak of it.
pub struct FormView {
    pub values: ClientView,
    pub callback: Option<ClientView>,
    pub focus: ClientFocus,
}

impl FormView {
    /// The form that opens for a new client: three empty fields, the first
    /// one active.
    pub open spec fn blank() -> FormView {
        FormView {
            values: ClientView {
                name: Seq::empty(),
                address: Seq::empty(),
                public_key: Seq::empty(),
            },
            callback: None,
            focus: ClientFocus::Name,
        }
    }

    /// The form that opens to edit `client`: its three values in the fields,
    /// the client itself kept aside, the first field active.
    pub open spec fn editing(client: ClientView) -> FormView {
        FormView { values: client, callback: Some(client), focus: ClientFocus::Name }
    }

    /// The text of the active field.
    pub open spec fn active(self) -> Seq<char> {
        match self.focus {
            ClientFocus::Name => self.values.name,
            ClientFocus::Address => self.values.address,
            ClientFocus::PublicKey => self.values.public_key,
        }
    }

    /// The form with `text` in the active field and the other fields as they
    /// are.
    pub open spec fn with_active(self, text: Seq<char>) -> FormView {
        let values = match self.focus {
            ClientFocus::Name => ClientView { name: text, ..self.values },
            ClientFocus::Address => ClientView { address: text, ..self.values },
            ClientFocus::PublicKey => ClientView { public_key: text, ..self.values },
        };
        FormView { values, ..self }
    }

    /// The form with the next field active.
    pub open spec fn next_field(self) -> FormView {
        FormView { focus: self.focus.next(), ..self }
    }

    /// The form with the field before active.
    pub open spec fn prev_field(self) -> FormView {
        FormView { focus: self.focus.prev(), ..self }
    }

    /// `chr` appended to the active field.
    pub open spec fn add_char(self, chr: char) -> FormView {
        self.with_active(self.active().push(chr))
    }

    /// The last character of the active field removed, if it has one.
    pub open spec fn backspace(self) -> FormView {
        if self.active().len() == 0 {
            self
        } else {
            self.with_active(self.active().drop_last())
        }
    }

    /// The client that the fields spell.
    pub open spec fn to_client(self) -> ClientView {
        self.values
    }
}

/// The text fields of the create and edit dialogs. `callback` is the client
/// under edit, untouched by typing; a form for a new client has none.
#[derive(Debug)]
pub struct ClientForm {
    pub values: Client,
    pub callback: Option<Client>,
    pub focus: ClientFocus,
}

impl View for ClientForm {
    type V = FormView;

    open spec fn view(&self) -> FormView {
        FormView {
            values: self.values@,
            callback: match self.callback {
                Some(client) => Some(client@),
                None => None,
            },
            focus: self.focus,
        }
    }
}

impl PartialEq for ClientForm {
    fn eq(&self, other: &Self) -> (equal: bool) {
        self.values == other.values && self.callback == other.callback && self.focus
            == other.focus
    }
}

impl PartialEqSpecImpl for ClientForm {
    open spec fn obeys_eq_spec() -> bool {
        true
    }

    open spec fn eq_spec(&self, other: &Self) -> bool {
        self@ == other@
    }
}

impl ClientForm {
    /// The form for a new client: three empty fields, the first one active.
    pub fn new() -> (form: Self)
        ensures
            form@ == FormView::blank(),
    {
        Self {
            values: Client {
                name: String::new(),
                address: String::new(),
                public_key: String::new(),
            },
            callback: None,
            focus: ClientFocus::Name,
        }
    }

    /// The form to edit `client`: its values in the fields, the client itself
    /// kept aside.
    pub fn from_client(client: Client) -> (form: Self)
        ensures
            form@ == FormView::editing(client@),
    {
        Self { values: client.clone(), callback: Some(client), focus: ClientFocus::Name }
    }

    /// Makes the next field active; after the last comes the first.
    pub fn next_field(&mut self)
        ensures
            final(self)@ == old(self)@.next_field(),
    {
        self.focus = ClientFocus::from_index((self.focus.index() + 1) % FIELD_COUNT);
    }

    /// Makes the field before active; before the first comes the last.
    pub fn prev_field(&mut self)
        ensures
            final(self)@ == old(self)@.prev_field(),
    {
        self.focus = ClientFocus::from_index((self.focus.index() + FIELD_COUNT - 1) % FIELD_COUNT);
    }

    /// Removes the last character of the active field, if it has one.
    pub fn backspace(&mut self)
        ensures
            final(self)@ == old(self)@.backspace(),
    {
        match self.focus {
            ClientFocus::Name => {
                let _ = self.values.name.pop();
            },
            ClientFocus::Address => {
                let _ = self.values.address.pop();
            },
            ClientFocus::PublicKey => {
                let _ = self.values.public_key.pop();
            },
        }
    }

    /// Appends `chr` to the active field.
    pub fn add_char(&mut self, chr: char)
        ensures
            final(self)@ == old(self)@.add_char(chr),
    {
        match self.focus {
            ClientFocus::Name => self.values.name.push(chr),
            ClientFocus::Address => self.values.address.push(chr),
            ClientFocus::PublicKey => self.values.public_key.push(chr),
        }
    }

    /// The client that the fields spell at this moment.
    pub fn to_client(&self) -> (client: Client)
        ensures
            client@ == self@.to_client(),
    {
        self.values.clone()
    }
}

/// Three steps forward, or three steps back, come round to the same field,
/// and fewer steps do not. A step back undoes a step forward.
pub proof fn lemma_field_rotation_has_order_three(field: ClientFocus)
    ensures
        field.next().next().next() == field,
        field.prev().prev().prev() == field,
        field.next().prev() == field,
        field.prev().next() == field,
        field.next() != field,
        field.next().next() != field,
        field.prev() != field,
        field.prev().prev() != field,
{
}

/// `next_field` three times, or `prev_field` three times, gives the form
/// back as it was, and each undoes the other.
pub proof fn lemma_form_rotation_has_order_three(form: FormView)
    ensures
        form.next_field().next_field().next_field() == form,
        form.prev_field().prev_field().prev_field() == form,
        form.next_field().prev_field() == form,
        form.prev_field().next_field() == form,
{
    lemma_field_rotation_has_order_three(form.focus);
}

} // verus!
