//! What the screen shows, as plain text and numbers. A terminal program turns
//! this into widgets; nothing here draws, and nothing here changes the state.

use vstd::prelude::*;
use crate::app::App;
use crate::app::AppView;
use crate::dto::ClientView;
use crate::dto::Clients;
use crate::dto::LogView;
use crate::dto::Logs;
use crate::modal::DialogContent;
use crate::modal::DialogView;
use crate::modal::optional_dialog_view;
use crate::selection::ListModel;
use crate::selection::position;
use crate::text::texts;
use crate::wireguard::ProviderError;

verus! {

/// The height of the header and of the footer, in rows of the terminal. The
/// two lists share what is left between them.
pub const BAR_HEIGHT: u16 = 3;

/// The share of the width that the client table takes, in percent.
pub const CLIENTS_WIDTH: u16 = 60;

/// The share of the width that the log list takes, in percent.
pub const LOGS_WIDTH: u16 = 40;

/// The mark in front of the selected row of a list.
pub const HIGHLIGHT_SYMBOL: &'static str = ">";

/// A table as contracts speak of it.
pub struct TableView {
    pub title: Seq<char>,
    pub header: Seq<Seq<char>>,
    pub widths: Seq<u16>,
    pub rows: Seq<Seq<Seq<char>>>,
    pub selected: Option<nat>,
}

/// A table of three columns: its title, the column heads, the share of the
/// width that each column takes in percent, the rows, and the index of the
/// row to highlight.
#[derive(Debug)]
pub struct TableContent {
    pub title: String,
    pub header: [String; 3],
    pub widths: [u16; 3],
    pub rows: Vec<[String; 3]>,
    pub selected: Option<usize>,
}

impl View for TableContent {
    type V = TableView;

    open spec fn view(&self) -> TableView {
        TableView {
            title: self.title@,
            header: texts(self.header@),
            widths: self.widths@,
            rows: Seq::new(self.rows@.len(), |i: int| texts(self.rows@[i]@)),
            selected: position(self.selected),
        }
    }
}

/// A list of lines as contracts speak of it.
pub struct LinesView {
    pub title: Seq<char>,
    pub items: Seq<Seq<char>>,
    pub selected: Option<nat>,
}

/// A list of lines: its title, the lines, and the index of the line to
/// highlight.
#[derive(Debug)]
pub struct ListContent {
    pub title: String,
    pub items: Vec<String>,
    pub selected: Option<usize>,
}

impl View for ListContent {
    type V = LinesView;

    open spec fn view(&self) -> LinesView {
        LinesView { title: self.title@, items: texts(self.items@), selected: position(self.selected) }
    }
}

/// The whole screen as contracts speak of it.
pub struct ScreenView {
    pub header: Seq<char>,
    pub footer: Seq<char>,
    pub clients: TableView,
    pub logs: LinesView,
    pub dialog: Option<DialogView>,
}

/// The whole screen: header on top, footer at the bottom, the client table
/// and the log list side by side between them, and over all of it the dialog
/// if one is open.
#[derive(Debug)]
pub struct Screen {
    pub header: String,
    pub footer: String,
    pub clients: TableContent,
    pub logs: ListContent,
    pub dialog: Option<DialogContent>,
}

impl View for Screen {
    type V = ScreenView;

    open spec fn view(&self) -> ScreenView {
        ScreenView {
            header: self.header@,
            footer: self.footer@,
            clients: self.clients@,
            logs: self.logs@,
            dialog: optional_dialog_view(self.dialog),
        }
    }
}

/// The three cells of a client's row.
pub open spec fn client_row(client: ClientView) -> Seq<Seq<char>> {
    seq![client.name, client.address, client.public_key]
}

/// The client table on the screen: a row for each client, the selected row
/// highlighted.
pub open spec fn clients_table(clients: ListModel<ClientView>) -> TableView {
    TableView {
        title: "Clients"@,
        header: seq!["Name"@, "Address"@, "Public Key"@],
        widths: seq![30u16, 30u16, 40u16],
        rows: Seq::new(clients.items.len(), |i: int| client_row(clients.items[i])),
        selected: clients.selected_index(),
    }
}

/// The log list on the screen: a line for each entry, the selected line
/// highlighted.
pub open spec fn logs_list(logs: ListModel<LogView>) -> LinesView {
    LinesView {
        title: "Logs"@,
        items: Seq::new(logs.items.len(), |i: int| logs.items[i].line()),
        selected: logs.selected_index(),
    }
}

/// The line of the footer: the keys of the main view, or in their place the
/// failure of the peer source as long as there is one to show.
pub open spec fn footer_line(status: Option<ProviderError>) -> Seq<char> {
    match status {
        Some(error) => error.words(),
        None => "(Esc) quit | (Tab) switch focus | (g) top | (G) bottom | (j) down | (k) up"@,
    }
}

/// The screen that shows a state.
pub open spec fn screen_of(app: AppView) -> ScreenView {
    ScreenView {
        header: "Wireguard TUI"@,
        footer: footer_line(app.status),
        clients: clients_table(app.clients),
        logs: logs_list(app.logs),
        dialog: match app.modal {
            Some(modal) => Some(modal.dialog()),
            None => None,
        },
    }
}

/// The text of the header.
pub fn create_header() -> (text: String)
    ensures
        text@ == "Wireguard TUI"@,
{
    "Wireguard TUI".to_owned()
}

/// The text of the footer: the keys of the main view, or the failure to show.
pub fn create_footer(status: Option<ProviderError>) -> (text: String)
    ensures
        text@ == footer_line(status),
{
    match status {
        Some(error) => error.message(),
        None => "(Esc) quit | (Tab) switch focus | (g) top | (G) bottom | (j) down | (k) up".to_owned(),
    }
}

/// The client table as the screen shows it.
pub fn create_clients(clients: &Clients) -> (table: TableContent)
    ensures
        table@ == clients_table(clients@),
{
    let mut rows: Vec<[String; 3]> = Vec::new();
    let mut i: usize = 0;
    while i < clients.data.len()
        invariant
            i <= clients.data.len(),
            rows@.len() == i,
            forall|j: int| 0 <= j < i ==> texts(#[trigger] rows@[j]@) == client_row(clients@.items[j]),
        decreases clients.data.len() - i,
    {
        let columns = clients.data[i].ref_array();
        let row = [columns[0].clone(), columns[1].clone(), columns[2].clone()];
        rows.push(row);
        i += 1;
    }
    let table = TableContent {
        title: "Clients".to_owned(),
        header: ["Name".to_owned(), "Address".to_owned(), "Public Key".to_owned()],
        widths: [30, 30, 40],
        rows,
        selected: clients.selected_index(),
    };
    assert(table@.header =~= clients_table(clients@).header);
    assert(table@.rows =~= clients_table(clients@).rows);
    table
}

/// The log list as the screen shows it.
pub fn create_logs(logs: &Logs) -> (list: ListContent)
    ensures
        list@ == logs_list(logs@),
{
    let mut items: Vec<String> = Vec::new();
    let mut i: usize = 0;
    while i < logs.data.len()
        invariant
            i <= logs.data.len(),
            items@.len() == i,
            forall|j: int| 0 <= j < i ==> (#[trigger] items@[j])@ == logs@.items[j].line(),
        decreases logs.data.len() - i,
    {
        items.push(logs.data[i].to_string());
        i += 1;
    }
    let list = ListContent { title: "Logs".to_owned(), items, selected: logs.selected_index() };
    assert(list@.items =~= logs_list(logs@).items);
    list
}

/// The screen that shows the state of the interface.
pub fn draw(app: &App) -> (screen: Screen)
    ensures
        screen@ == screen_of(app@),
{
    Screen {
        header: create_header(),
        footer: create_footer(app.status),
        clients: create_clients(&app.clients),
        logs: create_logs(&app.logs),
        dialog: match &app.modal {
            Some(modal) => Some(modal.draw()),
            None => None,
        },
    }
}

} // verus!
