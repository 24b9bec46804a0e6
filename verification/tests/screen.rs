use wireguard_tui::app::App;
use wireguard_tui::clock::Timestamp;
use wireguard_tui::dto::Client;
use wireguard_tui::dto::Clients;
use wireguard_tui::dto::Log;
use wireguard_tui::dto::LogStatus;
use wireguard_tui::dto::Logs;
use wireguard_tui::input::Key;
use wireguard_tui::modal::DialogContent;
use wireguard_tui::modal::Modal;
use wireguard_tui::pages::home::Home;
use wireguard_tui::ui;
use wireguard_tui::wireguard::ProviderError;

fn client(name: &str, address: &str, public_key: &str) -> Client {
    Client {
        name: name.to_string(),
        address: address.to_string(),
        public_key: public_key.to_string(),
    }
}

fn abc() -> Vec<Client> {
    vec![
        client("A", "10.0.0.1", "keyA"),
        client("B", "10.0.0.2", "keyB"),
        client("C", "10.0.0.3", "keyC"),
    ]
}

fn row(a: &str, b: &str, c: &str) -> [String; 3] {
    [a.to_string(), b.to_string(), c.to_string()]
}

fn form_fields(dialog: &DialogContent) -> Vec<(String, String)> {
    match dialog {
        DialogContent::Form { fields, .. } => {
            fields.iter().map(|field| (field.title.clone(), field.value.clone())).collect()
        }
        DialogContent::Confirm { .. } => panic!("the dialog is no form"),
    }
}

#[test]
fn sample_log_has_three_entries() {
    let logs = Logs::dummy();
    assert_eq!(logs.cursor, None);
    assert_eq!(logs.data.len(), 3);
    assert_eq!(logs.data[0].client, client("Albert", "10.0.0.1", "abc123"));
    assert_eq!(logs.data[0].status, LogStatus::Connected);
    assert_eq!(logs.data[1].client, client("Bobby", "10.0.0.2", "def456"));
    assert_eq!(logs.data[1].status, LogStatus::Disconnected);
    assert_eq!(logs.data[2].client, client("Charles", "10.0.0.3", "ghi789"));
    assert_eq!(logs.data[2].status, LogStatus::Connected);
}

#[test]
fn sample_log_is_stamped_with_the_clock() {
    let before = chrono::Utc::now();
    let logs = Logs::dummy();
    let after = chrono::Utc::now();
    let mut last = before;
    for log in &logs.data {
        let stamp = chrono::DateTime::from_timestamp(log.timestamp.secs, log.timestamp.nanos)
            .expect("a moment that chrono can hold");
        assert!(last <= stamp, "{:?} is before {:?}", stamp, last);
        assert!(stamp <= after, "{:?} is after {:?}", stamp, after);
        last = stamp;
    }
}

#[test]
fn log_line_is_the_fixed_text() {
    let log = Log {
        timestamp: Timestamp { secs: 1_700_000_000, nanos: 5 },
        client: client("bob", "10.0.0.2", "def456"),
        status: LogStatus::Disconnected,
    };
    assert_eq!(log.to_string(), "TIME CLIENT TYPE");
}

#[test]
fn header_and_footer_texts() {
    assert_eq!(ui::create_header(), "Wireguard TUI");
    assert_eq!(
        ui::create_footer(None),
        "(Esc) quit | (Tab) switch focus | (g) top | (G) bottom | (j) down | (k) up"
    );
    assert_eq!(
        ui::create_footer(Some(ProviderError::Enumeration)),
        "The peers could not be listed."
    );
    assert_eq!(ui::create_footer(Some(ProviderError::Apply)), "The change could not be applied.");
    assert_eq!(ui::BAR_HEIGHT, 3);
    assert_eq!(ui::CLIENTS_WIDTH, 60);
    assert_eq!(ui::LOGS_WIDTH, 40);
    assert_eq!(ui::CLIENTS_WIDTH + ui::LOGS_WIDTH, 100);
    assert_eq!(ui::HIGHLIGHT_SYMBOL, ">");
}

#[test]
fn client_table_shows_a_row_for_each_client() {
    let mut clients = Clients::init(abc());
    clients.select_next();
    let table = ui::create_clients(&clients);
    assert_eq!(table.title, "Clients");
    assert_eq!(table.header, row("Name", "Address", "Public Key"));
    assert_eq!(table.widths, [30, 30, 40]);
    assert_eq!(
        table.rows,
        vec![row("A", "10.0.0.1", "keyA"), row("B", "10.0.0.2", "keyB"), row("C", "10.0.0.3", "keyC")]
    );
    assert_eq!(table.selected, Some(1));
}

#[test]
fn client_table_of_no_clients_is_empty() {
    let table = ui::create_clients(&Clients::new());
    assert_eq!(table.title, "Clients");
    assert!(table.rows.is_empty());
    assert_eq!(table.selected, None);
}

#[test]
fn client_table_highlights_no_row_past_the_end() {
    let mut clients = Clients::init(abc());
    clients.cursor = Some(3);
    assert_eq!(ui::create_clients(&clients).selected, None);
}

#[test]
fn log_list_shows_a_line_for_each_entry() {
    let mut logs = Logs::dummy();
    logs.select_last();
    let list = ui::create_logs(&logs);
    assert_eq!(list.title, "Logs");
    assert_eq!(list.items, vec!["TIME CLIENT TYPE", "TIME CLIENT TYPE", "TIME CLIENT TYPE"]);
    assert_eq!(list.selected, Some(2));

    let empty = ui::create_logs(&Logs { data: Vec::new(), cursor: None });
    assert!(empty.items.is_empty());
    assert_eq!(empty.selected, None);
}

#[test]
fn screen_of_main_view() {
    let app = App::new(abc());
    let screen = ui::draw(&app);
    assert_eq!(screen.header, "Wireguard TUI");
    assert_eq!(
        screen.footer,
        "(Esc) quit | (Tab) switch focus | (g) top | (G) bottom | (j) down | (k) up"
    );
    assert_eq!(screen.clients.rows.len(), 3);
    assert_eq!(screen.clients.selected, Some(0));
    assert_eq!(screen.logs.items.len(), 3);
    assert_eq!(screen.logs.selected, None);
    assert!(screen.dialog.is_none());
}

#[test]
fn drawing_does_not_change_the_state() {
    let mut app = App::new(abc());
    let _ = app.handle_key(Key::Char('j'));
    let _ = app.handle_key(Key::Char('e'));
    let _ = app.handle_key(Key::Char('!'));
    let first = format!("{:?}", ui::draw(&app));
    let second = format!("{:?}", ui::draw(&app));
    assert_eq!(first, second);
    assert_eq!(app.clients.cursor, Some(1));
    assert_eq!(app.clients.data, abc());
}

#[test]
fn screen_shows_create_form_over_main_view() {
    let mut app = App::new(abc());
    for key in [Key::Char('a'), Key::Char('a'), Key::Char('l'), Key::Tab, Key::Char('1')] {
        let _ = app.handle_key(key);
    }
    let screen = ui::draw(&app);
    let dialog = screen.dialog.expect("the create form is open");
    assert_eq!(dialog.size(), (64, 12));
    match &dialog {
        DialogContent::Form { title, footer, .. } => {
            assert_eq!(title, "Add Client");
            assert_eq!(footer, "(Esc) exit | (Tab) next | (Shift + Tab) previous");
        }
        DialogContent::Confirm { .. } => panic!("the dialog is no form"),
    }
    assert_eq!(
        form_fields(&dialog),
        vec![
            ("Name".to_string(), "al".to_string()),
            ("Address".to_string(), "1".to_string()),
            ("Public Key".to_string(), String::new()),
        ]
    );
    assert_eq!(screen.clients.rows.len(), 3);
}

#[test]
fn screen_shows_edit_form_with_the_selected_client() {
    let mut app = App::new(abc());
    for key in [Key::Char('G'), Key::Char('e')] {
        let _ = app.handle_key(key);
    }
    let dialog = ui::draw(&app).dialog.expect("the edit form is open");
    match &dialog {
        DialogContent::Form { title, .. } => assert_eq!(title, "Edit Client"),
        DialogContent::Confirm { .. } => panic!("the dialog is no form"),
    }
    assert_eq!(
        form_fields(&dialog),
        vec![
            ("Name".to_string(), "C".to_string()),
            ("Address".to_string(), "10.0.0.3".to_string()),
            ("Public Key".to_string(), "keyC".to_string()),
        ]
    );
}

#[test]
fn screen_shows_delete_question() {
    let mut app = App::new(abc());
    let _ = app.handle_key(Key::Char('d'));
    let dialog = ui::draw(&app).dialog.expect("the delete dialog is open");
    assert_eq!(dialog.size(), (16, 4));
    match dialog {
        DialogContent::Confirm { title, message } => {
            assert_eq!(title, "Delete Client");
            assert_eq!(message, "Confirm? y/N");
        }
        DialogContent::Form { .. } => panic!("the dialog is no question"),
    }
    match Modal::draw_delete() {
        DialogContent::Confirm { title, message } => {
            assert_eq!(title, "Delete Client");
            assert_eq!(message, "Confirm? y/N");
        }
        DialogContent::Form { .. } => panic!("the dialog is no question"),
    }
}

#[test]
fn screen_reports_a_failure_of_the_peer_source() {
    let mut app = App::new(abc());
    let _ = app.handle_key(Key::Char('a'));
    let _ = app.handle_key(Key::Enter);
    app.handle_reply(Err(ProviderError::Rejected));
    let screen = ui::draw(&app);
    assert_eq!(screen.footer, "The peer source refused the client.");
    assert!(screen.dialog.is_some());

    let _ = app.handle_key(Key::Char('x'));
    assert_eq!(
        ui::draw(&app).footer,
        "(Esc) quit | (Tab) switch focus | (g) top | (G) bottom | (j) down | (k) up"
    );
}

#[test]
fn screen_reports_a_listing_that_could_not_be_had() {
    let mut app = App::new(Vec::new());
    app.status = Some(ProviderError::Enumeration);
    let screen = ui::draw(&app);
    assert_eq!(screen.footer, "The peers could not be listed.");
    assert!(screen.clients.rows.is_empty());
}

#[test]
fn dialog_field_holds_label_and_value() {
    let field = Modal::create_field("Address", &"10.0.0.2".to_string());
    assert_eq!(field.title, "Address");
    assert_eq!(field.value, "10.0.0.2");
}

#[test]
fn main_view_page_starts_like_the_interface() {
    let home = Home::new(abc());
    assert_eq!(home.clients.data, abc());
    assert_eq!(home.clients.cursor, Some(0));
    assert_eq!(home.logs.data.len(), 3);
    assert_eq!(home.logs.cursor, None);
}
