use wireguard_tui::dto::Client;
use wireguard_tui::dto::ClientFocus;
use wireguard_tui::dto::ClientForm;
use wireguard_tui::dto::FIELD_COUNT;
use wireguard_tui::focus::ClientFormField;
use wireguard_tui::focus::Focus;
use wireguard_tui::focus::HomeSection;
use wireguard_tui::input::Key;
use wireguard_tui::pages::form::Form;

fn client(name: &str, address: &str, public_key: &str) -> Client {
    Client {
        name: name.to_string(),
        address: address.to_string(),
        public_key: public_key.to_string(),
    }
}

fn type_text(form: &mut ClientForm, text: &str) {
    for chr in text.chars() {
        form.add_char(chr);
    }
}

#[test]
fn new_form_is_blank() {
    let form = ClientForm::new();
    assert_eq!(form.values, client("", "", ""));
    assert_eq!(form.callback, None);
    assert_eq!(form.focus, ClientFocus::Name);
}

#[test]
fn from_client_fills_fields_and_keeps_client() {
    let form = ClientForm::from_client(client("bob", "10.0.0.2", "def456"));
    assert_eq!(form.values, client("bob", "10.0.0.2", "def456"));
    assert_eq!(form.callback, Some(client("bob", "10.0.0.2", "def456")));
    assert_eq!(form.focus, ClientFocus::Name);
}

#[test]
fn next_field_goes_round_in_three_steps() {
    let mut form = ClientForm::new();
    form.next_field();
    assert_eq!(form.focus, ClientFocus::Address);
    form.next_field();
    assert_eq!(form.focus, ClientFocus::PublicKey);
    form.next_field();
    assert_eq!(form.focus, ClientFocus::Name);
}

#[test]
fn prev_field_goes_round_in_three_steps() {
    let mut form = ClientForm::new();
    form.prev_field();
    assert_eq!(form.focus, ClientFocus::PublicKey);
    form.prev_field();
    assert_eq!(form.focus, ClientFocus::Address);
    form.prev_field();
    assert_eq!(form.focus, ClientFocus::Name);
}

#[test]
fn three_steps_return_to_every_field() {
    for start in [ClientFocus::Name, ClientFocus::Address, ClientFocus::PublicKey] {
        let mut form = ClientForm::from_client(client("a", "b", "c"));
        form.focus = start;
        for _ in 0..3 {
            form.next_field();
        }
        assert_eq!(form.focus, start);
        for _ in 0..3 {
            form.prev_field();
        }
        assert_eq!(form.focus, start);
        form.next_field();
        form.prev_field();
        assert_eq!(form.focus, start);
        assert_eq!(form.values, client("a", "b", "c"));
    }
}

#[test]
fn field_index_round_trip() {
    assert_eq!(FIELD_COUNT, 3);
    assert_eq!(ClientFocus::Name.index(), 0);
    assert_eq!(ClientFocus::Address.index(), 1);
    assert_eq!(ClientFocus::PublicKey.index(), 2);
    assert_eq!(ClientFocus::from_index(0), ClientFocus::Name);
    assert_eq!(ClientFocus::from_index(1), ClientFocus::Address);
    assert_eq!(ClientFocus::from_index(2), ClientFocus::PublicKey);
    assert_eq!(ClientFocus::from_index(3), ClientFocus::Name);
    assert_eq!(ClientFocus::from_index(usize::MAX), ClientFocus::from_index(usize::MAX % 3));
    assert_eq!(ClientFocus::Name.field(), ClientFormField::Name);
    assert_eq!(ClientFocus::Address.field(), ClientFormField::Address);
    assert_eq!(ClientFocus::PublicKey.field(), ClientFormField::PublicKey);
}

#[test]
fn add_char_appends_to_active_field_only() {
    let mut form = ClientForm::new();
    type_text(&mut form, "alice");
    form.next_field();
    type_text(&mut form, "10.0.0.5");
    form.next_field();
    type_text(&mut form, "pubkeyXYZ");
    assert_eq!(form.values, client("alice", "10.0.0.5", "pubkeyXYZ"));
    assert_eq!(form.to_client(), client("alice", "10.0.0.5", "pubkeyXYZ"));
    assert_eq!(form.callback, None);
}

#[test]
fn add_char_takes_any_character() {
    let mut form = ClientForm::new();
    form.add_char('é');
    form.add_char(' ');
    form.add_char('日');
    assert_eq!(form.values.name, "é 日");
    form.backspace();
    assert_eq!(form.values.name, "é ");
}

#[test]
fn backspace_removes_last_character_of_active_field() {
    let mut form = ClientForm::from_client(client("bob", "10.0.0.2", "def456"));
    form.backspace();
    assert_eq!(form.values, client("bo", "10.0.0.2", "def456"));
    form.next_field();
    form.backspace();
    assert_eq!(form.values, client("bo", "10.0.0.", "def456"));
    form.next_field();
    form.backspace();
    assert_eq!(form.values, client("bo", "10.0.0.", "def45"));
    assert_eq!(form.callback, Some(client("bob", "10.0.0.2", "def456")));
}

#[test]
fn backspace_on_empty_field_changes_nothing() {
    let mut form = ClientForm::new();
    form.backspace();
    assert_eq!(form, ClientForm::new());
    form.add_char('x');
    form.backspace();
    form.backspace();
    assert_eq!(form, ClientForm::new());
}

#[test]
fn form_key_routing() {
    let mut form = ClientForm::new();
    form.handle_key(Key::Char('a'));
    form.handle_key(Key::Tab);
    form.handle_key(Key::Char('b'));
    form.handle_key(Key::Char('c'));
    form.handle_key(Key::Backspace);
    form.handle_key(Key::BackTab);
    form.handle_key(Key::BackTab);
    form.handle_key(Key::Char('k'));
    assert_eq!(form.values, client("a", "b", "k"));
    assert_eq!(form.focus, ClientFocus::PublicKey);
    for key in [Key::Esc, Key::Enter, Key::Up, Key::Down, Key::Other] {
        form.handle_key(key);
    }
    assert_eq!(form.values, client("a", "b", "k"));
    assert_eq!(form.focus, ClientFocus::PublicKey);
}

#[test]
fn client_columns_in_display_order() {
    let bob = client("bob", "10.0.0.2", "def456");
    let columns = bob.ref_array();
    assert_eq!(columns[0], "bob");
    assert_eq!(columns[1], "10.0.0.2");
    assert_eq!(columns[2], "def456");
}

#[test]
fn client_equality_and_clone() {
    let bob = client("bob", "10.0.0.2", "def456");
    assert_eq!(bob.clone(), bob);
    assert_ne!(bob, client("bob", "10.0.0.2", "def457"));
    assert_ne!(bob, client("bob", "10.0.0.3", "def456"));
    assert_ne!(bob, client("rob", "10.0.0.2", "def456"));
}

#[test]
fn titled_form_constructors() {
    let blank = Form::new("Add Client".to_string());
    assert_eq!(blank.title, "Add Client");
    assert_eq!(blank.data, ClientForm::new());

    let filled = Form::from(
        "Edit Client".to_string(),
        "bob".to_string(),
        "10.0.0.2".to_string(),
        "def456".to_string(),
    );
    assert_eq!(filled.title, "Edit Client");
    assert_eq!(filled.data.values, client("bob", "10.0.0.2", "def456"));
    assert_eq!(filled.data.callback, None);
    assert_eq!(filled.data.focus, ClientFocus::Name);
}

#[test]
fn focus_starts_on_client_table() {
    assert_eq!(Focus::new(), Focus::Home(HomeSection::Clients));
}
