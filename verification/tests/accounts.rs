use ntfyr::accounts::placeholder_subtitle;
use ntfyr::accounts::placeholder_title;
use ntfyr::accounts::render_rows;
use ntfyr::accounts::row_controls;
use ntfyr::accounts::Account;
use ntfyr::accounts::BackendError;
use ntfyr::accounts::Row;
use ntfyr::accounts::RowControl;

fn account(server: &str, username: &str) -> Account {
    Account::new(server.to_string(), username.to_string(), "pw".to_string())
}

#[test]
fn empty_backend_renders_single_placeholder() {
    let rows = render_rows(&vec![]);
    assert_eq!(rows.len(), 1);
    assert_eq!(rows[0], Row::Placeholder);
    let entries = rows
        .iter()
        .filter(|r| matches!(r, Row::Entry { .. }))
        .count();
    assert_eq!(entries, 0);
}

#[test]
fn two_accounts_render_two_rows_in_backend_order() {
    let accounts = vec![account("a.example", "u1"), account("b.example", "u2")];
    let rows = render_rows(&accounts);
    assert_eq!(rows.len(), 2);
    assert_eq!(
        rows[0],
        Row::Entry { server: "a.example".to_string(), username: "u1".to_string() }
    );
    assert_eq!(
        rows[1],
        Row::Entry { server: "b.example".to_string(), username: "u2".to_string() }
    );
    for row in &rows {
        assert_eq!(
            row_controls(row),
            vec![RowControl::Details, RowControl::Edit, RowControl::Remove]
        );
    }
}

#[test]
fn placeholder_row_has_no_controls() {
    assert_eq!(row_controls(&Row::Placeholder), Vec::<RowControl>::new());
}

#[test]
fn placeholder_texts() {
    assert_eq!(placeholder_title(), "No accounts configured");
    assert_eq!(
        placeholder_subtitle(),
        "Add an account to receive private notifications"
    );
}

#[test]
fn rendering_keeps_duplicates_and_order() {
    let accounts = vec![
        account("b.example", "u2"),
        account("a.example", "u1"),
        account("b.example", "u2"),
    ];
    let rows = render_rows(&accounts);
    assert_eq!(rows.len(), 3);
    assert_eq!(
        rows[0],
        Row::Entry { server: "b.example".to_string(), username: "u2".to_string() }
    );
    assert_eq!(
        rows[1],
        Row::Entry { server: "a.example".to_string(), username: "u1".to_string() }
    );
    assert_eq!(rows[0], rows[2]);
}

#[test]
fn error_descriptions() {
    assert_eq!(
        BackendError::Transport.describe(),
        "Could not reach the notification service"
    );
    assert_eq!(
        BackendError::Auth.describe(),
        "The notification service rejected the credentials"
    );
    assert_eq!(
        BackendError::NotFound.describe(),
        "No account is configured for this server"
    );
}

#[test]
fn account_clone_copies_fields() {
    let a = account("s.example", "user");
    let b = a.clone();
    assert_eq!(a, b);
}
