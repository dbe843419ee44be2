use ntfyr::accounts::Account;
use ntfyr::accounts::BackendError;
use ntfyr::accounts::Row;
use ntfyr::controller::AccountListController;
use ntfyr::controller::Action;
use ntfyr::controller::Event;

fn account(server: &str, username: &str) -> Account {
    Account::new(server.to_string(), username.to_string(), "pw".to_string())
}

fn listed(accounts: Vec<Account>) -> Event {
    Event::ListCompleted { result: Ok(accounts) }
}

#[test]
fn refresh_renders_backend_state() {
    let mut c = AccountListController::new();
    let action = c.step(Event::RefreshRequested);
    assert_eq!(action, Some(Action::CallListAccounts));
    let action = c.step(listed(vec![account("a.example", "u1")]));
    assert_eq!(action, None);
    assert_eq!(c.rows.len(), 1);
    assert_eq!(
        c.rows[0],
        Row::Entry { server: "a.example".to_string(), username: "u1".to_string() }
    );
}

#[test]
fn confirmed_add_calls_backend_once_then_refreshes_once() {
    let mut c = AccountListController::new();
    let mut actions: Vec<Action> = Vec::new();
    actions.extend(c.step(Event::AddRequested));
    actions.extend(c.step(Event::EditorConfirmed {
        server: "s".to_string(),
        username: "u".to_string(),
        password: "p".to_string(),
    }));
    actions.extend(c.step(Event::SaveCompleted { result: Ok(()) }));
    assert_eq!(
        actions,
        vec![
            Action::PresentEditor { initial: None },
            Action::CallAddAccount {
                server: "s".to_string(),
                username: "u".to_string(),
                password: "p".to_string(),
            },
            Action::CallListAccounts,
        ]
    );
    let adds = actions
        .iter()
        .filter(|a| matches!(a, Action::CallAddAccount { .. }))
        .count();
    let refreshes = actions
        .iter()
        .filter(|a| matches!(a, Action::CallListAccounts))
        .count();
    assert_eq!(adds, 1);
    assert_eq!(refreshes, 1);
}

#[test]
fn abandoned_edit_changes_nothing() {
    let mut c = AccountListController::new();
    c.step(Event::RefreshRequested);
    c.step(listed(vec![account("a.example", "u1")]));
    let rows_before = c.rows.clone();
    let action = c.step(Event::EditRequested { account: account("a.example", "u1") });
    assert_eq!(
        action,
        Some(Action::PresentEditor { initial: Some(account("a.example", "u1")) })
    );
    let action = c.step(Event::EditorAbandoned);
    assert_eq!(action, None);
    assert_eq!(c.rows, rows_before);
}

#[test]
fn failed_remove_reports_and_keeps_rows() {
    let mut c = AccountListController::new();
    c.step(Event::RefreshRequested);
    c.step(listed(vec![account("a.example", "u1"), account("b.example", "u2")]));
    let rows_before = c.rows.clone();
    let action = c.step(Event::RemoveRequested { server: "c.example".to_string() });
    assert_eq!(
        action,
        Some(Action::CallRemoveAccount { server: "c.example".to_string() })
    );
    let action = c.step(Event::RemoveCompleted { result: Err(BackendError::NotFound) });
    assert_eq!(
        action,
        Some(Action::ReportError { error: BackendError::NotFound })
    );
    assert_eq!(c.rows, rows_before);
}

#[test]
fn successful_remove_triggers_refresh() {
    let mut c = AccountListController::new();
    let action = c.step(Event::RemoveRequested { server: "a.example".to_string() });
    assert_eq!(
        action,
        Some(Action::CallRemoveAccount { server: "a.example".to_string() })
    );
    let action = c.step(Event::RemoveCompleted { result: Ok(()) });
    assert_eq!(action, Some(Action::CallListAccounts));
    let action = c.step(listed(vec![]));
    assert_eq!(action, None);
    assert_eq!(c.rows, vec![Row::Placeholder]);
}

#[test]
fn failed_save_reports_without_refresh() {
    let mut c = AccountListController::new();
    c.step(Event::RefreshRequested);
    c.step(listed(vec![account("a.example", "u1")]));
    let rows_before = c.rows.clone();
    c.step(Event::AddRequested);
    c.step(Event::EditorConfirmed {
        server: "s".to_string(),
        username: "u".to_string(),
        password: "p".to_string(),
    });
    let action = c.step(Event::SaveCompleted { result: Err(BackendError::Auth) });
    assert_eq!(
        action,
        Some(Action::ReportError { error: BackendError::Auth })
    );
    assert_eq!(c.rows, rows_before);
}

#[test]
fn failed_list_reports_and_keeps_rows() {
    let mut c = AccountListController::new();
    c.step(Event::RefreshRequested);
    c.step(listed(vec![account("a.example", "u1")]));
    let rows_before = c.rows.clone();
    c.step(Event::RefreshRequested);
    let action = c.step(Event::ListCompleted { result: Err(BackendError::Transport) });
    assert_eq!(
        action,
        Some(Action::ReportError { error: BackendError::Transport })
    );
    assert_eq!(c.rows, rows_before);
}

#[test]
fn details_request_changes_no_state() {
    let mut c = AccountListController::new();
    c.step(Event::RefreshRequested);
    c.step(listed(vec![account("a.example", "u1")]));
    let rows_before = c.rows.clone();
    let action = c.step(Event::DetailsRequested { account: account("a.example", "u1") });
    assert_eq!(
        action,
        Some(Action::PresentDetails {
            server: "a.example".to_string(),
            username: "u1".to_string(),
        })
    );
    assert_eq!(c.rows, rows_before);
}

#[test]
fn refresh_twice_with_unchanged_backend_is_identical() {
    let backend = vec![account("a.example", "u1"), account("b.example", "u2")];
    let mut c = AccountListController::new();
    c.step(Event::RefreshRequested);
    c.step(listed(backend.clone()));
    let first = c.rows.clone();
    c.step(Event::RefreshRequested);
    c.step(listed(backend.clone()));
    assert_eq!(c.rows, first);
    assert_eq!(first.len(), 2);
}

#[test]
fn edit_confirm_upserts_edited_values() {
    let mut c = AccountListController::new();
    c.step(Event::RefreshRequested);
    c.step(listed(vec![account("a.example", "u1")]));
    let action = c.step(Event::EditRequested { account: account("a.example", "u1") });
    assert_eq!(
        action,
        Some(Action::PresentEditor { initial: Some(account("a.example", "u1")) })
    );
    let action = c.step(Event::EditorConfirmed {
        server: "a.example".to_string(),
        username: "u9".to_string(),
        password: "q".to_string(),
    });
    assert_eq!(
        action,
        Some(Action::CallAddAccount {
            server: "a.example".to_string(),
            username: "u9".to_string(),
            password: "q".to_string(),
        })
    );
    let action = c.step(Event::SaveCompleted { result: Ok(()) });
    assert_eq!(action, Some(Action::CallListAccounts));
}
