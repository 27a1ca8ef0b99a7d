use trading_engine::accounts::AccountBook;
use trading_engine::error::AppError;
use trading_engine::login::{apply_password_check, complete_login, DbUser, LoginState, UserLookup};
use trading_engine::roles::{User, UserRole};

const PASSWORD_HASH: &str = "$2a$04$UuTkLRZZ6QofpDOlMz32MuuxEHA43WOemOYHPz6.SjsVsyO1tDU96";

fn form(password: &str) -> LoginState {
    LoginState { username: "ann".to_string(), password: password.to_string(), error: None }
}

fn row(role: &str) -> DbUser {
    DbUser {
        id: 1,
        username: "ann".to_string(),
        password_hash: PASSWORD_HASH.to_string(),
        role: role.to_string(),
    }
}

#[test]
fn right_password_signs_in_with_stored_role() {
    let mut user: Option<User> = None;
    let mut login = form("password");
    login.error = Some("old".to_string());
    complete_login(&mut user, &mut login, UserLookup::Found(row("trader")));
    let u = user.unwrap();
    assert_eq!(u.username, "ann");
    assert_eq!(u.role, UserRole::Trader);
    assert_eq!(u.password_hash.as_deref(), Some(PASSWORD_HASH));
    assert_eq!(login.error, None);
}

#[test]
fn unknown_stored_role_signs_in_read_only() {
    let mut user: Option<User> = None;
    let mut login = form("password");
    complete_login(&mut user, &mut login, UserLookup::Found(row("root")));
    assert_eq!(user.unwrap().role, UserRole::ReadOnly);
}

#[test]
fn wrong_password_is_refused() {
    let mut user: Option<User> = None;
    let mut login = form("letmein");
    complete_login(&mut user, &mut login, UserLookup::Found(row("admin")));
    assert!(user.is_none());
    assert_eq!(login.error.as_deref(), Some("Invalid username or password"));
}

#[test]
fn unknown_user_is_refused() {
    let mut user: Option<User> = None;
    let mut login = form("password");
    complete_login(&mut user, &mut login, UserLookup::NotFound);
    assert!(user.is_none());
    assert_eq!(login.error.as_deref(), Some("Invalid username or password"));
}

#[test]
fn broken_hash_reports_verification_error() {
    let mut user: Option<User> = None;
    let mut login = form("password");
    let mut r = row("admin");
    r.password_hash = "garbage".to_string();
    complete_login(&mut user, &mut login, UserLookup::Found(r));
    assert!(user.is_none());
    assert!(login.error.unwrap().starts_with("Password verification error: "));
}

#[test]
fn database_failures_are_reported() {
    let mut user: Option<User> = None;
    let mut login = form("password");
    complete_login(&mut user, &mut login, UserLookup::QueryFailed("no such table".to_string()));
    assert_eq!(login.error.as_deref(), Some("Database error: no such table"));
    let connect = AppError::DatabaseError("DB connect error: refused".to_string());
    complete_login(&mut user, &mut login, UserLookup::ConnectionFailed(connect));
    assert_eq!(
        login.error.as_deref(),
        Some("Database error: Database error: DB connect error: refused")
    );
    assert!(user.is_none());
}

#[test]
fn password_check_verdicts() {
    let mut user: Option<User> = None;
    let mut login = form("x");
    apply_password_check(&mut user, &mut login, row("analyst"), Err("bad salt".to_string()));
    assert_eq!(login.error.as_deref(), Some("Password verification error: bad salt"));
    apply_password_check(&mut user, &mut login, row("analyst"), Ok(false));
    assert_eq!(login.error.as_deref(), Some("Invalid username or password"));
    assert!(user.is_none());
    apply_password_check(&mut user, &mut login, row("analyst"), Ok(true));
    assert_eq!(user.unwrap().role, UserRole::Analyst);
    assert_eq!(login.error, None);
}

#[test]
fn accounts_are_added_and_named_in_order() {
    let mut book = AccountBook::new("Default Account".to_string());
    assert_eq!(book.new_account_name(), "Account 2");
    let name = book.new_account_name();
    book.add_account(name);
    assert_eq!(book.accounts, vec!["Default Account".to_string(), "Account 2".to_string()]);
    assert_eq!(book.selected_account, 1);
    assert_eq!(book.notification.as_deref(), Some("New account added."));
    assert_eq!(book.new_account_name(), "Account 3");
}

#[test]
fn selected_account_is_removed() {
    let mut book = AccountBook::new(10);
    book.add_account(20);
    book.add_account(30);
    book.selected_account = 1;
    book.remove_selected_account();
    assert_eq!(book.accounts, vec![10, 30]);
    assert_eq!(book.selected_account, 0);
    assert_eq!(book.notification.as_deref(), Some("Account removed."));
}

#[test]
fn last_account_is_kept() {
    let mut book = AccountBook::new(10);
    book.remove_selected_account();
    assert_eq!(book.accounts, vec![10]);
    assert_eq!(book.selected_account, 0);
    assert_eq!(book.notification.as_deref(), Some("Cannot remove the last account."));
}
