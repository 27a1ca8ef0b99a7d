use vstd::prelude::*;
use crate::error::{AppError, error_detail, error_heading};
use crate::password::{bcrypt_error_text, bcrypt_verify_outcome, verify_password};
use crate::roles::{User, UserRole, lemma_role_names_select_roles, role_from_name, role_of_name};
use crate::text::join2;

verus! {

/// The login form.
#[derive(Clone, Debug)]
pub struct LoginState {
    pub username: String,
    pub password: String,
    /// The message shown under the form.
    pub error: Option<String>,
}

/// A user's row in the user table.
#[derive(Clone, Debug)]
pub struct DbUser {
    pub id: i32,
    pub username: String,
    pub password_hash: String,
    pub role: String,
}

/// What looking up the entered user name in the database gave.
#[derive(Debug)]
pub enum UserLookup {
    /// No connection to the database could be made.
    ConnectionFailed(AppError),
    /// The user's row.
    Found(DbUser),
    /// No user has that name.
    NotFound,
    /// The query failed; the text is the database's error message.
    QueryFailed(String),
}

/// The user that a matching row signs in.
pub open spec fn signed_in_user(row: DbUser) -> User {
    User {
        username: row.username,
        role: role_of_name(row.role@),
        password_hash: Some(row.password_hash),
    }
}

/// A matching password signs in the row's user under the role that the
/// stored role name selects: administrator exactly for "admin", and with
/// the stored hash.
pub proof fn lemma_signed_in_user_has_stored_role(row: DbUser)
    ensures
        signed_in_user(row).username == row.username,
        signed_in_user(row).role == role_of_name(row.role@),
        signed_in_user(row).role == UserRole::Admin <==> row.role@ == "admin"@,
        signed_in_user(row).role.can_manage_users() <==> row.role@ == "admin"@,
        signed_in_user(row).password_hash == Some(row.password_hash),
{
    lemma_role_names_select_roles(row.role@);
}

/// The message shown for a wrong user name or password.
pub open spec fn rejected_message() -> Seq<char> {
    "Invalid username or password"@
}

/// Completes a login once the password of a found row has been checked:
/// `check` is the verdict, or the text of the error that checking gave.
/// A match signs the user in and clears the form's message; otherwise the
/// signed-in user stays as it was and the form says why.
pub fn apply_password_check(
    user: &mut Option<User>,
    login: &mut LoginState,
    row: DbUser,
    check: Result<bool, String>,
)
    ensures
        final(login).username == old(login).username,
        final(login).password == old(login).password,
        match check {
            Ok(true) => {
                &&& *final(user) == Some(signed_in_user(row))
                &&& final(user).unwrap().username == row.username
                &&& final(user).unwrap().role == role_of_name(row.role@)
                &&& (final(user).unwrap().role == UserRole::Admin <==> row.role@ == "admin"@)
                &&& final(user).unwrap().password_hash == Some(row.password_hash)
                &&& final(login).error is None
            },
            Ok(false) => {
                &&& *final(user) == *old(user)
                &&& final(login).error matches Some(m) && m@ == rejected_message()
            },
            Err(text) => {
                &&& *final(user) == *old(user)
                &&& final(login).error matches Some(m) && m@ == "Password verification error: "@
                    + text@
            },
        },
{
    proof {
        lemma_role_names_select_roles(row.role@);
    }
    match check {
        Ok(true) => {
            let role = role_from_name(row.role.as_str());
            *user = Some(User { username: row.username, role, password_hash: Some(row.password_hash) });
            login.error = None;
        },
        Ok(false) => {
            login.error = Some(String::from_str("Invalid username or password"));
        },
        Err(text) => {
            login.error = Some(join2("Password verification error: ", text.as_str()));
        },
    }
}

/// Completes a login from what the database lookup of the entered name
/// gave, checking the entered password against the stored bcrypt hash.
pub fn complete_login(user: &mut Option<User>, login: &mut LoginState, lookup: UserLookup)
    ensures
        final(login).username == old(login).username,
        final(login).password == old(login).password,
        match lookup {
            UserLookup::Found(row) => match bcrypt_verify_outcome(
                old(login).password@,
                row.password_hash@,
            ) {
                Some(true) => {
                    &&& *final(user) == Some(signed_in_user(row))
                    &&& final(user).unwrap().username == row.username
                    &&& final(user).unwrap().role == role_of_name(row.role@)
                    &&& (final(user).unwrap().role == UserRole::Admin <==> row.role@ == "admin"@)
                    &&& final(user).unwrap().password_hash == Some(row.password_hash)
                    &&& final(login).error is None
                },
                Some(false) => {
                    &&& *final(user) == *old(user)
                    &&& final(login).error matches Some(m) && m@ == rejected_message()
                },
                None => {
                    &&& *final(user) == *old(user)
                    &&& final(login).error matches Some(m) && m@.len() >= 29 && m@.subrange(0, 29)
                        == "Password verification error: "@
                },
            },
            UserLookup::NotFound => {
                &&& *final(user) == *old(user)
                &&& final(login).error matches Some(m) && m@ == rejected_message()
            },
            UserLookup::QueryFailed(text) => {
                &&& *final(user) == *old(user)
                &&& final(login).error matches Some(m) && m@ == "Database error: "@ + text@
            },
            UserLookup::ConnectionFailed(e) => {
                &&& *final(user) == *old(user)
                &&& final(login).error matches Some(m) && {
                    &&& m@.len() >= 16 + error_heading(e).len()
                    &&& m@.subrange(0, 16 + error_heading(e).len() as int) == "Database error: "@
                        + error_heading(e)
                    &&& error_detail(e) matches Some(d) ==> m@ == "Database error: "@
                        + error_heading(e) + d
                }
            },
        },
{
    match lookup {
        UserLookup::Found(row) => {
            proof {
                lemma_role_names_select_roles(row.role@);
            }
            let check = match verify_password(login.password.as_str(), row.password_hash.as_str()) {
                Ok(b) => Ok(b),
                Err(e) => Err(bcrypt_error_text(&e)),
            };
            proof {
                reveal_strlit("Password verification error: ");
            }
            apply_password_check(user, login, row, check);
        },
        UserLookup::NotFound => {
            login.error = Some(String::from_str("Invalid username or password"));
        },
        UserLookup::QueryFailed(text) => {
            login.error = Some(join2("Database error: ", text.as_str()));
        },
        UserLookup::ConnectionFailed(e) => {
            let described = e.describe();
            let m = join2("Database error: ", described.as_str());
            proof {
                reveal_strlit("Database error: ");
                assert(m@.subrange(0, 16 + error_heading(e).len() as int) =~= "Database error: "@
                    + error_heading(e));
            }
            login.error = Some(m);
        },
    }
}

} // verus!
