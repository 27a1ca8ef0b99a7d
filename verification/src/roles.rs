use vstd::prelude::*;
use crate::text::same_text;

verus! {

/// The role of a signed-in user; it decides what the user may do.
#[derive(Clone, Copy, Debug, PartialEq, Eq, Structural)]
pub enum UserRole {
    /// Full access.
    Admin,
    /// May trade and edit algorithms.
    Trader,
    /// May only look.
    ReadOnly,
    /// May read logs and edit algorithms.
    Analyst,
    /// No permissions at all.
    Unknown,
}

impl UserRole {
    /// Only administrators manage users.
    #[verifier::allow_in_spec]
    pub fn can_manage_users(&self) -> bool
        returns
            self is Admin,
    {
        matches!(self, UserRole::Admin)
    }

    /// Administrators and traders may trade.
    #[verifier::allow_in_spec]
    pub fn can_trade(&self) -> bool
        returns
            self is Admin || self is Trader,
    {
        matches!(self, UserRole::Admin | UserRole::Trader)
    }

    /// Every known role may look at positions.
    #[verifier::allow_in_spec]
    pub fn can_view_positions(&self) -> bool
        returns
            !(self is Unknown),
    {
        !matches!(self, UserRole::Unknown)
    }

    /// Administrators and analysts may read the logs.
    #[verifier::allow_in_spec]
    pub fn can_view_logs(&self) -> bool
        returns
            self is Admin || self is Analyst,
    {
        matches!(self, UserRole::Admin | UserRole::Analyst)
    }

    /// Administrators, traders and analysts may edit algorithms.
    #[verifier::allow_in_spec]
    pub fn can_edit_algorithms(&self) -> bool
        returns
            self is Admin || self is Trader || self is Analyst,
    {
        matches!(self, UserRole::Admin | UserRole::Trader | UserRole::Analyst)
    }

    /// Administrators and traders may manage bots.
    #[verifier::allow_in_spec]
    pub fn can_manage_bots(&self) -> bool
        returns
            self is Admin || self is Trader,
    {
        matches!(self, UserRole::Admin | UserRole::Trader)
    }

    /// Administrators and traders may see the depth of market.
    #[verifier::allow_in_spec]
    pub fn can_view_dom(&self) -> bool
        returns
            self is Admin || self is Trader,
    {
        matches!(self, UserRole::Admin | UserRole::Trader)
    }
}

/// A signed-in user.
#[derive(Clone, Debug)]
pub struct User {
    pub username: String,
    pub role: UserRole,
    /// The user's bcrypt hash, when known.
    pub password_hash: Option<String>,
}

/// The role that a role name stored with a user selects; an unknown name
/// gives read-only access.
pub open spec fn role_of_name(name: Seq<char>) -> UserRole {
    if name == "admin"@ {
        UserRole::Admin
    } else if name == "trader"@ {
        UserRole::Trader
    } else if name == "readonly"@ {
        UserRole::ReadOnly
    } else if name == "analyst"@ {
        UserRole::Analyst
    } else {
        UserRole::ReadOnly
    }
}

/// Maps the role name stored with a user to the user's role.
pub fn role_from_name(name: &str) -> (r: UserRole)
    ensures
        r == role_of_name(name@),
        (r == UserRole::Admin) <==> name@ == "admin"@,
        (r == UserRole::Trader) <==> name@ == "trader"@,
        (r == UserRole::Analyst) <==> name@ == "analyst"@,
        r != UserRole::Unknown,
{
    proof {
        lemma_role_names_select_roles(name@);
    }
    if same_text(name, "admin") {
        UserRole::Admin
    } else if same_text(name, "trader") {
        UserRole::Trader
    } else if same_text(name, "readonly") {
        UserRole::ReadOnly
    } else if same_text(name, "analyst") {
        UserRole::Analyst
    } else {
        UserRole::ReadOnly
    }
}

/// Whether the signed-in user, if any, may trade (no user may not).
pub fn user_can_trade(user: &Option<User>) -> (r: bool)
    ensures
        r == (user matches Some(u) && u.role.can_trade()),
{
    match user {
        Some(u) => u.role.can_trade(),
        None => false,
    }
}

/// Administrators have every permission: whoever may manage users may do
/// everything else too.
pub proof fn lemma_user_managers_have_every_permission(role: UserRole)
    requires
        role.can_manage_users(),
    ensures
        role.can_trade(),
        role.can_view_positions(),
        role.can_view_logs(),
        role.can_edit_algorithms(),
        role.can_manage_bots(),
        role.can_view_dom(),
{
}

/// Any permission at all includes the right to view positions: a role
/// that may not view positions may do nothing.
pub proof fn lemma_every_permission_includes_viewing_positions(role: UserRole)
    ensures
        role.can_manage_users() ==> role.can_view_positions(),
        role.can_trade() ==> role.can_view_positions(),
        role.can_view_logs() ==> role.can_view_positions(),
        role.can_edit_algorithms() ==> role.can_view_positions(),
        role.can_manage_bots() ==> role.can_view_positions(),
        role.can_view_dom() ==> role.can_view_positions(),
{
}

/// Trading, managing bots and viewing the depth of market always go
/// together, and whoever may trade may also edit algorithms.
pub proof fn lemma_trading_permissions_go_together(role: UserRole)
    ensures
        role.can_trade() == role.can_manage_bots(),
        role.can_trade() == role.can_view_dom(),
        role.can_trade() ==> role.can_edit_algorithms(),
{
}

/// The stored role names select roles one for one: "admin" and only it
/// selects an administrator, "trader" a trader, "analyst" an analyst, and
/// every other name read-only access; no name selects the role without
/// permissions.
pub proof fn lemma_role_names_select_roles(name: Seq<char>)
    ensures
        (role_of_name(name) == UserRole::Admin) <==> name == "admin"@,
        (role_of_name(name) == UserRole::Trader) <==> name == "trader"@,
        (role_of_name(name) == UserRole::Analyst) <==> name == "analyst"@,
        (role_of_name(name) == UserRole::ReadOnly) <==> (name != "admin"@ && name != "trader"@
            && name != "analyst"@),
        role_of_name(name) != UserRole::Unknown,
        role_of_name(name).can_manage_users() <==> name == "admin"@,
{
    reveal_strlit("admin");
    reveal_strlit("trader");
    reveal_strlit("analyst");
    reveal_strlit("readonly");
    assert("admin"@ != "trader"@ && "admin"@ != "analyst"@ && "trader"@ != "analyst"@) by {
        assert("admin"@[0] != "trader"@[0]);
        assert("admin"@.len() != "analyst"@.len());
        assert("trader"@.len() != "analyst"@.len());
    }
    assert("readonly"@ != "admin"@ && "readonly"@ != "trader"@ && "readonly"@ != "analyst"@) by {
        assert("readonly"@.len() != "admin"@.len());
        assert("readonly"@.len() != "trader"@.len());
        assert("readonly"@.len() != "analyst"@.len());
    }
}

/// Users whose stored role name is unknown get read-only access: they may
/// view positions and nothing else.
pub proof fn lemma_unknown_role_names_are_read_only(name: Seq<char>)
    requires
        name != "admin"@,
        name != "trader"@,
        name != "analyst"@,
    ensures
        role_of_name(name) == UserRole::ReadOnly,
        role_of_name(name).can_view_positions(),
        !role_of_name(name).can_trade(),
        !role_of_name(name).can_manage_users(),
        !role_of_name(name).can_view_logs(),
        !role_of_name(name).can_edit_algorithms(),
{
}

} // verus!
