use vstd::prelude::*;
use crate::roles::{User, UserRole};
use crate::text::{decimal, decimal_text, join3};

verus! {

/// The tab that manages users.
pub open spec fn user_management_tab() -> usize {
    6
}

/// The tabs shown to a session: the editor, dashboard, positions, trade
/// history, settings and backtesting tabs, and user management for users
/// who may manage users.
pub open spec fn tabs_for(user: Option<User>) -> Seq<usize> {
    if user matches Some(u) && u.role.can_manage_users() {
        seq![0, 1, 2, 3, 4, 5, user_management_tab()]
    } else {
        seq![0, 1, 2, 3, 4, 5]
    }
}

/// Every session sees the six working tabs first, and the User Management
/// tab is shown exactly to a signed-in administrator, as the last tab.
pub proof fn lemma_user_management_tab_for_admins_only(user: Option<User>)
    ensures
        tabs_for(user).take(6) == seq![0usize, 1, 2, 3, 4, 5],
        tabs_for(user).contains(user_management_tab()) <==> (user matches Some(u) && u.role
            == UserRole::Admin),
        tabs_for(user).len() == if user matches Some(u) && u.role == UserRole::Admin {
            7nat
        } else {
            6nat
        },
{
    assert(tabs_for(user).take(6) =~= seq![0usize, 1, 2, 3, 4, 5]);
    if user matches Some(u) && u.role == UserRole::Admin {
        assert(tabs_for(user)[6] == user_management_tab());
    } else {
        assert(tabs_for(user) =~= seq![0usize, 1, 2, 3, 4, 5]);
        assert forall|i: int| 0 <= i < tabs_for(user).len() implies tabs_for(user)[i]
            != user_management_tab() by {}
    }
}

/// The tabs of the main window, in order, for the signed-in user if any.
pub fn visible_tabs(user: &Option<User>) -> (tabs: Vec<usize>)
    ensures
        tabs@ == tabs_for(*user),
        tabs@.take(6) == seq![0usize, 1, 2, 3, 4, 5],
        tabs@.contains(user_management_tab()) <==> (user matches Some(u) && u.role
            == UserRole::Admin),
        tabs@.len() == if user matches Some(u) && u.role == UserRole::Admin { 7nat } else { 6nat },
{
    proof {
        lemma_user_management_tab_for_admins_only(*user);
    }
    let mut tabs: Vec<usize> = Vec::new();
    tabs.push(0);
    tabs.push(1);
    tabs.push(2);
    tabs.push(3);
    tabs.push(4);
    tabs.push(5);
    if let Some(u) = user {
        if u.role.can_manage_users() {
            tabs.push(6);
        }
    }
    tabs
}

/// The title of each tab; any other key is an unknown tab.
pub open spec fn tab_title_of(key: usize) -> Seq<char> {
    if key == 0 {
        "IDE"@
    } else if key == 1 {
        "Dashboard"@
    } else if key == 2 {
        "Positions"@
    } else if key == 3 {
        "Trade History"@
    } else if key == 4 {
        "Settings"@
    } else if key == 5 {
        "Backtesting"@
    } else if key == 6 {
        "User Management"@
    } else {
        "Unknown"@
    }
}

/// The title of a tab.
pub fn tab_title(key: usize) -> (r: &'static str)
    ensures
        r@ == tab_title_of(key),
{
    match key {
        0 => "IDE",
        1 => "Dashboard",
        2 => "Positions",
        3 => "Trade History",
        4 => "Settings",
        5 => "Backtesting",
        6 => "User Management",
        _ => "Unknown",
    }
}

/// The first of the application's, the editor's and the backtester's error
/// messages that is set, in that order.
pub open spec fn first_error(
    app: Option<String>,
    ide: Option<String>,
    backtest: Option<String>,
) -> Option<String> {
    if app is Some {
        app
    } else if ide is Some {
        ide
    } else {
        backtest
    }
}

/// The status bar shows a message exactly when some error is set, and
/// the message is the first one set in the order application, editor,
/// backtester: a later error never hides an earlier one.
pub proof fn lemma_status_shows_first_set_error(
    app: Option<String>,
    ide: Option<String>,
    backtest: Option<String>,
)
    ensures
        (first_error(app, ide, backtest) is Some) == (app is Some || ide is Some || backtest is Some),
        app is Some ==> first_error(app, ide, backtest) == app,
        app is None && ide is Some ==> first_error(app, ide, backtest) == ide,
        app is None && ide is None ==> first_error(app, ide, backtest) == backtest,
{
}

/// What the status bar shows: nothing when no error is set, else the first
/// error that is set.
pub fn status_message(
    app: &Option<String>,
    ide: &Option<String>,
    backtest: &Option<String>,
) -> (r: Option<String>)
    ensures
        r == first_error(*app, *ide, *backtest),
        (r is Some) == (app is Some || ide is Some || backtest is Some),
        app is Some ==> r == *app,
        app is None && ide is Some ==> r == *ide,
        app is None && ide is None ==> r == *backtest,
{
    match app {
        Some(m) => Some(m.clone()),
        None => match ide {
            Some(m) => Some(m.clone()),
            None => match backtest {
                Some(m) => Some(m.clone()),
                None => None,
            },
        },
    }
}

/// The caption of the profit-and-loss chart for a number of points.
pub open spec fn pnl_caption_of(points: nat) -> Seq<char> {
    if points == 0 {
        "PnL Chart (no data)"@
    } else {
        "PnL Chart: "@ + decimal(points) + " points"@
    }
}

/// Captions the profit-and-loss chart with the number of its points.
pub fn pnl_chart_caption(points: usize) -> (r: String)
    ensures
        r@ == pnl_caption_of(points as nat),
{
    if points == 0 {
        String::from_str("PnL Chart (no data)")
    } else {
        let n = decimal_text(points);
        join3("PnL Chart: ", n.as_str(), " points")
    }
}

/// The side of a trade.
#[derive(Clone, Copy, Debug, PartialEq, Eq, Structural)]
pub enum TradeAction {
    Buy,
    Sell,
}

impl TradeAction {
    /// The word the trade table shows for the side.
    pub fn label(&self) -> (r: &'static str)
        ensures
            *self == TradeAction::Buy ==> r@ == "Buy"@,
            *self == TradeAction::Sell ==> r@ == "Sell"@,
    {
        match self {
            TradeAction::Buy => "Buy",
            TradeAction::Sell => "Sell",
        }
    }

    /// The error message shown when the Buy or Sell button is pressed: the
    /// order dialogs are not available.
    pub fn dialog_unavailable_message(&self) -> (r: String)
        ensures
            *self == TradeAction::Buy ==> r@ == "Buy dialog not implemented"@,
            *self == TradeAction::Sell ==> r@ == "Sell dialog not implemented"@,
    {
        match self {
            TradeAction::Buy => String::from_str("Buy dialog not implemented"),
            TradeAction::Sell => String::from_str("Sell dialog not implemented"),
        }
    }
}

/// The database that the application opens: the configured location, or
/// `trading_ide.db` when none is configured.
pub fn database_url(configured: Option<String>) -> (r: String)
    ensures
        configured matches Some(c) ==> r == c,
        configured is None ==> r@ == "trading_ide.db"@,
{
    match configured {
        Some(c) => c,
        None => String::from_str("trading_ide.db"),
    }
}

} // verus!
