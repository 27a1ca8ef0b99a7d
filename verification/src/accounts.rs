use vstd::prelude::*;
use crate::text::{decimal, decimal_text, digits_value, is_digit, join2, lemma_decimal_denotes};

verus! {

/// The trading accounts of a session, the one selected in the account
/// picker, and the last notification shown to the user.
pub struct AccountBook<A> {
    pub accounts: Vec<A>,
    pub selected_account: usize,
    pub notification: Option<String>,
}

/// The name given to the account added after `count` accounts exist.
pub open spec fn account_name(count: nat) -> Seq<char> {
    "Account "@ + decimal(count + 1)
}

/// The name of the account added after `count` accounts is "Account "
/// followed by digits that denote `count + 1`; so accounts added at
/// different counts get different names.
pub proof fn lemma_account_name_numbers(count: nat, other: nat)
    ensures
        account_name(count).len() > 8,
        account_name(count).take(8) == "Account "@,
        forall|i: int| 8 <= i < account_name(count).len() ==> #[trigger] is_digit(account_name(count)[i]),
        digits_value(account_name(count).skip(8)) == count + 1,
        count != other ==> account_name(count) != account_name(other),
{
    reveal_strlit("Account ");
    lemma_decimal_denotes(count + 1);
    lemma_decimal_denotes(other + 1);
    assert(account_name(count).take(8) =~= "Account "@);
    assert(account_name(count).skip(8) =~= decimal(count + 1));
    assert(account_name(other).skip(8) =~= decimal(other + 1));
    assert forall|i: int| 8 <= i < account_name(count).len() implies #[trigger] is_digit(
        account_name(count)[i],
    ) by {
        assert(account_name(count)[i] == decimal(count + 1)[i - 8]);
    }
}

impl<A> AccountBook<A> {
    /// The book holds at least one account and the selection points into it.
    pub open spec fn well_formed(&self) -> bool {
        &&& self.accounts@.len() > 0
        &&& self.selected_account < self.accounts@.len()
    }

    /// A book with a single account, selected, and no notification.
    pub fn new(first: A) -> (book: Self)
        ensures
            book.accounts@ == seq![first],
            book.selected_account == 0,
            book.notification is None,
            book.well_formed(),
    {
        let mut accounts: Vec<A> = Vec::new();
        accounts.push(first);
        AccountBook { accounts, selected_account: 0, notification: None }
    }

    /// The name of the next account to add: "Account " and one more than
    /// the number of accounts.
    pub fn new_account_name(&self) -> (name: String)
        requires
            self.accounts@.len() < usize::MAX,
        ensures
            name@ == account_name(self.accounts@.len()),
            name@ == "Account "@ + decimal(self.accounts@.len() + 1),
            name@.take(8) == "Account "@,
            digits_value(name@.skip(8)) == self.accounts@.len() + 1,
    {
        proof {
            lemma_account_name_numbers(self.accounts@.len() as nat, 0);
        }
        let count = self.accounts.len() + 1;
        let digits = decimal_text(count);
        join2("Account ", digits.as_str())
    }

    /// Appends an account, selects it and says so.
    pub fn add_account(&mut self, account: A)
        ensures
            final(self).accounts@ == old(self).accounts@.push(account),
            final(self).selected_account == old(self).accounts@.len(),
            final(self).notification matches Some(m) && m@ == "New account added."@,
            final(self).well_formed(),
    {
        self.accounts.push(account);
        self.selected_account = self.accounts.len() - 1;
        self.notification = Some(String::from_str("New account added."));
    }

    /// Removes the selected account and selects the first one, unless it is
    /// the last account, which is kept; either way the user is told.
    pub fn remove_selected_account(&mut self)
        requires
            old(self).accounts@.len() > 1 ==> old(self).selected_account < old(self).accounts@.len(),
        ensures
            old(self).accounts@.len() > 1 ==> {
                &&& final(self).accounts@ == old(self).accounts@.remove(
                    old(self).selected_account as int,
                )
                &&& final(self).selected_account == 0
                &&& final(self).notification matches Some(m) && m@ == "Account removed."@
            },
            old(self).accounts@.len() <= 1 ==> {
                &&& final(self).accounts@ == old(self).accounts@
                &&& final(self).selected_account == old(self).selected_account
                &&& final(self).notification matches Some(m) && m@
                    == "Cannot remove the last account."@
            },
            old(self).well_formed() ==> final(self).well_formed(),
            old(self).accounts@.len() > 0 ==> final(self).accounts@.len() > 0,
    {
        if self.accounts.len() > 1 {
            let idx = self.selected_account;
            self.accounts.remove(idx);
            self.selected_account = 0;
            self.notification = Some(String::from_str("Account removed."));
        } else {
            self.notification = Some(String::from_str("Cannot remove the last account."));
        }
    }
}

} // verus!
