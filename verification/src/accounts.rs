//! Accounts as this layer sees them, and the rendering of the account list.
//!
//! The layer holds only transient, read-only copies of accounts for
//! rendering; the backend owns the set and its order. A refresh replaces
//! the rendered rows with exactly one row per account, in backend order,
//! or with a single explanatory placeholder row when the set is empty.

use vstd::prelude::*;

verus! {

/// One notification-server account, keyed by `server`. Uniqueness of the
/// key is the backend's business, not this layer's.
#[derive(Debug, PartialEq, Eq)]
pub struct Account {
    pub server: String,
    pub username: String,
    pub password: String,
}

#[verifier::ext_equal]
pub struct AccountV {
    pub server: Seq<char>,
    pub username: Seq<char>,
    pub password: Seq<char>,
}

impl DeepView for Account {
    type V = AccountV;

    open spec fn deep_view(&self) -> AccountV {
        AccountV { server: self.server@, username: self.username@, password: self.password@ }
    }
}

impl Clone for Account {
    fn clone(&self) -> (r: Account)
        ensures
            r.deep_view() == self.deep_view(),
    {
        Account {
            server: self.server.clone(),
            username: self.username.clone(),
            password: self.password.clone(),
        }
    }
}

impl Account {
    pub fn new(server: String, username: String, password: String) -> (a: Account)
        ensures
            a.deep_view() == (AccountV { server: server@, username: username@, password: password@ }),
    {
        Account { server, username, password }
    }
}

/// A failed backend call. Any failure is surfaced to the UI and never
/// crashes the process.
#[derive(Clone, Copy, Debug, PartialEq, Eq, Structural)]
pub enum BackendError {
    /// The backend transport could not be reached.
    Transport,
    /// The backend rejected the credentials.
    Auth,
    /// The named server has no configured account.
    NotFound,
}

impl BackendError {
    /// Text shown when the error is surfaced to the user.
    pub fn describe(&self) -> (r: String)
        ensures
            *self == BackendError::Transport ==> r@ == "Could not reach the notification service"@,
            *self == BackendError::Auth ==> r@ == "The notification service rejected the credentials"@,
            *self == BackendError::NotFound ==> r@ == "No account is configured for this server"@,
    {
        match self {
            BackendError::Transport => String::from_str("Could not reach the notification service"),
            BackendError::Auth => String::from_str(
                "The notification service rejected the credentials",
            ),
            BackendError::NotFound => String::from_str("No account is configured for this server"),
        }
    }
}

/// One rendered row of the account list.
#[derive(Clone, Debug, PartialEq, Eq)]
pub enum Row {
    /// Shown alone when the backend reports no accounts.
    Placeholder,
    /// One account, titled by its server and subtitled by its username.
    Entry { server: String, username: String },
}

#[verifier::ext_equal]
pub enum RowV {
    Placeholder,
    Entry { server: Seq<char>, username: Seq<char> },
}

impl DeepView for Row {
    type V = RowV;

    open spec fn deep_view(&self) -> RowV {
        match self {
            Row::Placeholder => RowV::Placeholder,
            Row::Entry { server, username } => RowV::Entry {
                server: server@,
                username: username@,
            },
        }
    }
}

pub fn placeholder_title() -> (r: &'static str)
    ensures
        r@ == "No accounts configured"@,
{
    "No accounts configured"
}

pub fn placeholder_subtitle() -> (r: &'static str)
    ensures
        r@ == "Add an account to receive private notifications"@,
{
    "Add an account to receive private notifications"
}

/// The controls an account row exposes.
#[derive(Clone, Copy, Debug, PartialEq, Eq, Structural)]
pub enum RowControl {
    Details,
    Edit,
    Remove,
}

pub open spec fn spec_row_controls(r: RowV) -> Seq<RowControl> {
    match r {
        RowV::Placeholder => Seq::<RowControl>::empty(),
        RowV::Entry { .. } => seq![RowControl::Details, RowControl::Edit, RowControl::Remove],
    }
}

/// Each account row carries a details, an edit and a remove control, in
/// that order; the placeholder row carries none.
pub fn row_controls(r: &Row) -> (c: Vec<RowControl>)
    ensures
        c@ == spec_row_controls(r.deep_view()),
{
    match r {
        Row::Placeholder => {
            let c: Vec<RowControl> = Vec::new();
            proof {
                assert(c@ =~= spec_row_controls(r.deep_view()));
            }
            c
        },
        Row::Entry { .. } => {
            let mut c: Vec<RowControl> = Vec::new();
            c.push(RowControl::Details);
            c.push(RowControl::Edit);
            c.push(RowControl::Remove);
            proof {
                assert(c@ =~= spec_row_controls(r.deep_view()));
            }
            c
        },
    }
}

/// The rendering a refresh commits for a given backend account sequence:
/// the placeholder alone when the sequence is empty, else one entry per
/// account in backend order, with no client-side sorting or deduplication.
pub open spec fn render_view(accounts: Seq<AccountV>) -> Seq<RowV> {
    if accounts.len() == 0 {
        seq![RowV::Placeholder]
    } else {
        accounts.map(|i: int, a: AccountV| RowV::Entry { server: a.server, username: a.username })
    }
}

/// Build the rows a refresh renders from the accounts the backend returned.
/// A function of its argument alone, so an unchanged backend state renders
/// an identical row set.
pub fn render_rows(accounts: &Vec<Account>) -> (r: Vec<Row>)
    ensures
        r.deep_view() == render_view(accounts.deep_view()),
{
    let mut r: Vec<Row> = Vec::new();
    if accounts.len() == 0 {
        r.push(Row::Placeholder);
        proof {
            assert(r.deep_view() =~= render_view(accounts.deep_view()));
        }
        r
    } else {
        let n = accounts.len();
        let mut i: usize = 0;
        while i < n
            invariant
                n == accounts@.len(),
                i <= n,
                r@.len() == i,
                forall|j: int|
                    0 <= j < i ==> r.deep_view()[j] == (RowV::Entry {
                        server: accounts.deep_view()[j].server,
                        username: accounts.deep_view()[j].username,
                    }),
            decreases n - i,
        {
            let a = &accounts[i];
            let row = Row::Entry { server: a.server.clone(), username: a.username.clone() };
            proof {
                assert(row.deep_view() == (RowV::Entry {
                    server: accounts.deep_view()[i as int].server,
                    username: accounts.deep_view()[i as int].username,
                }));
            }
            let ghost prev: Seq<Row> = r@;
            let ghost prevd: Seq<RowV> = r.deep_view();
            r.push(row);
            proof {
                assert forall|j: int| 0 <= j < i + 1 implies r.deep_view()[j] == (RowV::Entry {
                    server: accounts.deep_view()[j].server,
                    username: accounts.deep_view()[j].username,
                }) by {
                    assert(r.deep_view()[j] == r@[j].deep_view());
                    if j < i {
                        assert(r@[j] == prev[j]);
                        assert(prevd[j] == prev[j].deep_view());
                    } else {
                        assert(r@[j] == row);
                    }
                }
            }
            i = i + 1;
        }
        proof {
            assert(r.deep_view() =~= render_view(accounts.deep_view()));
        }
        r
    }
}

} // verus!
