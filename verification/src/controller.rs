//! The account-list controller: a state machine from UI events and backend
//! completions to the next phase, the rendered rows, and the one operation
//! to start next.
//!
//! All widget mutation and every backend call runs on the main context; the
//! controller only decides. The surrounding loop performs each returned
//! action (a backend call, presenting a surface, surfacing an error) and
//! hands the completion back as the next event. Operations serialize: a new
//! user-triggered operation starts only once the previous one's chain,
//! refresh included, has completed, which the `enabled` precondition
//! states.

use vstd::prelude::*;

use crate::accounts::Account;
use crate::bridge::EditOutcome;
use crate::bridge::EditOutcomeV;
use crate::accounts::AccountV;
use crate::accounts::BackendError;
use crate::accounts::Row;
use crate::accounts::RowV;
use crate::accounts::render_rows;
use crate::accounts::render_view;

verus! {

/// What the controller is currently awaiting.
#[derive(Debug, PartialEq, Eq)]
pub enum Phase {
    /// Nothing in flight; user-triggered operations may start.
    Idle,
    /// A list-accounts call is in flight; its completion re-renders.
    Listing,
    /// The edit surface is open, awaiting its one-shot resolution.
    /// `initial` holds the account that pre-populated it, if editing.
    Editing { initial: Option<Account> },
    /// An add-or-upsert call is in flight after a confirmed edit.
    Saving,
    /// A remove call is in flight.
    Removing,
}

#[verifier::ext_equal]
pub enum PhaseV {
    Idle,
    Listing,
    Editing { initial: Option<AccountV> },
    Saving,
    Removing,
}

impl DeepView for Phase {
    type V = PhaseV;

    open spec fn deep_view(&self) -> PhaseV {
        match self {
            Phase::Idle => PhaseV::Idle,
            Phase::Listing => PhaseV::Listing,
            Phase::Editing { initial } => PhaseV::Editing { initial: initial.deep_view() },
            Phase::Saving => PhaseV::Saving,
            Phase::Removing => PhaseV::Removing,
        }
    }
}

/// An event handed to the controller: a user trigger, the edit surface's
/// resolution, or a backend completion.
#[derive(Debug)]
#[allow(inconsistent_fields)]
pub enum Event {
    /// Re-synchronize the rendered list with backend state.
    RefreshRequested,
    /// The add control fired: open an empty edit surface.
    AddRequested,
    /// An entry's edit control fired: open the surface pre-populated.
    EditRequested { account: Account },
    /// An entry's remove control fired.
    RemoveRequested { server: String },
    /// An entry's details control fired: read-only, no state change.
    DetailsRequested { account: Account },
    /// The edit surface resolved confirmed, with its field values.
    EditorConfirmed { server: String, username: String, password: String },
    /// The edit surface closed without the save signal ever firing.
    EditorAbandoned,
    /// The list-accounts call completed.
    ListCompleted { result: Result<Vec<Account>, BackendError> },
    /// The add-or-upsert call completed.
    SaveCompleted { result: Result<(), BackendError> },
    /// The remove call completed.
    RemoveCompleted { result: Result<(), BackendError> },
}

#[verifier::ext_equal]
#[allow(inconsistent_fields)]
pub enum EventV {
    RefreshRequested,
    AddRequested,
    EditRequested { account: AccountV },
    RemoveRequested { server: Seq<char> },
    DetailsRequested { account: AccountV },
    EditorConfirmed { server: Seq<char>, username: Seq<char>, password: Seq<char> },
    EditorAbandoned,
    ListCompleted { result: Result<Seq<AccountV>, BackendError> },
    SaveCompleted { result: Result<(), BackendError> },
    RemoveCompleted { result: Result<(), BackendError> },
}

impl DeepView for Event {
    type V = EventV;

    open spec fn deep_view(&self) -> EventV {
        match self {
            Event::RefreshRequested => EventV::RefreshRequested,
            Event::AddRequested => EventV::AddRequested,
            Event::EditRequested { account } => EventV::EditRequested {
                account: account.deep_view(),
            },
            Event::RemoveRequested { server } => EventV::RemoveRequested { server: server@ },
            Event::DetailsRequested { account } => EventV::DetailsRequested {
                account: account.deep_view(),
            },
            Event::EditorConfirmed { server, username, password } => EventV::EditorConfirmed {
                server: server@,
                username: username@,
                password: password@,
            },
            Event::EditorAbandoned => EventV::EditorAbandoned,
            Event::ListCompleted { result } => EventV::ListCompleted {
                result: match result {
                    Ok(accounts) => Ok(accounts.deep_view()),
                    Err(e) => Err(*e),
                },
            },
            Event::SaveCompleted { result } => EventV::SaveCompleted { result: *result },
            Event::RemoveCompleted { result } => EventV::RemoveCompleted { result: *result },
        }
    }
}

/// The one operation the surrounding loop must perform next.
#[derive(Debug, PartialEq, Eq)]
pub enum Action {
    /// Start the async list-accounts call.
    CallListAccounts,
    /// Start the async add-or-upsert call with these values.
    CallAddAccount { server: String, username: String, password: String },
    /// Start the async remove call for this server key.
    CallRemoveAccount { server: String },
    /// Present the edit surface, pre-populated if editing.
    PresentEditor { initial: Option<Account> },
    /// Present read-only server and username details.
    PresentDetails { server: String, username: String },
    /// Surface a failed backend call to the user, without unwinding.
    ReportError { error: BackendError },
}

#[verifier::ext_equal]
pub enum ActionV {
    CallListAccounts,
    CallAddAccount { server: Seq<char>, username: Seq<char>, password: Seq<char> },
    CallRemoveAccount { server: Seq<char> },
    PresentEditor { initial: Option<AccountV> },
    PresentDetails { server: Seq<char>, username: Seq<char> },
    ReportError { error: BackendError },
}

impl DeepView for Action {
    type V = ActionV;

    open spec fn deep_view(&self) -> ActionV {
        match self {
            Action::CallListAccounts => ActionV::CallListAccounts,
            Action::CallAddAccount { server, username, password } => ActionV::CallAddAccount {
                server: server@,
                username: username@,
                password: password@,
            },
            Action::CallRemoveAccount { server } => ActionV::CallRemoveAccount { server: server@ },
            Action::PresentEditor { initial } => ActionV::PresentEditor {
                initial: initial.deep_view(),
            },
            Action::PresentDetails { server, username } => ActionV::PresentDetails {
                server: server@,
                username: username@,
            },
            Action::ReportError { error } => ActionV::ReportError { error: *error },
        }
    }
}

pub struct AccountListController {
    pub phase: Phase,
    pub rows: Vec<Row>,
}

#[verifier::ext_equal]
pub struct ControllerV {
    pub phase: PhaseV,
    pub rows: Seq<RowV>,
}

impl DeepView for AccountListController {
    type V = ControllerV;

    open spec fn deep_view(&self) -> ControllerV {
        ControllerV { phase: self.phase.deep_view(), rows: self.rows.deep_view() }
    }
}

/// Which events the controller can be handed in which phase. User triggers
/// wait for idleness (operations serialize by awaiting completion); each
/// completion event answers exactly the operation in flight.
pub open spec fn enabled(c: ControllerV, e: EventV) -> bool {
    match e {
        EventV::RefreshRequested => c.phase is Idle,
        EventV::AddRequested => c.phase is Idle,
        EventV::EditRequested { .. } => c.phase is Idle,
        EventV::RemoveRequested { .. } => c.phase is Idle,
        EventV::DetailsRequested { .. } => c.phase is Idle,
        EventV::EditorConfirmed { .. } => c.phase is Editing,
        EventV::EditorAbandoned => c.phase is Editing,
        EventV::ListCompleted { .. } => c.phase is Listing,
        EventV::SaveCompleted { .. } => c.phase is Saving,
        EventV::RemoveCompleted { .. } => c.phase is Removing,
    }
}

/// The transition relation: next controller state and the action to start.
pub open spec fn step_spec(c: ControllerV, e: EventV) -> (ControllerV, Option<ActionV>) {
    match e {
        EventV::RefreshRequested => (
            ControllerV { phase: PhaseV::Listing, rows: c.rows },
            Some(ActionV::CallListAccounts),
        ),
        EventV::AddRequested => (
            ControllerV { phase: PhaseV::Editing { initial: None }, rows: c.rows },
            Some(ActionV::PresentEditor { initial: None }),
        ),
        EventV::EditRequested { account } => (
            ControllerV { phase: PhaseV::Editing { initial: Some(account) }, rows: c.rows },
            Some(ActionV::PresentEditor { initial: Some(account) }),
        ),
        EventV::RemoveRequested { server } => (
            ControllerV { phase: PhaseV::Removing, rows: c.rows },
            Some(ActionV::CallRemoveAccount { server }),
        ),
        EventV::DetailsRequested { account } => (
            ControllerV { phase: PhaseV::Idle, rows: c.rows },
            Some(ActionV::PresentDetails { server: account.server, username: account.username }),
        ),
        EventV::EditorConfirmed { server, username, password } => (
            ControllerV { phase: PhaseV::Saving, rows: c.rows },
            Some(ActionV::CallAddAccount { server, username, password }),
        ),
        EventV::EditorAbandoned => (ControllerV { phase: PhaseV::Idle, rows: c.rows }, None),
        EventV::ListCompleted { result } => match result {
            Ok(accounts) => (
                ControllerV { phase: PhaseV::Idle, rows: render_view(accounts) },
                None,
            ),
            Err(error) => (
                ControllerV { phase: PhaseV::Idle, rows: c.rows },
                Some(ActionV::ReportError { error }),
            ),
        },
        EventV::SaveCompleted { result } => match result {
            Ok(_) => (
                ControllerV { phase: PhaseV::Listing, rows: c.rows },
                Some(ActionV::CallListAccounts),
            ),
            Err(error) => (
                ControllerV { phase: PhaseV::Idle, rows: c.rows },
                Some(ActionV::ReportError { error }),
            ),
        },
        EventV::RemoveCompleted { result } => match result {
            Ok(_) => (
                ControllerV { phase: PhaseV::Listing, rows: c.rows },
                Some(ActionV::CallListAccounts),
            ),
            Err(error) => (
                ControllerV { phase: PhaseV::Idle, rows: c.rows },
                Some(ActionV::ReportError { error }),
            ),
        },
    }
}

impl AccountListController {
    /// A controller starts idle with nothing rendered; the first refresh is
    /// requested right after construction.
    pub fn new() -> (c: AccountListController)
        ensures
            c.deep_view() == (ControllerV { phase: PhaseV::Idle, rows: Seq::<RowV>::empty() }),
    {
        let c = AccountListController { phase: Phase::Idle, rows: Vec::new() };
        proof {
            assert(c.deep_view().rows =~= Seq::<RowV>::empty());
            assert(c.deep_view() =~= (ControllerV {
                phase: PhaseV::Idle,
                rows: Seq::<RowV>::empty(),
            }));
        }
        c
    }

    /// Take one step: commit the new phase and rows, and return the action
    /// the surrounding loop must perform, if any.
    pub fn step(&mut self, event: Event) -> (action: Option<Action>)
        requires
            enabled(old(self).deep_view(), event.deep_view()),
        ensures
            final(self).deep_view() == step_spec(old(self).deep_view(), event.deep_view()).0,
            action.deep_view() == step_spec(old(self).deep_view(), event.deep_view()).1,
    {
        match event {
            Event::RefreshRequested => {
                self.phase = Phase::Listing;
                Some(Action::CallListAccounts)
            },
            Event::AddRequested => {
                self.phase = Phase::Editing { initial: None };
                Some(Action::PresentEditor { initial: None })
            },
            Event::EditRequested { account } => {
                let copy = account.clone();
                self.phase = Phase::Editing { initial: Some(copy) };
                Some(Action::PresentEditor { initial: Some(account) })
            },
            Event::RemoveRequested { server } => {
                self.phase = Phase::Removing;
                Some(Action::CallRemoveAccount { server })
            },
            Event::DetailsRequested { account } => {
                self.phase = Phase::Idle;
                let Account { server, username, password: _ } = account;
                Some(Action::PresentDetails { server, username })
            },
            Event::EditorConfirmed { server, username, password } => {
                self.phase = Phase::Saving;
                Some(Action::CallAddAccount { server, username, password })
            },
            Event::EditorAbandoned => {
                self.phase = Phase::Idle;
                None
            },
            Event::ListCompleted { result } => match result {
                Ok(accounts) => {
                    self.phase = Phase::Idle;
                    self.rows = render_rows(&accounts);
                    None
                },
                Err(error) => {
                    self.phase = Phase::Idle;
                    Some(Action::ReportError { error })
                },
            },
            Event::SaveCompleted { result } => match result {
                Ok(_) => {
                    self.phase = Phase::Listing;
                    Some(Action::CallListAccounts)
                },
                Err(error) => {
                    self.phase = Phase::Idle;
                    Some(Action::ReportError { error })
                },
            },
            Event::RemoveCompleted { result } => match result {
                Ok(_) => {
                    self.phase = Phase::Listing;
                    Some(Action::CallListAccounts)
                },
                Err(error) => {
                    self.phase = Phase::Idle;
                    Some(Action::ReportError { error })
                },
            },
        }
    }
}

pub open spec fn spec_outcome_event(o: EditOutcomeV) -> EventV {
    match o {
        EditOutcomeV::Confirmed { server, username, password } => EventV::EditorConfirmed {
            server,
            username,
            password,
        },
        EditOutcomeV::Abandoned => EventV::EditorAbandoned,
    }
}

/// Turn the modal bridge's one-shot resolution into the controller's next
/// event: a confirmation carries the field values over unchanged, an
/// abandonment becomes the no-op event.
pub fn edit_outcome_event(outcome: EditOutcome) -> (e: Event)
    ensures
        e.deep_view() == spec_outcome_event(outcome.deep_view()),
{
    match outcome {
        EditOutcome::Confirmed { server, username, password } => Event::EditorConfirmed {
            server,
            username,
            password,
        },
        EditOutcome::Abandoned => Event::EditorAbandoned,
    }
}

pub open spec fn action_seq(a: Option<ActionV>) -> Seq<ActionV> {
    match a {
        Some(x) => seq![x],
        None => Seq::<ActionV>::empty(),
    }
}

/// Drive the controller through a sequence of events; the result is the
/// final state and every action emitted, in order.
pub open spec fn run_spec(c: ControllerV, events: Seq<EventV>) -> (ControllerV, Seq<ActionV>)
    decreases events.len(),
{
    if events.len() == 0 {
        (c, Seq::<ActionV>::empty())
    } else {
        let first = step_spec(c, events[0]);
        let rest = run_spec(first.0, events.drop_first());
        (rest.0, action_seq(first.1) + rest.1)
    }
}

/// A confirmed edit interaction drives exactly one add-or-upsert call with
/// the confirmed field values and, once that call succeeds, exactly one
/// refresh — no other operation — and leaves the rendered rows untouched
/// until the refresh completes.
pub proof fn lemma_confirmed_edit_upserts_once(
    c: ControllerV,
    server: Seq<char>,
    username: Seq<char>,
    password: Seq<char>,
)
    requires
        c.phase is Editing,
    ensures
        ({
            let events = seq![
                EventV::EditorConfirmed { server, username, password },
                EventV::SaveCompleted { result: Ok(()) },
            ];
            let outcome = run_spec(c, events);
            &&& outcome.1 =~= seq![
                ActionV::CallAddAccount { server, username, password },
                ActionV::CallListAccounts,
            ]
            &&& outcome.0.phase is Listing
            &&& outcome.0.rows == c.rows
        }),
{
    reveal_with_fuel(run_spec, 4);
    let events = seq![
        EventV::EditorConfirmed { server, username, password },
        EventV::SaveCompleted { result: Ok(()) },
    ];
    assert(events.drop_first() =~= seq![EventV::SaveCompleted { result: Ok(()) }]);
    assert(events.drop_first().drop_first() =~= Seq::<EventV>::empty());
}

/// The whole add interaction, end to end: from an idle controller, opening
/// the editor, confirming it, and the upsert and refresh completing drive
/// exactly these four steps — present the editor, call the backend once
/// with the confirmed values, refresh once — and the rows rendered at the
/// end are exactly the rendering of the account set the refresh observed,
/// a state the backend committed only after the upsert completed.
pub proof fn lemma_add_interaction_renders_committed_state(
    c: ControllerV,
    server: Seq<char>,
    username: Seq<char>,
    password: Seq<char>,
    backend: Seq<AccountV>,
)
    requires
        c.phase is Idle,
    ensures
        ({
            let events = seq![
                EventV::AddRequested,
                EventV::EditorConfirmed { server, username, password },
                EventV::SaveCompleted { result: Ok(()) },
                EventV::ListCompleted { result: Ok(backend) },
            ];
            let outcome = run_spec(c, events);
            &&& outcome.1 =~= seq![
                ActionV::PresentEditor { initial: None },
                ActionV::CallAddAccount { server, username, password },
                ActionV::CallListAccounts,
            ]
            &&& outcome.0.phase is Idle
            &&& outcome.0.rows == render_view(backend)
        }),
{
    reveal_with_fuel(run_spec, 6);
    let events = seq![
        EventV::AddRequested,
        EventV::EditorConfirmed { server, username, password },
        EventV::SaveCompleted { result: Ok(()) },
        EventV::ListCompleted { result: Ok(backend) },
    ];
    let e1 = events.drop_first();
    let e2 = e1.drop_first();
    let e3 = e2.drop_first();
    let e4 = e3.drop_first();
    assert(e1 =~= seq![
        EventV::EditorConfirmed { server, username, password },
        EventV::SaveCompleted { result: Ok(()) },
        EventV::ListCompleted { result: Ok(backend) },
    ]);
    assert(e2 =~= seq![
        EventV::SaveCompleted { result: Ok(()) },
        EventV::ListCompleted { result: Ok(backend) },
    ]);
    assert(e3 =~= seq![EventV::ListCompleted { result: Ok(backend) }]);
    assert(e4 =~= Seq::<EventV>::empty());
}

/// An abandoned edit interaction is a no-op: no backend call, no refresh,
/// no error, and the rendered rows stay exactly as they were.
pub proof fn lemma_abandoned_edit_is_noop(c: ControllerV)
    requires
        c.phase is Editing,
    ensures
        run_spec(c, seq![EventV::EditorAbandoned]).1 =~= Seq::<ActionV>::empty(),
        run_spec(c, seq![EventV::EditorAbandoned]).0 == (ControllerV {
            phase: PhaseV::Idle,
            rows: c.rows,
        }),
{
    reveal_with_fuel(run_spec, 3);
    let events = seq![EventV::EditorAbandoned];
    assert(events.drop_first() =~= Seq::<EventV>::empty());
}

/// A failed removal surfaces exactly one reportable error, triggers no
/// refresh, and does not alter the rendered rows.
pub proof fn lemma_failed_remove_keeps_rows(c: ControllerV, error: BackendError)
    requires
        c.phase is Removing,
    ensures
        step_spec(c, EventV::RemoveCompleted { result: Err(error) }).1 == Some(
            ActionV::ReportError { error },
        ),
        step_spec(c, EventV::RemoveCompleted { result: Err(error) }).0 == (ControllerV {
            phase: PhaseV::Idle,
            rows: c.rows,
        }),
{
}

/// Refreshing is idempotent: two refreshes in sequence against an unchanged
/// backend state render identical row sets, both equal to the rendering of
/// that state.
pub proof fn lemma_refresh_idempotent(c: ControllerV, backend: Seq<AccountV>)
    requires
        c.phase is Idle,
    ensures
        ({
            let events = seq![
                EventV::RefreshRequested,
                EventV::ListCompleted { result: Ok(backend) },
                EventV::RefreshRequested,
                EventV::ListCompleted { result: Ok(backend) },
            ];
            let once = run_spec(c, events.take(2));
            let twice = run_spec(c, events);
            &&& once.0.rows == render_view(backend)
            &&& twice.0.rows == render_view(backend)
            &&& once.0.rows == twice.0.rows
        }),
{
    reveal_with_fuel(run_spec, 6);
    let events = seq![
        EventV::RefreshRequested,
        EventV::ListCompleted { result: Ok(backend) },
        EventV::RefreshRequested,
        EventV::ListCompleted { result: Ok(backend) },
    ];
    let e1 = events.drop_first();
    let e2 = e1.drop_first();
    let e3 = e2.drop_first();
    let e4 = e3.drop_first();
    assert(e1 =~= seq![
        EventV::ListCompleted { result: Ok(backend) },
        EventV::RefreshRequested,
        EventV::ListCompleted { result: Ok(backend) },
    ]);
    assert(e2 =~= seq![EventV::RefreshRequested, EventV::ListCompleted { result: Ok(backend) }]);
    assert(e3 =~= seq![EventV::ListCompleted { result: Ok(backend) }]);
    assert(e4 =~= Seq::<EventV>::empty());
    let t = events.take(2);
    assert(t =~= seq![EventV::RefreshRequested, EventV::ListCompleted { result: Ok(backend) }]);
    assert(t.drop_first() =~= seq![EventV::ListCompleted { result: Ok(backend) }]);
    assert(t.drop_first().drop_first() =~= Seq::<EventV>::empty());
}

} // verus!
