use vstd::prelude::*;
use crate::credential::{accepts, CredentialError, CredentialHasher};

verus! {

/// A column of the users table that carries a uniqueness constraint.
#[derive(Debug, Clone, Copy, PartialEq, Eq, Structural)]
pub enum Field {
    Username,
    Email,
}

/// Why a registration did not produce a user.
#[derive(Debug, Clone, Copy, PartialEq, Eq, Structural)]
pub enum RegistrationError {
    /// The request was refused before hashing (an empty password).
    ValidationFailed,
    /// The password hashing primitive failed.
    HashingFailed,
    /// The store could not open a transaction.
    TransactionBeginFailed,
    /// Another user already holds this username or email.
    ConstraintViolation(Field),
    /// The store failed to commit the transaction.
    TransactionCommitFailed,
    /// The store failed otherwise.
    StoreUnavailable,
}

/// A registration request as submitted.
#[derive(Debug, Clone)]
pub struct NewUser {
    pub username: String,
    pub email: String,
    pub password: String,
}

/// The row written for a new user.
#[derive(Debug, Clone)]
pub struct StoredUser {
    pub id: u128,
    pub username: String,
    pub email: String,
    pub password_hash: String,
}

/// Where a registration stands.
#[derive(Debug, Clone, Copy)]
pub enum Phase {
    /// Waiting for the store to open a transaction.
    Opening,
    /// Waiting for the insert of the row.
    Inserting,
    /// Waiting for the commit.
    Committing,
    /// Waiting for the rollback that follows a failed insert.
    RollingBack { error: RegistrationError },
    /// The registration is over.
    Finished { outcome: Result<u128, RegistrationError> },
}

/// What the store reported for the step last asked of it.
#[derive(Debug, Clone, Copy)]
pub enum Event {
    Opened { ok: bool },
    InsertReported { result: Result<(), RegistrationError> },
    Committed { ok: bool },
    RolledBack,
}

/// What the driver must do next.
#[derive(Debug)]
pub enum Action {
    BeginTransaction,
    InsertRow { row: StoredUser },
    Commit,
    Rollback,
    /// Hand the outcome to the caller; nothing more is asked of the store.
    Report { outcome: Result<u128, RegistrationError> },
    /// The event does not belong to the current phase and was ignored.
    Ignore,
}

/// The create-user flow of one request: the password is hashed before the
/// store is touched, then one transaction inserts one row and commits, and
/// any failure on the way leaves no row behind.
pub struct Registration {
    pub request: NewUser,
    pub user_id: u128,
    pub password_hash: String,
    pub phase: Phase,
}

/// Whether `id`, read as a 128-bit big-endian UUID, carries version 4
/// (random) and the RFC 4122 variant.
pub open spec fn is_random_uuid(id: u128) -> bool {
    (id >> 76u128) & 0xfu128 == 4 && (id >> 62u128) & 3u128 == 2
}

/// Relies on uuid's `Uuid::new_v4` and `Uuid::as_u128`: random bits with the
/// version nibble set to 4 and the variant bits to `10`, read big-endian.
#[verifier::external_body]
fn fresh_user_id() -> (r: u128)
    ensures
        is_random_uuid(r),
{
    uuid::Uuid::new_v4().as_u128()
}

/// The error that a failure reported by the store stands for, from its
/// SQLSTATE code and the name of the constraint involved: a unique violation
/// (`23505`) on `users_username_key` or `users_email_key` names the field;
/// anything else is a store failure.
pub open spec fn store_error_spec(code: Option<String>, constraint: Option<String>) -> RegistrationError {
    match (code, constraint) {
        (Some(c), Some(k)) => if c@ == "23505"@ && k@ == "users_username_key"@ {
            RegistrationError::ConstraintViolation(Field::Username)
        } else if c@ == "23505"@ && k@ == "users_email_key"@ {
            RegistrationError::ConstraintViolation(Field::Email)
        } else {
            RegistrationError::StoreUnavailable
        },
        _ => RegistrationError::StoreUnavailable,
    }
}

/// Classifies a failed insert by its SQLSTATE code and constraint name.
pub fn classify_store_error(code: Option<String>, constraint: Option<String>) -> (r: RegistrationError)
    ensures
        r == store_error_spec(code, constraint),
{
    match (code, constraint) {
        (Some(c), Some(k)) => {
            let unique: String = "23505".to_owned();
            let username_key: String = "users_username_key".to_owned();
            let email_key: String = "users_email_key".to_owned();
            if c == unique && k == username_key {
                RegistrationError::ConstraintViolation(Field::Username)
            } else if c == unique && k == email_key {
                RegistrationError::ConstraintViolation(Field::Email)
            } else {
                RegistrationError::StoreUnavailable
            }
        },
        _ => RegistrationError::StoreUnavailable,
    }
}

/// The error reported for a failed hashing step.
pub open spec fn credential_failure(e: CredentialError) -> RegistrationError {
    match e {
        CredentialError::EmptyPassword => RegistrationError::ValidationFailed,
        CredentialError::HashingFailed => RegistrationError::HashingFailed,
    }
}

/// The row that a registration inserts.
pub open spec fn row_of(request: NewUser, user_id: u128, password_hash: String) -> StoredUser {
    StoredUser {
        id: user_id,
        username: request.username,
        email: request.email,
        password_hash,
    }
}

/// The phase and action that follow the hashing step.
pub open spec fn after_hashing_spec(hashed: Result<String, CredentialError>) -> (Phase, Action) {
    match hashed {
        Ok(_) => (Phase::Opening, Action::BeginTransaction),
        Err(e) => (
            Phase::Finished { outcome: Err(credential_failure(e)) },
            Action::Report { outcome: Err(credential_failure(e)) },
        ),
    }
}

/// The phase and action that follow `event` in `phase`.
pub open spec fn transition(
    phase: Phase,
    event: Event,
    row: StoredUser,
) -> (Phase, Action) {
    match (phase, event) {
        (Phase::Opening, Event::Opened { ok }) => if ok {
            (Phase::Inserting, Action::InsertRow { row })
        } else {
            (
                Phase::Finished { outcome: Err(RegistrationError::TransactionBeginFailed) },
                Action::Report { outcome: Err(RegistrationError::TransactionBeginFailed) },
            )
        },
        (Phase::Inserting, Event::InsertReported { result }) => match result {
            Ok(_) => (Phase::Committing, Action::Commit),
            Err(e) => (Phase::RollingBack { error: e }, Action::Rollback),
        },
        (Phase::Committing, Event::Committed { ok }) => if ok {
            (Phase::Finished { outcome: Ok(row.id) }, Action::Report { outcome: Ok(row.id) })
        } else {
            (
                Phase::Finished { outcome: Err(RegistrationError::TransactionCommitFailed) },
                Action::Report { outcome: Err(RegistrationError::TransactionCommitFailed) },
            )
        },
        (Phase::RollingBack { error }, Event::RolledBack) => (
            Phase::Finished { outcome: Err(error) },
            Action::Report { outcome: Err(error) },
        ),
        (p, _) => (p, Action::Ignore),
    }
}

impl Registration {
    /// The row this registration inserts.
    pub open spec fn row(&self) -> StoredUser {
        row_of(self.request, self.user_id, self.password_hash)
    }

    /// Starts a request: hashes its password, then draws a fresh random
    /// identifier for the new user. The store is asked for a transaction only
    /// once a hash exists.
    pub fn start(request: NewUser, hasher: &CredentialHasher) -> (r: (Registration, Action))
        ensures
            r.0.request == request,
            is_random_uuid(r.0.user_id),
            request.password@.len() == 0 ==> (r.0.phase, r.1) == after_hashing_spec(
                Err(CredentialError::EmptyPassword),
            ),
            request.password@.len() > 0 ==> ((r.0.phase, r.1) == after_hashing_spec(
                Ok(r.0.password_hash),
            ) && accepts(request.password@, r.0.password_hash@)) || (r.0.phase, r.1)
                == after_hashing_spec(Err(CredentialError::HashingFailed)),
    {
        let hashed = hasher.hash(request.password.as_str());
        let user_id = fresh_user_id();
        Registration::after_hashing(request, user_id, hashed)
    }

    /// Continues a request once its password has been hashed (or refused), with
    /// `user_id` as the identifier of the new user. A failed hashing step ends
    /// the registration before any transaction is asked for.
    pub fn after_hashing(
        request: NewUser,
        user_id: u128,
        hashed: Result<String, CredentialError>,
    ) -> (r: (Registration, Action))
        ensures
            r.0.request == request,
            r.0.user_id == user_id,
            (r.0.phase, r.1) == after_hashing_spec(hashed),
            hashed matches Ok(h) ==> r.0.password_hash == h,
    {
        match hashed {
            Ok(h) => (
                Registration { request, user_id, password_hash: h, phase: Phase::Opening },
                Action::BeginTransaction,
            ),
            Err(e) => {
                let err = match e {
                    CredentialError::EmptyPassword => RegistrationError::ValidationFailed,
                    CredentialError::HashingFailed => RegistrationError::HashingFailed,
                };
                (
                    Registration {
                        request,
                        user_id,
                        password_hash: String::new(),
                        phase: Phase::Finished { outcome: Err(err) },
                    },
                    Action::Report { outcome: Err(err) },
                )
            },
        }
    }

    /// Advances the registration by what the store reported.
    pub fn on_event(&mut self, event: Event) -> (r: Action)
        ensures
            final(self).request == old(self).request,
            final(self).user_id == old(self).user_id,
            final(self).password_hash == old(self).password_hash,
            (final(self).phase, r) == transition(old(self).phase, event, old(self).row()),
    {
        let phase = self.phase;
        match (phase, event) {
            (Phase::Opening, Event::Opened { ok }) => {
                if ok {
                    self.phase = Phase::Inserting;
                    Action::InsertRow {
                        row: StoredUser {
                            id: self.user_id,
                            username: self.request.username.clone(),
                            email: self.request.email.clone(),
                            password_hash: self.password_hash.clone(),
                        },
                    }
                } else {
                    self.finish(Err(RegistrationError::TransactionBeginFailed))
                }
            },
            (Phase::Inserting, Event::InsertReported { result }) => match result {
                Ok(_) => {
                    self.phase = Phase::Committing;
                    Action::Commit
                },
                Err(e) => {
                    self.phase = Phase::RollingBack { error: e };
                    Action::Rollback
                },
            },
            (Phase::Committing, Event::Committed { ok }) => {
                if ok {
                    self.finish(Ok(self.user_id))
                } else {
                    self.finish(Err(RegistrationError::TransactionCommitFailed))
                }
            },
            (Phase::RollingBack { error }, Event::RolledBack) => self.finish(Err(error)),
            (_, _) => Action::Ignore,
        }
    }

    fn finish(&mut self, outcome: Result<u128, RegistrationError>) -> (r: Action)
        ensures
            final(self).request == old(self).request,
            final(self).user_id == old(self).user_id,
            final(self).password_hash == old(self).password_hash,
            final(self).phase == (Phase::Finished { outcome }),
            r == (Action::Report { outcome }),
    {
        self.phase = Phase::Finished { outcome };
        Action::Report { outcome }
    }
}

/// The actions taken for a sequence of store reports, from `phase` on.
pub open spec fn run(phase: Phase, events: Seq<Event>, row: StoredUser) -> Seq<Action>
    decreases events.len(),
{
    if events.len() == 0 {
        Seq::empty()
    } else {
        let (next, action) = transition(phase, events[0], row);
        seq![action] + run(next, events.drop_first(), row)
    }
}

/// Whether an action reports a registered user.
pub open spec fn reports_success(a: Action) -> bool {
    a matches Action::Report { outcome: Ok(_) }
}

/// A failed hashing step ends the registration with the matching error and
/// asks nothing of the store: no transaction is opened, no row inserted.
pub proof fn lemma_hashing_failure_opens_no_transaction(e: CredentialError)
    ensures
        after_hashing_spec(Err(e)).1 == (Action::Report { outcome: Err(credential_failure(e)) }),
        after_hashing_spec(Err(e)).0 == (Phase::Finished { outcome: Err(credential_failure(e)) }),
        e == CredentialError::EmptyPassword ==> credential_failure(e) == RegistrationError::ValidationFailed,
        e == CredentialError::HashingFailed ==> credential_failure(e) == RegistrationError::HashingFailed,
{
}

/// When the store opens the transaction, accepts the row and commits, the
/// registration inserts exactly its row, commits, and reports the identifier
/// of that row.
pub proof fn lemma_registration_succeeds(row: StoredUser)
    ensures
        run(
            Phase::Opening,
            seq![
                Event::Opened { ok: true },
                Event::InsertReported { result: Ok(()) },
                Event::Committed { ok: true },
            ],
            row,
        ) == seq![
            Action::InsertRow { row },
            Action::Commit,
            Action::Report { outcome: Ok(row.id) },
        ],
{
    let events = seq![
        Event::Opened { ok: true },
        Event::InsertReported { result: Ok(()) },
        Event::Committed { ok: true },
    ];
    assert(events.drop_first() =~= seq![
        Event::InsertReported { result: Ok(()) },
        Event::Committed { ok: true },
    ]);
    assert(events.drop_first().drop_first() =~= seq![Event::Committed { ok: true }]);
    assert(events.drop_first().drop_first().drop_first() =~= Seq::<Event>::empty());
    assert(run(Phase::Finished { outcome: Ok(row.id) }, Seq::<Event>::empty(), row) =~= Seq::<Action>::empty());
    assert(run(Phase::Committing, events.drop_first().drop_first(), row) =~= seq![
        Action::Report { outcome: Ok(row.id) },
    ]);
    assert(run(Phase::Inserting, events.drop_first(), row) =~= seq![
        Action::Commit,
        Action::Report { outcome: Ok(row.id) },
    ]);
    assert(run(Phase::Opening, events, row) =~= seq![
        Action::InsertRow { row },
        Action::Commit,
        Action::Report { outcome: Ok(row.id) },
    ]);
}

/// Success is reported only by a commit that the store acknowledged, and it
/// reports the identifier of the row that was inserted.
pub proof fn lemma_success_only_after_commit(phase: Phase, event: Event, row: StoredUser)
    ensures
        reports_success(transition(phase, event, row).1) ==> phase == Phase::Committing && event
            == (Event::Committed { ok: true }) && transition(phase, event, row).1 == (Action::Report {
            outcome: Ok(row.id),
        }),
{
}

/// Once rolling back or finished with an error, whatever the store reports,
/// the registration never commits and never reports success.
pub proof fn lemma_failed_never_commits(phase: Phase, events: Seq<Event>, row: StoredUser)
    requires
        phase is RollingBack || phase matches Phase::Finished { outcome: Err(_) },
    ensures
        forall|i: int|
            0 <= i < run(phase, events, row).len() ==> !(#[trigger] run(phase, events, row)[i] is Commit)
                && !reports_success(run(phase, events, row)[i]),
    decreases events.len(),
{
    if events.len() > 0 {
        let (next, action) = transition(phase, events[0], row);
        lemma_failed_never_commits(next, events.drop_first(), row);
        assert(run(phase, events, row) =~= seq![action] + run(next, events.drop_first(), row));
    }
}

/// A duplicate username or email reported by the insert makes the
/// registration roll back; it never commits, never reports success, and
/// reports the violation once the rollback is done.
pub proof fn lemma_duplicate_rolls_back(field: Field, events: Seq<Event>, row: StoredUser)
    ensures
        ({
            let e = RegistrationError::ConstraintViolation(field);
            let acts = run(
                Phase::Inserting,
                seq![Event::InsertReported { result: Err(e) }] + events,
                row,
            );
            &&& acts[0] == Action::Rollback
            &&& forall|i: int| 0 <= i < acts.len() ==> !(#[trigger] acts[i] is Commit) && !reports_success(acts[i])
            &&& (events.len() > 0 && events[0] == Event::RolledBack) ==> acts[1] == (Action::Report {
                outcome: Err(e),
            })
        }),
{
    let e = RegistrationError::ConstraintViolation(field);
    let all = seq![Event::InsertReported { result: Err(e) }] + events;
    assert(all.drop_first() =~= events);
    let rest = Phase::RollingBack { error: e };
    lemma_failed_never_commits(rest, events, row);
    assert(run(Phase::Inserting, all, row) =~= seq![Action::Rollback] + run(rest, events, row));
    if events.len() > 0 && events[0] == Event::RolledBack {
        assert(run(rest, events, row)[0] == (Action::Report { outcome: Err(e) }));
    }
}

/// A finished registration ignores every further report.
pub proof fn lemma_finished_is_final(outcome: Result<u128, RegistrationError>, event: Event, row: StoredUser)
    ensures
        transition(Phase::Finished { outcome }, event, row) == (Phase::Finished { outcome }, Action::Ignore),
{
}

} // verus!
