use crate::account_session::{
    issue_outcome, session_id_taken, session_ids_unique, AccountSessionController,
    AccountSessionCreate, AccountSessionDTO,
};
use crate::clock::{new_uuid, now_utc};
use crate::error::Error;
use crate::hasher::{
    argon2_verdict, hash_password, password_fits, phc_parses, verification, verify_password,
};
use vstd::prelude::*;

verus! {

/// A sign-up request.
#[derive(Clone, Debug, PartialEq, Eq)]
pub struct NewAccount {
    pub name: String,
    pub email: String,
    pub password: String,
}

/// A login request.
#[derive(Clone, Debug, PartialEq, Eq)]
pub struct LoginCredentials {
    pub email: String,
    pub password: String,
}

/// The outward representation of an account: it has no field for the password
/// or its hash.
#[derive(Clone, Debug, PartialEq, Eq)]
pub struct AccountDTO {
    pub id: u128,
    pub email: String,
    pub name: String,
    pub inserted_at: i128,
    pub updated_at: i128,
}

/// The outward representation of an account joined with a session just issued.
#[derive(Clone, Debug, PartialEq, Eq)]
pub struct AccountWithAccountSessionDTO {
    pub id: u128,
    pub email: String,
    pub name: String,
    pub account_session_id: u128,
    pub inserted_at: i128,
    pub updated_at: i128,
}

/// A stored account row, password hash included; for use inside the
/// authentication flow only.
#[derive(Clone, Debug, PartialEq, Eq)]
pub struct AccountWithPasswordHashDTO {
    pub id: u128,
    pub email: String,
    pub name: String,
    pub password_hash: String,
    pub inserted_at: i128,
    pub updated_at: i128,
}

/// The outward representation of a stored row.
pub open spec fn dto_of(row: AccountWithPasswordHashDTO) -> AccountDTO {
    AccountDTO {
        id: row.id,
        email: row.email,
        name: row.name,
        inserted_at: row.inserted_at,
        updated_at: row.updated_at,
    }
}

/// A stored row joined with a session issued for it.
pub open spec fn joined(row: AccountWithPasswordHashDTO, session: AccountSessionDTO) -> AccountWithAccountSessionDTO {
    AccountWithAccountSessionDTO {
        id: row.id,
        email: row.email,
        name: row.name,
        account_session_id: session.id,
        inserted_at: row.inserted_at,
        updated_at: row.updated_at,
    }
}

/// The row that signing up `new_account` stores.
pub open spec fn account_row(
    new_account: NewAccount,
    id: u128,
    password_hash: String,
    now: i128,
) -> AccountWithPasswordHashDTO {
    AccountWithPasswordHashDTO {
        id,
        email: new_account.email,
        name: new_account.name,
        password_hash,
        inserted_at: now,
        updated_at: now,
    }
}

/// The row registered under `email`, if any (the latest one, though emails are
/// unique in a well-formed table).
pub open spec fn lookup_email(accounts: Seq<AccountWithPasswordHashDTO>, email: Seq<char>) -> Option<
    AccountWithPasswordHashDTO,
>
    decreases accounts.len(),
{
    if accounts.len() == 0 {
        None
    } else if accounts.last().email@ == email {
        Some(accounts.last())
    } else {
        lookup_email(accounts.drop_last(), email)
    }
}

/// Whether some account has the id `id`.
pub open spec fn account_id_taken(accounts: Seq<AccountWithPasswordHashDTO>, id: u128) -> bool {
    exists|i: int| 0 <= i < accounts.len() && #[trigger] accounts[i].id == id
}

/// Emails and ids are unique among the accounts.
pub open spec fn accounts_unique(accounts: Seq<AccountWithPasswordHashDTO>) -> bool {
    forall|i: int, j: int|
        0 <= i < j < accounts.len() ==> {
            &&& (#[trigger] accounts[i]).email@ != (#[trigger] accounts[j]).email@
            &&& accounts[i].id != accounts[j].id
        }
}

/// Every session belongs to a stored account.
pub open spec fn sessions_reference_accounts(
    accounts: Seq<AccountWithPasswordHashDTO>,
    sessions: Seq<AccountSessionDTO>,
) -> bool {
    forall|k: int| 0 <= k < sessions.len() ==> account_id_taken(accounts, #[trigger] sessions[k].account_id)
}

/// What signing up does: a registered email is a conflict; an id already in
/// use (the primary key) is an internal error; otherwise the new row.
pub open spec fn signup_outcome(
    accounts: Seq<AccountWithPasswordHashDTO>,
    new_account: NewAccount,
    id: u128,
    password_hash: String,
    now: i128,
) -> Result<AccountWithPasswordHashDTO, Error> {
    if lookup_email(accounts, new_account.email@) is Some {
        Err(Error::Conflict)
    } else if account_id_taken(accounts, id) {
        Err(Error::Internal)
    } else {
        Ok(account_row(new_account, id, password_hash, now))
    }
}

/// Whether a session issued at `now` can expire `lifetime` nanoseconds later
/// without leaving the range of timestamps.
pub open spec fn expiry_fits(now: i128, lifetime: u64) -> bool {
    now + lifetime <= i128::MAX
}

/// What issuing a session for the account `account_id` does: the account must
/// exist (`NotFound` otherwise); the session expires `lifetime` nanoseconds
/// after `now`, which must stay in range; and its id must be fresh.
pub open spec fn session_issue_outcome(
    accounts: Seq<AccountWithPasswordHashDTO>,
    sessions: Seq<AccountSessionDTO>,
    lifetime: u64,
    account_id: u128,
    session_id: u128,
    now: i128,
) -> Result<AccountSessionDTO, Error> {
    if !account_id_taken(accounts, account_id) {
        Err(Error::NotFound)
    } else if !expiry_fits(now, lifetime) {
        Err(Error::Internal)
    } else {
        issue_outcome(
            sessions,
            AccountSessionCreate { account_id, expires_at: (now + lifetime) as i128 },
            session_id,
            now,
        )
    }
}

/// What logging in does: an unknown email and a wrong password both give
/// `Unauthorized`; a hash that does not parse gives `MalformedHash`; on success
/// a session expiring `lifetime` nanoseconds after `now` is issued under the
/// id `session_id`.
pub open spec fn login_outcome(
    accounts: Seq<AccountWithPasswordHashDTO>,
    sessions: Seq<AccountSessionDTO>,
    lifetime: u64,
    email: Seq<char>,
    password: Seq<char>,
    session_id: u128,
    now: i128,
) -> Result<(AccountWithPasswordHashDTO, AccountSessionDTO), Error> {
    match lookup_email(accounts, email) {
        None => Err(Error::Unauthorized),
        Some(row) => match verification(password, row.password_hash@) {
            Err(e) => Err(e),
            Ok(_) => match session_issue_outcome(accounts, sessions, lifetime, row.id, session_id, now) {
                Ok(s) => Ok((row, s)),
                Err(e) => Err(e),
            },
        },
    }
}

proof fn lemma_lookup(accounts: Seq<AccountWithPasswordHashDTO>, email: Seq<char>)
    ensures
        lookup_email(accounts, email) matches Some(r) ==> r.email@ == email && exists|i: int|
            0 <= i < accounts.len() && accounts[i] == r,
        lookup_email(accounts, email) is None ==> forall|i: int|
            0 <= i < accounts.len() ==> (#[trigger] accounts[i]).email@ != email,
    decreases accounts.len(),
{
    if accounts.len() > 0 {
        let rest = accounts.drop_last();
        lemma_lookup(rest, email);
        if accounts.last().email@ != email {
            if let Some(r) = lookup_email(rest, email) {
                let i = choose|i: int| 0 <= i < rest.len() && rest[i] == r;
                assert(accounts[i] == r);
            }
            assert forall|i: int| 0 <= i < accounts.len() && lookup_email(accounts, email) is None
                implies (#[trigger] accounts[i]).email@ != email by {
                if i < rest.len() {
                    assert(rest[i] == accounts[i]);
                }
            }
        } else {
            assert(accounts[accounts.len() - 1] == accounts.last());
        }
    }
}

proof fn lemma_lookup_push(
    accounts: Seq<AccountWithPasswordHashDTO>,
    row: AccountWithPasswordHashDTO,
    email: Seq<char>,
)
    ensures
        lookup_email(accounts.push(row), email) == if row.email@ == email {
            Some(row)
        } else {
            lookup_email(accounts, email)
        },
{
    assert(accounts.push(row).drop_last() =~= accounts);
}

/// Signing up with an email that is not registered, under an id not in use,
/// succeeds; what it returns holds the id, email, name and times, and nothing
/// of the password or its hash.
pub proof fn lemma_signup_fresh_email_succeeds(
    accounts: Seq<AccountWithPasswordHashDTO>,
    new_account: NewAccount,
    id: u128,
    password_hash: String,
    now: i128,
)
    requires
        lookup_email(accounts, new_account.email@) is None,
        !account_id_taken(accounts, id),
    ensures
        signup_outcome(accounts, new_account, id, password_hash, now) == Ok::<
            AccountWithPasswordHashDTO,
            Error,
        >(account_row(new_account, id, password_hash, now)),
        dto_of(account_row(new_account, id, password_hash, now)) == (AccountDTO {
            id,
            email: new_account.email,
            name: new_account.name,
            inserted_at: now,
            updated_at: now,
        }),
{
}

/// Sign-up is not idempotent: once a sign-up has stored its row, a second
/// sign-up with the same email fails with `Conflict`, whatever its name,
/// password, id and time.
pub proof fn lemma_signup_twice_conflicts(
    accounts: Seq<AccountWithPasswordHashDTO>,
    first: NewAccount,
    first_id: u128,
    first_hash: String,
    first_now: i128,
    second: NewAccount,
    second_id: u128,
    second_hash: String,
    second_now: i128,
)
    requires
        signup_outcome(accounts, first, first_id, first_hash, first_now) is Ok,
        second.email@ == first.email@,
    ensures
        signup_outcome(
            accounts.push(signup_outcome(accounts, first, first_id, first_hash, first_now)->Ok_0),
            second,
            second_id,
            second_hash,
            second_now,
        ) == Err::<AccountWithPasswordHashDTO, Error>(Error::Conflict),
{
    let row = account_row(first, first_id, first_hash, first_now);
    lemma_lookup_push(accounts, row, second.email@);
}

/// A wrong password for a registered email and any password for an email that
/// is not registered fail with the same error, `Unauthorized`.
pub proof fn lemma_login_failures_alike(
    accounts: Seq<AccountWithPasswordHashDTO>,
    sessions: Seq<AccountSessionDTO>,
    lifetime: u64,
    registered_email: Seq<char>,
    wrong_password: Seq<char>,
    unknown_email: Seq<char>,
    any_password: Seq<char>,
    session_id: u128,
    now: i128,
)
    requires
        lookup_email(accounts, registered_email) matches Some(row) && phc_parses(row.password_hash@)
            && argon2_verdict(wrong_password, row.password_hash@) == Some(false),
        lookup_email(accounts, unknown_email) is None,
    ensures
        login_outcome(accounts, sessions, lifetime, registered_email, wrong_password, session_id, now)
            == Err::<(AccountWithPasswordHashDTO, AccountSessionDTO), Error>(Error::Unauthorized),
        login_outcome(accounts, sessions, lifetime, unknown_email, any_password, session_id, now)
            == Err::<(AccountWithPasswordHashDTO, AccountSessionDTO), Error>(Error::Unauthorized),
{
}

/// After a sign-up whose stored hash verifies the password, logging in with
/// that email and password succeeds: it returns the new account and a session
/// for it under the drawn id, provided that id is not in use and the expiry
/// fits.
pub proof fn lemma_login_after_signup(
    accounts: Seq<AccountWithPasswordHashDTO>,
    sessions: Seq<AccountSessionDTO>,
    lifetime: u64,
    new_account: NewAccount,
    id: u128,
    password_hash: String,
    created_at: i128,
    session_id: u128,
    now: i128,
)
    requires
        signup_outcome(accounts, new_account, id, password_hash, created_at) is Ok,
        verification(new_account.password@, password_hash@) == Ok::<(), Error>(()),
        !session_id_taken(sessions, session_id),
        expiry_fits(now, lifetime),
    ensures
        login_outcome(
            accounts.push(account_row(new_account, id, password_hash, created_at)),
            sessions,
            lifetime,
            new_account.email@,
            new_account.password@,
            session_id,
            now,
        ) matches Ok((row, s)) && row == account_row(new_account, id, password_hash, created_at)
            && s.id == session_id && s.account_id == id && s.active == 1,
{
    let row = account_row(new_account, id, password_hash, created_at);
    lemma_lookup_push(accounts, row, new_account.email@);
    assert(accounts.push(row)[accounts.len() as int].id == id);
}

/// Repeated logins get distinct sessions: the session of a login that
/// succeeds after another one has a different id.
pub proof fn lemma_repeated_logins_distinct(
    accounts: Seq<AccountWithPasswordHashDTO>,
    sessions: Seq<AccountSessionDTO>,
    lifetime: u64,
    email: Seq<char>,
    password: Seq<char>,
    first_id: u128,
    first_now: i128,
    second_email: Seq<char>,
    second_password: Seq<char>,
    second_id: u128,
    second_now: i128,
)
    requires
        login_outcome(accounts, sessions, lifetime, email, password, first_id, first_now) is Ok,
    ensures
        ({
            let first = login_outcome(accounts, sessions, lifetime, email, password, first_id, first_now)->Ok_0.1;
            login_outcome(
                accounts,
                sessions.push(first),
                lifetime,
                second_email,
                second_password,
                second_id,
                second_now,
            ) matches Ok((_, second)) ==> second.id != first.id && !session_id_taken(sessions, second.id)
        }),
{
    let first = login_outcome(accounts, sessions, lifetime, email, password, first_id, first_now)->Ok_0.1;
    let all = sessions.push(first);
    if let Ok((_, second)) = login_outcome(accounts, all, lifetime, second_email, second_password, second_id, second_now) {
        assert(all[sessions.len() as int] == first);
        assert forall|i: int| 0 <= i < sessions.len() implies #[trigger] sessions[i].id != second.id by {
            assert(all[i] == sessions[i]);
        }
    }
}

/// In a well-formed service every session belongs to a stored account.
pub proof fn lemma_sessions_belong_to_accounts(service: AccountController)
    requires
        service.wf(),
    ensures
        sessions_reference_accounts(service.accounts(), service.sessions()),
{
    assert forall|k: int| 0 <= k < service.sessions().len() implies account_id_taken(
        service.accounts(),
        #[trigger] service.sessions()[k].account_id,
    ) by {
        assert(service.session_table().account_ids().contains(service.sessions()[k].account_id));
    }
}

impl AccountWithPasswordHashDTO {
    /// A copy of the row.
    pub fn cloned(&self) -> (r: Self)
        ensures
            r == *self,
    {
        AccountWithPasswordHashDTO {
            id: self.id,
            email: self.email.clone(),
            name: self.name.clone(),
            password_hash: self.password_hash.clone(),
            inserted_at: self.inserted_at,
            updated_at: self.updated_at,
        }
    }

    /// The outward representation of the row, without the password hash.
    pub fn to_dto(&self) -> (r: AccountDTO)
        ensures
            r == dto_of(*self),
    {
        AccountDTO {
            id: self.id,
            email: self.email.clone(),
            name: self.name.clone(),
            inserted_at: self.inserted_at,
            updated_at: self.updated_at,
        }
    }
}

/// The interface of the account service: sign-up, login and lookup.
pub trait AccountCtrlTrait {
    /// The registered accounts, oldest first.
    spec fn registered(&self) -> Seq<AccountWithPasswordHashDTO>;

    /// The sessions issued so far, oldest first.
    spec fn issued(&self) -> Seq<AccountSessionDTO>;

    /// How long after login, in nanoseconds, an issued session expires.
    spec fn lifetime(&self) -> u64;

    /// The constraints of the tables hold.
    spec fn well_formed(&self) -> bool;

    /// Signs up a new account: hashes its password and stores it under a fresh
    /// id. A registered email is a `Conflict`, checked before any hashing.
    fn create_account(&mut self, new_account: NewAccount) -> (r: Result<AccountDTO, Error>)
        requires
            old(self).well_formed(),
        ensures
            final(self).well_formed(),
            final(self).issued() == old(self).issued(),
            final(self).lifetime() == old(self).lifetime(),
            (r == Err::<AccountDTO, Error>(Error::Conflict)) == (lookup_email(
                old(self).registered(),
                new_account.email@,
            ) is Some),
            old(self).registered().len() == 0 && password_fits(new_account.password@) ==> r is Ok,
            match r {
                Ok(dto) => {
                    let row = final(self).registered().last();
                    &&& final(self).registered() == old(self).registered().push(row)
                    &&& dto == dto_of(row)
                    &&& row.name == new_account.name
                    &&& row.email == new_account.email
                    &&& row.inserted_at == row.updated_at
                    &&& verification(new_account.password@, row.password_hash@) == Ok::<(), Error>(())
                    &&& !account_id_taken(old(self).registered(), row.id)
                },
                Err(e) => {
                    &&& e == Error::Conflict || e == Error::Internal
                    &&& final(self).registered() == old(self).registered()
                },
            },
    ;

    /// Logs in: an unknown email and a wrong password both fail with
    /// `Unauthorized`; on success a session is issued under a fresh id.
    fn login_account(&mut self, credentials: LoginCredentials) -> (r: Result<
        AccountWithAccountSessionDTO,
        Error,
    >)
        requires
            old(self).well_formed(),
        ensures
            final(self).well_formed(),
            final(self).registered() == old(self).registered(),
            final(self).lifetime() == old(self).lifetime(),
            match lookup_email(old(self).registered(), credentials.email@) {
                None => r == Err::<AccountWithAccountSessionDTO, Error>(Error::Unauthorized),
                Some(row) => match verification(credentials.password@, row.password_hash@) {
                    Err(e) => r == Err::<AccountWithAccountSessionDTO, Error>(e),
                    Ok(_) => match r {
                        Ok(dto) => {
                            let s = final(self).issued().last();
                            &&& final(self).issued() == old(self).issued().push(s)
                            &&& dto == joined(row, s)
                            &&& !session_id_taken(old(self).issued(), s.id)
                            &&& s.account_id == row.id
                            &&& s.active == 1
                            &&& s.inserted_at == s.updated_at
                            &&& s.expires_at == s.inserted_at + old(self).lifetime()
                        },
                        Err(e) => e == Error::Internal,
                    },
                },
            },
            r is Err ==> final(self).issued() == old(self).issued(),
            r == Err::<AccountWithAccountSessionDTO, Error>(Error::Internal) ==> old(self).issued().len()
                > 0 || (lookup_email(
                old(self).registered(),
                credentials.email@,
            ) matches Some(row) && verification(credentials.password@, row.password_hash@) == Err::<
                (),
                Error,
            >(Error::Internal)),
    ;

    /// The stored row registered under `email`, password hash included;
    /// `NotFound` when there is none.
    fn get_account_by_email(&self, email: String) -> (r: Result<AccountWithPasswordHashDTO, Error>)
        ensures
            r == match lookup_email(self.registered(), email@) {
                Some(row) => Ok(row),
                None => Err(Error::NotFound),
            },
    ;
}

/// The account table, with the session table it issues sessions into.
pub struct AccountController {
    accounts: Vec<AccountWithPasswordHashDTO>,
    account_sessions: AccountSessionController,
    session_lifetime: u64,
}

impl AccountController {
    /// The stored accounts, oldest first.
    pub closed spec fn accounts(&self) -> Seq<AccountWithPasswordHashDTO> {
        self.accounts@
    }

    /// The session issuer that this service issues sessions through.
    pub closed spec fn session_table(&self) -> AccountSessionController {
        self.account_sessions
    }

    /// The stored sessions, oldest first.
    pub open spec fn sessions(&self) -> Seq<AccountSessionDTO> {
        self.session_table().sessions()
    }

    /// How long after login, in nanoseconds, an issued session expires.
    pub closed spec fn session_lifetime(&self) -> u64 {
        self.session_lifetime
    }

    /// Unique emails and ids; the session issuer's own constraints; and the
    /// issuer knows exactly the stored accounts, so that every session belongs
    /// to a stored account.
    pub open spec fn wf(&self) -> bool {
        &&& accounts_unique(self.accounts())
        &&& self.session_table().wf()
        &&& forall|x: u128| #[trigger]
            self.session_table().account_ids().contains(x) == account_id_taken(self.accounts(), x)
    }

    /// Empty tables; sessions expire as soon as they are issued.
    pub fn new() -> (r: Self)
        ensures
            r.wf(),
            r.accounts() == Seq::<AccountWithPasswordHashDTO>::empty(),
            r.sessions() == Seq::<AccountSessionDTO>::empty(),
            r.session_lifetime() == 0,
    {
        Self::with_session_lifetime(0)
    }

    /// Empty tables; sessions expire `session_lifetime` nanoseconds after login.
    pub fn with_session_lifetime(session_lifetime: u64) -> (r: Self)
        ensures
            r.wf(),
            r.accounts() == Seq::<AccountWithPasswordHashDTO>::empty(),
            r.sessions() == Seq::<AccountSessionDTO>::empty(),
            r.session_lifetime() == session_lifetime,
    {
        Self::with_parts(AccountSessionController::new(), session_lifetime)
    }

    /// Empty accounts, issuing sessions through `account_sessions`, which
    /// expire `session_lifetime` nanoseconds after login. With no accounts
    /// yet, the issuer holds no session and knows no account.
    pub fn with_parts(account_sessions: AccountSessionController, session_lifetime: u64) -> (r: Self)
        requires
            account_sessions.wf(),
            account_sessions.sessions().len() == 0,
            account_sessions.account_ids().len() == 0,
        ensures
            r.wf(),
            r.accounts() == Seq::<AccountWithPasswordHashDTO>::empty(),
            r.session_table() == account_sessions,
            r.session_lifetime() == session_lifetime,
    {
        AccountController { accounts: Vec::new(), account_sessions, session_lifetime }
    }

    /// The session issuer, to issue sessions through. What is done through it
    /// is what the service then holds; it keeps every session tied to a stored
    /// account, since the issuer knows exactly the stored accounts.
    pub fn session_table_mut(&mut self) -> (r: &mut AccountSessionController)
        ensures
            *r == old(self).session_table(),
            final(self).session_table() == *final(r),
            final(self).accounts() == old(self).accounts(),
            final(self).session_lifetime() == old(self).session_lifetime(),
    {
        &mut self.account_sessions
    }

    /// The session table.
    pub fn account_sessions(&self) -> (r: &AccountSessionController)
        ensures
            *r == self.session_table(),
    {
        &self.account_sessions
    }

    /// The number of stored accounts.
    pub fn len(&self) -> (r: usize)
        ensures
            r == self.accounts().len(),
    {
        self.accounts.len()
    }

    /// The position of the row that `lookup_email` finds.
    fn find_email(&self, email: &String) -> (r: Option<usize>)
        ensures
            match lookup_email(self.accounts(), email@) {
                None => r is None,
                Some(row) => r matches Some(i) && i < self.accounts().len() && self.accounts()[i as int] == row,
            },
    {
        let mut i: usize = self.accounts.len();
        assert(self.accounts@.take(i as int) =~= self.accounts@);
        while i > 0
            invariant
                i <= self.accounts@.len(),
                lookup_email(self.accounts@, email@) == lookup_email(self.accounts@.take(i as int), email@),
            decreases i,
        {
            let ghost prefix = self.accounts@.take(i as int);
            assert(prefix.last() == self.accounts@[i - 1]);
            if self.accounts[i - 1].email == *email {
                return Some(i - 1);
            }
            assert(prefix.drop_last() =~= self.accounts@.take(i - 1));
            i = i - 1;
        }
        None
    }

    /// The position of the account with the id `id`.
    fn find_id(&self, id: u128) -> (r: Option<usize>)
        ensures
            r is None == !account_id_taken(self.accounts(), id),
            r matches Some(i) ==> i < self.accounts().len() && self.accounts()[i as int].id == id,
    {
        let mut i: usize = 0;
        while i < self.accounts.len()
            invariant
                0 <= i <= self.accounts@.len(),
                forall|k: int| 0 <= k < i ==> self.accounts@[k].id != id,
            decreases self.accounts@.len() - i,
        {
            if self.accounts[i].id == id {
                return Some(i);
            }
            i = i + 1;
        }
        None
    }

    /// Whether an account with the id `id` is stored.
    pub fn contains_id(&self, id: u128) -> (r: bool)
        ensures
            r == account_id_taken(self.accounts(), id),
    {
        self.find_id(id).is_some()
    }

    /// Stores a new account under the given id, password hash and time; see
    /// `signup_outcome`.
    pub fn create_account_with(
        &mut self,
        new_account: NewAccount,
        id: u128,
        password_hash: String,
        now: i128,
    ) -> (r: Result<AccountDTO, Error>)
        requires
            old(self).wf(),
        ensures
            final(self).wf(),
            final(self).sessions() == old(self).sessions(),
            final(self).session_lifetime() == old(self).session_lifetime(),
            match signup_outcome(old(self).accounts(), new_account, id, password_hash, now) {
                Ok(row) => {
                    &&& r == Ok::<AccountDTO, Error>(dto_of(row))
                    &&& final(self).accounts() == old(self).accounts().push(row)
                },
                Err(e) => {
                    &&& r == Err::<AccountDTO, Error>(e)
                    &&& final(self).accounts() == old(self).accounts()
                },
            },
    {
        let row = AccountWithPasswordHashDTO {
            id,
            email: new_account.email,
            name: new_account.name,
            password_hash,
            inserted_at: now,
            updated_at: now,
        };
        let dto = row.to_dto();
        self.restore_account(row)?;
        Ok(dto)
    }

    /// Stores an account row as it is, such as one read back from disk: a
    /// registered email is a `Conflict`, an id in use an internal error.
    pub fn restore_account(&mut self, row: AccountWithPasswordHashDTO) -> (r: Result<(), Error>)
        requires
            old(self).wf(),
        ensures
            final(self).wf(),
            final(self).sessions() == old(self).sessions(),
            final(self).session_lifetime() == old(self).session_lifetime(),
            r == if lookup_email(old(self).accounts(), row.email@) is Some {
                Err::<(), Error>(Error::Conflict)
            } else if account_id_taken(old(self).accounts(), row.id) {
                Err(Error::Internal)
            } else {
                Ok(())
            },
            r is Ok ==> final(self).accounts() == old(self).accounts().push(row),
            r is Err ==> final(self).accounts() == old(self).accounts(),
    {
        if self.find_email(&row.email).is_some() {
            return Err(Error::Conflict);
        }
        if self.contains_id(row.id) {
            return Err(Error::Internal);
        }
        let ghost old_accounts = self.accounts@;
        let ghost old_ids = self.account_sessions.account_ids();
        proof {
            lemma_lookup(old_accounts, row.email@);
        }
        let id = row.id;
        self.accounts.push(row);
        self.account_sessions.register_account(id);
        proof {
            let accounts = self.accounts@;
            assert forall|i: int, j: int| 0 <= i < j < accounts.len() implies {
                &&& (#[trigger] accounts[i]).email@ != (#[trigger] accounts[j]).email@
                &&& accounts[i].id != accounts[j].id
            } by {
                if j == old_accounts.len() {
                    assert(accounts[i] == old_accounts[i]);
                } else {
                    assert(accounts[i] == old_accounts[i] && accounts[j] == old_accounts[j]);
                }
            }
            assert(!old_ids.contains(id));
            let ids = self.account_sessions.account_ids();
            assert forall|x: u128| #[trigger] ids.contains(x) == account_id_taken(accounts, x) by {
                if account_id_taken(old_accounts, x) {
                    let i = choose|i: int| 0 <= i < old_accounts.len() && old_accounts[i].id == x;
                    assert(accounts[i] == old_accounts[i]);
                }
                if account_id_taken(accounts, x) && x != id {
                    let i = choose|i: int| 0 <= i < accounts.len() && accounts[i].id == x;
                    assert(i < old_accounts.len());
                    assert(accounts[i] == old_accounts[i]);
                }
                if x == id {
                    assert(accounts[old_accounts.len() as int].id == id);
                    assert(ids[old_ids.len() as int] == id);
                }
                if ids.contains(x) && x != id {
                    let j = choose|j: int| 0 <= j < ids.len() && ids[j] == x;
                    assert(j < old_ids.len());
                    assert(old_ids[j] == x);
                }
                if old_ids.contains(x) {
                    let j = choose|j: int| 0 <= j < old_ids.len() && old_ids[j] == x;
                    assert(ids[j] == x);
                }
            }
        }
        Ok(())
    }

    /// Logs in, issuing a session under the id `session_id` at time `now`; see
    /// `login_outcome`.
    pub fn login_account_with(
        &mut self,
        credentials: LoginCredentials,
        session_id: u128,
        now: i128,
    ) -> (r: Result<AccountWithAccountSessionDTO, Error>)
        requires
            old(self).wf(),
        ensures
            final(self).wf(),
            final(self).accounts() == old(self).accounts(),
            final(self).session_lifetime() == old(self).session_lifetime(),
            match login_outcome(
                old(self).accounts(),
                old(self).sessions(),
                old(self).session_lifetime(),
                credentials.email@,
                credentials.password@,
                session_id,
                now,
            ) {
                Ok((row, s)) => {
                    &&& r == Ok::<AccountWithAccountSessionDTO, Error>(joined(row, s))
                    &&& final(self).sessions() == old(self).sessions().push(s)
                },
                Err(e) => {
                    &&& r == Err::<AccountWithAccountSessionDTO, Error>(e)
                    &&& final(self).sessions() == old(self).sessions()
                },
            },
    {
        let idx = match self.find_email(&credentials.email) {
            None => return Err(Error::Unauthorized),
            Some(i) => i,
        };
        let row = self.accounts[idx].cloned();
        verify_password(credentials.password.as_str(), row.password_hash.as_str())?;
        assert(self.accounts()[idx as int].id == row.id);
        let session = self.issue_account_session_with(row.id, session_id, now)?;
        Ok(account_with_session(&row, &session))
    }

    /// Issues a session for the account `account_id` under the id `session_id`
    /// at time `now`; see `session_issue_outcome`.
    pub fn issue_account_session_with(&mut self, account_id: u128, session_id: u128, now: i128) -> (r:
        Result<AccountSessionDTO, Error>)
        requires
            old(self).wf(),
        ensures
            final(self).wf(),
            final(self).accounts() == old(self).accounts(),
            final(self).session_lifetime() == old(self).session_lifetime(),
            r == session_issue_outcome(
                old(self).accounts(),
                old(self).sessions(),
                old(self).session_lifetime(),
                account_id,
                session_id,
                now,
            ),
            match r {
                Ok(s) => final(self).sessions() == old(self).sessions().push(s),
                Err(_) => final(self).sessions() == old(self).sessions(),
            },
    {
        if !self.contains_id(account_id) {
            return Err(Error::NotFound);
        }
        if now > i128::MAX - (self.session_lifetime as i128) {
            return Err(Error::Internal);
        }
        let create = AccountSessionCreate {
            account_id,
            expires_at: now + self.session_lifetime as i128,
        };
        assert(self.account_sessions.account_ids().contains(account_id));
        self.account_sessions.create_account_session_with(create, session_id, now)
    }

    /// Issues a session for the account `account_id` under a fresh random id,
    /// stamped with the current time. A session is never issued for an account
    /// that is not stored.
    pub fn issue_account_session(&mut self, account_id: u128) -> (r: Result<AccountSessionDTO, Error>)
        requires
            old(self).wf(),
        ensures
            final(self).wf(),
            final(self).accounts() == old(self).accounts(),
            final(self).session_lifetime() == old(self).session_lifetime(),
            account_id_taken(old(self).accounts(), account_id) && old(self).sessions().len() == 0 ==> r is Ok,
            match r {
                Ok(s) => {
                    &&& final(self).sessions() == old(self).sessions().push(s)
                    &&& account_id_taken(old(self).accounts(), account_id)
                    &&& !session_id_taken(old(self).sessions(), s.id)
                    &&& s.account_id == account_id
                    &&& s.active == 1
                    &&& s.inserted_at == s.updated_at
                    &&& s.expires_at == s.inserted_at + old(self).session_lifetime()
                },
                Err(e) => {
                    &&& final(self).sessions() == old(self).sessions()
                    &&& (e == Error::NotFound) == !account_id_taken(old(self).accounts(), account_id)
                    &&& e == Error::NotFound || (e == Error::Internal && old(self).sessions().len() > 0)
                },
            },
    {
        let session_id = new_uuid();
        let now = now_utc();
        self.issue_account_session_with(account_id, session_id, now)
    }

    /// Stores a session row as it is, such as one read back from disk: its
    /// account must be stored (`NotFound` otherwise) and its id fresh
    /// (`Internal` otherwise).
    pub fn restore_account_session(&mut self, row: AccountSessionDTO) -> (r: Result<(), Error>)
        requires
            old(self).wf(),
        ensures
            final(self).wf(),
            final(self).accounts() == old(self).accounts(),
            final(self).session_lifetime() == old(self).session_lifetime(),
            r == if !account_id_taken(old(self).accounts(), row.account_id) {
                Err::<(), Error>(Error::NotFound)
            } else if session_id_taken(old(self).sessions(), row.id) {
                Err(Error::Internal)
            } else {
                Ok(())
            },
            r is Ok ==> final(self).sessions() == old(self).sessions().push(row),
            r is Err ==> final(self).sessions() == old(self).sessions(),
    {
        assert(self.account_sessions.account_ids().contains(row.account_id) == account_id_taken(
            self.accounts(),
            row.account_id,
        ));
        self.account_sessions.insert_account_session(row)
    }

    /// Removes the account with the id `id`, such as one whose write to disk
    /// failed. An account that has sessions stays (`Conflict`), so that every
    /// session keeps its account; an unknown id is `NotFound`.
    pub fn remove_account(&mut self, id: u128) -> (r: Result<AccountWithPasswordHashDTO, Error>)
        requires
            old(self).wf(),
        ensures
            final(self).wf(),
            final(self).sessions() == old(self).sessions(),
            final(self).session_lifetime() == old(self).session_lifetime(),
            !account_id_taken(old(self).accounts(), id) ==> r == Err::<AccountWithPasswordHashDTO, Error>(
                Error::NotFound,
            ),
            account_id_taken(old(self).accounts(), id) && (exists|k: int|
                0 <= k < old(self).sessions().len() && #[trigger] old(self).sessions()[k].account_id == id)
                ==> r == Err::<AccountWithPasswordHashDTO, Error>(Error::Conflict),
            r is Err ==> final(self).accounts() == old(self).accounts(),
            r matches Ok(row) ==> row.id == id && exists|i: int|
                0 <= i < old(self).accounts().len() && old(self).accounts()[i] == row
                    && final(self).accounts() == old(self).accounts().remove(i),
            account_id_taken(old(self).accounts(), id) && !(exists|k: int|
                0 <= k < old(self).sessions().len() && #[trigger] old(self).sessions()[k].account_id == id)
                ==> r is Ok,
    {
        let i = match self.find_id(id) {
            Some(i) => i,
            None => return Err(Error::NotFound),
        };
        if self.account_sessions.references_account(id) {
            assert(self.account_sessions.sessions() == self.sessions());
            return Err(Error::Conflict);
        }
        let ghost old_accounts = self.accounts@;
        let ghost old_ids = self.account_sessions.account_ids();
        let row = self.accounts.remove(i);
        self.account_sessions.unregister_account(id);
        proof {
            let accounts = self.accounts@;
            assert forall|a: int, b: int| 0 <= a < b < accounts.len() implies {
                &&& (#[trigger] accounts[a]).email@ != (#[trigger] accounts[b]).email@
                &&& accounts[a].id != accounts[b].id
            } by {
                let a2 = if a < i { a } else { a + 1 };
                let b2 = if b < i { b } else { b + 1 };
                assert(accounts[a] == old_accounts[a2]);
                assert(accounts[b] == old_accounts[b2]);
            }
            let ids = self.account_sessions.account_ids();
            assert forall|x: u128| #[trigger] ids.contains(x) == account_id_taken(accounts, x) by {
                if x != id {
                    if account_id_taken(old_accounts, x) {
                        let j = choose|j: int| 0 <= j < old_accounts.len() && old_accounts[j].id == x;
                        assert(j != i);
                        let j2 = if j < i { j } else { j - 1 };
                        assert(accounts[j2] == old_accounts[j]);
                    }
                    if account_id_taken(accounts, x) {
                        let j = choose|j: int| 0 <= j < accounts.len() && accounts[j].id == x;
                        let j2 = if j < i { j } else { j + 1 };
                        assert(accounts[j] == old_accounts[j2]);
                    }
                } else {
                    if account_id_taken(accounts, x) {
                        let j = choose|j: int| 0 <= j < accounts.len() && accounts[j].id == x;
                        let j2 = if j < i { j } else { j + 1 };
                        assert(accounts[j] == old_accounts[j2]);
                        assert(old_accounts[i as int].id == x);
                    }
                }
            }
        }
        Ok(row)
    }

    /// Finishes a login whose password check ran elsewhere: `verified` is the
    /// result of `verify_password` for `row`. A failed check is returned as it
    /// is and issues nothing; a passed one issues a session for `row`'s account
    /// as `issue_account_session` does and joins it to the row.
    pub fn complete_login(&mut self, row: &AccountWithPasswordHashDTO, verified: Result<(), Error>) -> (r:
        Result<AccountWithAccountSessionDTO, Error>)
        requires
            old(self).wf(),
        ensures
            final(self).wf(),
            final(self).accounts() == old(self).accounts(),
            final(self).session_lifetime() == old(self).session_lifetime(),
            verified matches Err(e) ==> r == Err::<AccountWithAccountSessionDTO, Error>(e),
            r is Err ==> final(self).sessions() == old(self).sessions(),
            verified is Ok && account_id_taken(old(self).accounts(), row.id) && old(self).sessions().len()
                == 0 ==> r is Ok,
            r matches Ok(dto) ==> {
                let s = final(self).sessions().last();
                &&& verified is Ok
                &&& final(self).sessions() == old(self).sessions().push(s)
                &&& dto == joined(*row, s)
                &&& !session_id_taken(old(self).sessions(), s.id)
                &&& s.account_id == row.id
                &&& s.active == 1
                &&& s.inserted_at == s.updated_at
                &&& s.expires_at == s.inserted_at + old(self).session_lifetime()
            },
            verified is Ok && !account_id_taken(old(self).accounts(), row.id) ==> r
                == Err::<AccountWithAccountSessionDTO, Error>(Error::NotFound),
    {
        verified?;
        let session = self.issue_account_session(row.id)?;
        Ok(account_with_session(row, &session))
    }

    /// The row to log in against: the account registered under `email`, or
    /// `Unauthorized`, so that an unknown email reads like a wrong password.
    pub fn login_lookup(&self, email: String) -> (r: Result<AccountWithPasswordHashDTO, Error>)
        ensures
            r == match lookup_email(self.accounts(), email@) {
                Some(row) => Ok(row),
                None => Err(Error::Unauthorized),
            },
    {
        match self.find_email(&email) {
            Some(i) => Ok(self.accounts[i].cloned()),
            None => Err(Error::Unauthorized),
        }
    }

    /// Stores a new account with an already computed password hash, under a
    /// fresh random id, stamped with the current time. A registered email is
    /// a `Conflict`, and only that.
    pub fn create_account_with_hash(&mut self, new_account: NewAccount, password_hash: String) -> (r:
        Result<AccountDTO, Error>)
        requires
            old(self).wf(),
        ensures
            final(self).wf(),
            final(self).sessions() == old(self).sessions(),
            final(self).session_lifetime() == old(self).session_lifetime(),
            (r == Err::<AccountDTO, Error>(Error::Conflict)) == (lookup_email(
                old(self).accounts(),
                new_account.email@,
            ) is Some),
            old(self).accounts().len() == 0 ==> r is Ok,
            match r {
                Ok(dto) => {
                    let row = final(self).accounts().last();
                    &&& final(self).accounts() == old(self).accounts().push(row)
                    &&& dto == dto_of(row)
                    &&& row.name == new_account.name
                    &&& row.email == new_account.email
                    &&& row.password_hash == password_hash
                    &&& row.inserted_at == row.updated_at
                    &&& !account_id_taken(old(self).accounts(), row.id)
                },
                Err(e) => {
                    &&& e == Error::Conflict || e == Error::Internal
                    &&& final(self).accounts() == old(self).accounts()
                },
            },
    {
        let id = new_uuid();
        let now = now_utc();
        self.create_account_with(new_account, id, password_hash, now)
    }
}

/// The outward representation of an account joined with a session issued
/// for it.
pub fn account_with_session(row: &AccountWithPasswordHashDTO, session: &AccountSessionDTO) -> (r:
    AccountWithAccountSessionDTO)
    ensures
        r == joined(*row, *session),
{
    AccountWithAccountSessionDTO {
        id: row.id,
        email: row.email.clone(),
        name: row.name.clone(),
        account_session_id: session.id,
        inserted_at: row.inserted_at,
        updated_at: row.updated_at,
    }
}

impl AccountCtrlTrait for AccountController {
    open spec fn registered(&self) -> Seq<AccountWithPasswordHashDTO> {
        self.accounts()
    }

    open spec fn issued(&self) -> Seq<AccountSessionDTO> {
        self.sessions()
    }

    open spec fn lifetime(&self) -> u64 {
        self.session_lifetime()
    }

    open spec fn well_formed(&self) -> bool {
        self.wf()
    }

    fn create_account(&mut self, new_account: NewAccount) -> (r: Result<AccountDTO, Error>) {
        if self.find_email(&new_account.email).is_some() {
            return Err(Error::Conflict);
        }
        let password_hash = hash_password(new_account.password.as_str())?;
        self.create_account_with_hash(new_account, password_hash)
    }

    fn login_account(&mut self, credentials: LoginCredentials) -> (r: Result<
        AccountWithAccountSessionDTO,
        Error,
    >) {
        let session_id = new_uuid();
        let now = now_utc();
        proof {
            lemma_lookup(self.accounts(), credentials.email@);
            if let Some(row) = lookup_email(self.accounts(), credentials.email@) {
                let i = choose|i: int| 0 <= i < self.accounts().len() && self.accounts()[i] == row;
                assert(self.accounts()[i].id == row.id);
            }
        }
        self.login_account_with(credentials, session_id, now)
    }

    fn get_account_by_email(&self, email: String) -> (r: Result<AccountWithPasswordHashDTO, Error>) {
        match self.find_email(&email) {
            Some(i) => Ok(self.accounts[i].cloned()),
            None => Err(Error::NotFound),
        }
    }
}

} // verus!
