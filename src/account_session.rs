use crate::clock::{new_uuid, now_utc};
use crate::error::Error;
use vstd::prelude::*;

verus! {

/// A stored session row. Ids are 128-bit UUID values; times are nanoseconds
/// since the Unix epoch.
#[derive(Clone, Copy, Debug, PartialEq, Eq, Structural)]
pub struct AccountSessionDTO {
    pub id: u128,
    pub account_id: u128,
    pub expires_at: i128,
    pub active: i64,
    pub inserted_at: i128,
    pub updated_at: i128,
}

/// A request to issue a session for an account.
#[derive(Clone, Copy, Debug, PartialEq, Eq, Structural)]
pub struct AccountSessionCreate {
    pub account_id: u128,
    pub expires_at: i128,
}

/// A request to remove a session.
#[derive(Clone, Copy, Debug, PartialEq, Eq, Structural)]
pub struct AccountSessionDelete {
    pub id: u128,
}

/// Whether some session in `sessions` has the id `id`.
pub open spec fn session_id_taken(sessions: Seq<AccountSessionDTO>, id: u128) -> bool {
    exists|i: int| 0 <= i < sessions.len() && #[trigger] sessions[i].id == id
}

/// Session ids are unique.
pub open spec fn session_ids_unique(sessions: Seq<AccountSessionDTO>) -> bool {
    forall|i: int, j: int|
        0 <= i < j < sessions.len() ==> #[trigger] sessions[i].id != #[trigger] sessions[j].id
}

/// The row that issuing `create` under the id `id` at time `now` stores: active,
/// created and updated at `now`.
pub open spec fn session_row(create: AccountSessionCreate, id: u128, now: i128) -> AccountSessionDTO {
    AccountSessionDTO {
        id,
        account_id: create.account_id,
        expires_at: create.expires_at,
        active: 1,
        inserted_at: now,
        updated_at: now,
    }
}

/// Every session belongs to an account in `account_ids`.
pub open spec fn sessions_belong(sessions: Seq<AccountSessionDTO>, account_ids: Seq<u128>) -> bool {
    forall|k: int| 0 <= k < sessions.len() ==> account_ids.contains(#[trigger] sessions[k].account_id)
}

/// What issuing a session for a known account does: the id must not be in
/// use, as the table's primary key demands; a clash is an internal error.
pub open spec fn issue_outcome(
    sessions: Seq<AccountSessionDTO>,
    create: AccountSessionCreate,
    id: u128,
    now: i128,
) -> Result<AccountSessionDTO, Error> {
    if session_id_taken(sessions, id) {
        Err(Error::Internal)
    } else {
        Ok(session_row(create, id, now))
    }
}

/// The interface through which sessions are issued.
pub trait AccountSessionCtrlTrait {
    /// The sessions issued so far, oldest first.
    spec fn issued(&self) -> Seq<AccountSessionDTO>;

    /// The ids of the accounts that sessions may be issued for.
    spec fn known_accounts(&self) -> Seq<u128>;

    /// The table's constraints hold.
    spec fn ready(&self) -> bool;

    /// Issues a session for a known account under a fresh random id, stamped
    /// with the current time. An unknown account is `NotFound`.
    fn create_account_session(&mut self, account_session_create: AccountSessionCreate) -> (r:
        Result<AccountSessionDTO, Error>)
        requires
            old(self).ready(),
        ensures
            final(self).ready(),
            final(self).known_accounts() == old(self).known_accounts(),
            old(self).known_accounts().contains(account_session_create.account_id) && old(
                self,
            ).issued().len() == 0 ==> r is Ok,
            match r {
                Ok(s) => {
                    &&& old(self).known_accounts().contains(s.account_id)
                    &&& s.account_id == account_session_create.account_id
                    &&& s.expires_at == account_session_create.expires_at
                    &&& s.active == 1
                    &&& s.inserted_at == s.updated_at
                    &&& !session_id_taken(old(self).issued(), s.id)
                    &&& final(self).issued() == old(self).issued().push(s)
                },
                Err(e) => {
                    &&& (e == Error::NotFound) == !old(self).known_accounts().contains(
                        account_session_create.account_id,
                    )
                    &&& e == Error::NotFound || e == Error::Internal
                    &&& final(self).issued() == old(self).issued()
                },
            },
    ;
}

/// The session table, with the ids of the accounts that its sessions may
/// belong to.
pub struct AccountSessionController {
    sessions: Vec<AccountSessionDTO>,
    account_ids: Vec<u128>,
}

impl AccountSessionController {
    /// The stored sessions, oldest first.
    pub closed spec fn sessions(&self) -> Seq<AccountSessionDTO> {
        self.sessions@
    }

    /// The ids of the accounts that sessions may be issued for.
    pub closed spec fn account_ids(&self) -> Seq<u128> {
        self.account_ids@
    }

    /// Unique session ids, unique account ids, and every session belongs to a
    /// known account.
    pub open spec fn wf(&self) -> bool {
        &&& session_ids_unique(self.sessions())
        &&& self.account_ids().no_duplicates()
        &&& sessions_belong(self.sessions(), self.account_ids())
    }

    /// An empty session table that knows no account.
    pub fn new() -> (r: Self)
        ensures
            r.wf(),
            r.sessions() == Seq::<AccountSessionDTO>::empty(),
            r.account_ids() == Seq::<u128>::empty(),
    {
        AccountSessionController { sessions: Vec::new(), account_ids: Vec::new() }
    }

    /// The number of stored sessions.
    pub fn len(&self) -> (r: usize)
        ensures
            r == self.sessions().len(),
    {
        self.sessions.len()
    }

    /// The position of `account_id` among the known accounts.
    fn position_of_account(&self, account_id: u128) -> (r: Option<usize>)
        ensures
            r is None == !self.account_ids().contains(account_id),
            r matches Some(i) ==> i < self.account_ids().len() && self.account_ids()[i as int] == account_id,
    {
        let mut i: usize = 0;
        while i < self.account_ids.len()
            invariant
                0 <= i <= self.account_ids@.len(),
                forall|k: int| 0 <= k < i ==> self.account_ids@[k] != account_id,
            decreases self.account_ids@.len() - i,
        {
            if self.account_ids[i] == account_id {
                return Some(i);
            }
            i = i + 1;
        }
        None
    }

    /// The position of the session with the id `id`.
    fn position_of_session(&self, id: u128) -> (r: Option<usize>)
        ensures
            r is None == !session_id_taken(self.sessions(), id),
            r matches Some(i) ==> i < self.sessions().len() && self.sessions()[i as int].id == id,
    {
        let mut i: usize = 0;
        while i < self.sessions.len()
            invariant
                0 <= i <= self.sessions@.len(),
                forall|k: int| 0 <= k < i ==> self.sessions@[k].id != id,
            decreases self.sessions@.len() - i,
        {
            if self.sessions[i].id == id {
                return Some(i);
            }
            i = i + 1;
        }
        None
    }

    /// Whether sessions may be issued for the account `account_id`.
    pub fn knows_account(&self, account_id: u128) -> (r: bool)
        ensures
            r == self.account_ids().contains(account_id),
    {
        self.position_of_account(account_id).is_some()
    }

    /// Makes the account `account_id` known, so that sessions can be issued
    /// for it. The account service registers each account it stores.
    pub fn register_account(&mut self, account_id: u128)
        requires
            old(self).wf(),
        ensures
            final(self).wf(),
            final(self).sessions() == old(self).sessions(),
            final(self).account_ids() == if old(self).account_ids().contains(account_id) {
                old(self).account_ids()
            } else {
                old(self).account_ids().push(account_id)
            },
    {
        if self.knows_account(account_id) {
            return;
        }
        let ghost old_ids = self.account_ids@;
        self.account_ids.push(account_id);
        proof {
            let ids = self.account_ids@;
            assert forall|a: int, b: int| 0 <= a < ids.len() && 0 <= b < ids.len() && a != b implies ids[a]
                != ids[b] by {
                if a < old_ids.len() && b < old_ids.len() {
                    assert(ids[a] == old_ids[a] && ids[b] == old_ids[b]);
                } else if a < old_ids.len() {
                    assert(ids[a] == old_ids[a]);
                    assert(old_ids.contains(ids[a]));
                } else {
                    assert(ids[b] == old_ids[b]);
                    assert(old_ids.contains(ids[b]));
                }
            }
            let sessions = self.sessions@;
            assert forall|k: int| 0 <= k < sessions.len() implies ids.contains(#[trigger] sessions[k].account_id) by {
                let j = choose|j: int| 0 <= j < old_ids.len() && old_ids[j] == sessions[k].account_id;
                assert(ids[j] == old_ids[j]);
            }
        }
    }

    /// Forgets the account `account_id`, which no session belongs to.
    pub(crate) fn unregister_account(&mut self, account_id: u128)
        requires
            old(self).wf(),
            forall|k: int| 0 <= k < old(self).sessions().len() ==> #[trigger] old(self).sessions()[k].account_id
                != account_id,
        ensures
            final(self).wf(),
            final(self).sessions() == old(self).sessions(),
            !final(self).account_ids().contains(account_id),
            forall|x: u128| x != account_id ==> (#[trigger] final(self).account_ids().contains(x)
                == old(self).account_ids().contains(x)),
    {
        let i = match self.position_of_account(account_id) {
            Some(i) => i,
            None => return,
        };
        let ghost old_ids = self.account_ids@;
        self.account_ids.remove(i);
        proof {
            let ids = self.account_ids@;
            assert forall|a: int, b: int| 0 <= a < ids.len() && 0 <= b < ids.len() && a != b
                implies ids[a] != ids[b] by {
                let a2 = if a < i { a } else { a + 1 };
                let b2 = if b < i { b } else { b + 1 };
                assert(ids[a] == old_ids[a2] && ids[b] == old_ids[b2]);
            }
            assert forall|x: u128| x != account_id implies (#[trigger] ids.contains(x)
                == old_ids.contains(x)) by {
                if old_ids.contains(x) {
                    let j = choose|j: int| 0 <= j < old_ids.len() && old_ids[j] == x;
                    assert(j != i);
                    let j2 = if j < i { j } else { j - 1 };
                    assert(ids[j2] == x);
                }
                if ids.contains(x) {
                    let j = choose|j: int| 0 <= j < ids.len() && ids[j] == x;
                    let j2 = if j < i { j } else { j + 1 };
                    assert(old_ids[j2] == x);
                }
            }
            assert(!ids.contains(account_id)) by {
                if ids.contains(account_id) {
                    let j = choose|j: int| 0 <= j < ids.len() && ids[j] == account_id;
                    let j2 = if j < i { j } else { j + 1 };
                    assert(old_ids[j2] == account_id && old_ids[i as int] == account_id);
                }
            }
            let sessions = self.sessions@;
            assert forall|k: int| 0 <= k < sessions.len() implies ids.contains(
                #[trigger] sessions[k].account_id,
            ) by {
                assert(old_ids.contains(sessions[k].account_id));
            }
        }
    }

    /// Whether a session with the id `id` is stored.
    pub fn contains_id(&self, id: u128) -> (r: bool)
        ensures
            r == session_id_taken(self.sessions(), id),
    {
        self.position_of_session(id).is_some()
    }

    /// The stored session with the id `id`, if any.
    pub fn get_account_session(&self, id: u128) -> (r: Option<AccountSessionDTO>)
        ensures
            r is Some == session_id_taken(self.sessions(), id),
            r matches Some(s) ==> s.id == id && self.sessions().contains(s),
    {
        let mut i: usize = 0;
        while i < self.sessions.len()
            invariant
                0 <= i <= self.sessions@.len(),
                forall|k: int| 0 <= k < i ==> self.sessions@[k].id != id,
            decreases self.sessions@.len() - i,
        {
            if self.sessions[i].id == id {
                return Some(self.sessions[i]);
            }
            i = i + 1;
        }
        None
    }

    /// Whether some stored session belongs to the account `account_id`.
    pub fn references_account(&self, account_id: u128) -> (r: bool)
        ensures
            r == exists|k: int| 0 <= k < self.sessions().len() && #[trigger] self.sessions()[k].account_id == account_id,
    {
        let mut i: usize = 0;
        while i < self.sessions.len()
            invariant
                0 <= i <= self.sessions@.len(),
                forall|k: int| 0 <= k < i ==> self.sessions@[k].account_id != account_id,
            decreases self.sessions@.len() - i,
        {
            if self.sessions[i].account_id == account_id {
                assert(self.sessions()[i as int].account_id == account_id);
                return true;
            }
            i = i + 1;
        }
        false
    }

    /// Stores a session row as it is, such as one read back from disk. Its
    /// account must be known (`NotFound` otherwise) and its id fresh
    /// (`Internal` otherwise); on failure nothing is stored.
    pub fn insert_account_session(&mut self, row: AccountSessionDTO) -> (r: Result<(), Error>)
        requires
            old(self).wf(),
        ensures
            final(self).wf(),
            final(self).account_ids() == old(self).account_ids(),
            r == if !old(self).account_ids().contains(row.account_id) {
                Err::<(), Error>(Error::NotFound)
            } else if session_id_taken(old(self).sessions(), row.id) {
                Err(Error::Internal)
            } else {
                Ok(())
            },
            r is Ok ==> final(self).sessions() == old(self).sessions().push(row),
            r is Err ==> final(self).sessions() == old(self).sessions(),
    {
        if !self.knows_account(row.account_id) {
            return Err(Error::NotFound);
        }
        if self.contains_id(row.id) {
            return Err(Error::Internal);
        }
        let ghost old_sessions = self.sessions@;
        self.sessions.push(row);
        proof {
            let sessions = self.sessions@;
            assert forall|k: int| 0 <= k < sessions.len() implies self.account_ids@.contains(
                #[trigger] sessions[k].account_id,
            ) by {
                if k < old_sessions.len() {
                    assert(sessions[k] == old_sessions[k]);
                }
            }
        }
        Ok(())
    }

    /// Removes the session with the id `id`, such as one whose write to disk
    /// failed; `NotFound` when there is none.
    pub fn remove_account_session(&mut self, id: u128) -> (r: Result<AccountSessionDTO, Error>)
        requires
            old(self).wf(),
        ensures
            final(self).wf(),
            final(self).account_ids() == old(self).account_ids(),
            (r is Err) == !session_id_taken(old(self).sessions(), id),
            r is Err ==> r == Err::<AccountSessionDTO, Error>(Error::NotFound) && final(self).sessions()
                == old(self).sessions(),
            r matches Ok(s) ==> s.id == id && exists|i: int|
                0 <= i < old(self).sessions().len() && old(self).sessions()[i] == s
                    && final(self).sessions() == old(self).sessions().remove(i),
    {
        let i = match self.position_of_session(id) {
            Some(i) => i,
            None => return Err(Error::NotFound),
        };
        let ghost old_sessions = self.sessions@;
        let s = self.sessions.remove(i);
        proof {
            let sessions = self.sessions@;
            assert forall|a: int, b: int| 0 <= a < b < sessions.len() implies #[trigger] sessions[a].id
                != #[trigger] sessions[b].id by {
                let a2 = if a < i { a } else { a + 1 };
                let b2 = if b < i { b } else { b + 1 };
                assert(sessions[a] == old_sessions[a2] && sessions[b] == old_sessions[b2]);
            }
            assert forall|k: int| 0 <= k < sessions.len() implies self.account_ids@.contains(
                #[trigger] sessions[k].account_id,
            ) by {
                let k2 = if k < i { k } else { k + 1 };
                assert(sessions[k] == old_sessions[k2]);
            }
        }
        Ok(s)
    }

    /// Issues a session under the given id and time: an unknown account is
    /// `NotFound`; otherwise see `issue_outcome`.
    pub fn create_account_session_with(
        &mut self,
        account_session_create: AccountSessionCreate,
        id: u128,
        now: i128,
    ) -> (r: Result<AccountSessionDTO, Error>)
        requires
            old(self).wf(),
        ensures
            final(self).wf(),
            final(self).account_ids() == old(self).account_ids(),
            r == if !old(self).account_ids().contains(account_session_create.account_id) {
                Err(Error::NotFound)
            } else {
                issue_outcome(old(self).sessions(), account_session_create, id, now)
            },
            match r {
                Ok(s) => final(self).sessions() == old(self).sessions().push(s),
                Err(_) => final(self).sessions() == old(self).sessions(),
            },
    {
        let row = AccountSessionDTO {
            id,
            account_id: account_session_create.account_id,
            expires_at: account_session_create.expires_at,
            active: 1,
            inserted_at: now,
            updated_at: now,
        };
        self.insert_account_session(row)?;
        Ok(row)
    }
}

impl AccountSessionCtrlTrait for AccountSessionController {
    open spec fn issued(&self) -> Seq<AccountSessionDTO> {
        self.sessions()
    }

    open spec fn known_accounts(&self) -> Seq<u128> {
        self.account_ids()
    }

    open spec fn ready(&self) -> bool {
        self.wf()
    }

    fn create_account_session(&mut self, account_session_create: AccountSessionCreate) -> (r:
        Result<AccountSessionDTO, Error>) {
        let id = new_uuid();
        let now = now_utc();
        self.create_account_session_with(account_session_create, id, now)
    }
}

} // verus!
