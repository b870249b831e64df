use crate::account::{AccountController, AccountCtrlTrait};
use crate::account_session::AccountSessionController;
use vstd::prelude::*;

verus! {

/// The composition root: hands out the services that request handlers use.
pub trait StoreTrait {
    /// The account service that the store holds.
    spec fn account_service(&self) -> AccountController;

    /// The account service, to run sign-up, login and lookups on.
    fn account(&mut self) -> (r: &mut AccountController)
        ensures
            *r == old(self).account_service(),
            final(self).account_service() == *final(r),
    ;

    /// The session issuer of the account service, which writes into the
    /// store's session table.
    fn account_session(&mut self) -> (r: &mut AccountSessionController)
        ensures
            *r == old(self).account_service().session_table(),
            final(self).account_service().session_table() == *final(r),
            final(self).account_service().accounts() == old(self).account_service().accounts(),
            final(self).account_service().session_lifetime() == old(
                self,
            ).account_service().session_lifetime(),
    ;
}

/// The tables of accounts and sessions, wired into the services that use them.
pub struct Store {
    account: AccountController,
}

impl Store {
    /// An empty store whose sessions expire as soon as they are issued.
    pub fn new() -> (r: Self)
        ensures
            r.account_service().wf(),
            r.account_service().accounts().len() == 0,
            r.account_service().sessions().len() == 0,
            r.account_service().session_lifetime() == 0,
    {
        Self::with_session_lifetime(0)
    }

    /// An empty store whose sessions expire `session_lifetime` nanoseconds
    /// after login.
    pub fn with_session_lifetime(session_lifetime: u64) -> (r: Self)
        ensures
            r.account_service().wf(),
            r.account_service().accounts().len() == 0,
            r.account_service().sessions().len() == 0,
            r.account_service().session_lifetime() == session_lifetime,
    {
        Store { account: AccountController::with_session_lifetime(session_lifetime) }
    }
}

impl StoreTrait for Store {
    closed spec fn account_service(&self) -> AccountController {
        self.account
    }

    fn account(&mut self) -> (r: &mut AccountController) {
        &mut self.account
    }

    fn account_session(&mut self) -> (r: &mut AccountSessionController) {
        self.account.session_table_mut()
    }
}

} // verus!
