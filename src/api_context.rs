use crate::config::Config;
use crate::store::{Store, StoreTrait};
use vstd::prelude::*;

verus! {

/// The state that request handlers share: the configuration and the store.
pub struct ApiContext {
    pub config: Config,
    pub store: Store,
}

impl ApiContext {
    /// A context over an empty store whose sessions expire
    /// `session_lifetime` nanoseconds after login.
    pub fn new(config: Config, session_lifetime: u64) -> (r: Self)
        ensures
            r.config == config,
            r.store.account_service().wf(),
            r.store.account_service().accounts().len() == 0,
            r.store.account_service().sessions().len() == 0,
            r.store.account_service().session_lifetime() == session_lifetime,
    {
        ApiContext { config, store: Store::with_session_lifetime(session_lifetime) }
    }
}

} // verus!
