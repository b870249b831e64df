//! Account sign-up and login: credential hashing, an account and session
//! repository with its schema constraints, and the account service that
//! composes them.
mod clock;

pub mod account;
pub mod account_session;
pub mod api_context;
pub mod config;
pub mod error;
pub mod hasher;
pub mod store;

pub use account::{
    AccountController, AccountCtrlTrait, AccountDTO, AccountWithAccountSessionDTO,
    AccountWithPasswordHashDTO, LoginCredentials, NewAccount,
};
pub use account_session::{
    AccountSessionController, AccountSessionCreate, AccountSessionCtrlTrait, AccountSessionDTO,
    AccountSessionDelete,
};
pub use api_context::ApiContext;
pub use config::Config;
pub use error::Error;
pub use store::{Store, StoreTrait};
