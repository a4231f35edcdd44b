use vstd::prelude::*;

use crate::domain::data_stores::{BannedTokenStore, TwoFACodeStore, UserStore};
use crate::domain::email_client::EmailClient;
use crate::utils::constants::TokenConfig;

verus! {

/// What the handlers work on: the three stores, the notifier and the token
/// configuration. Whoever holds it exclusively runs one handler at a time.
pub struct AppState<U: UserStore, B: BannedTokenStore, T: TwoFACodeStore, E: EmailClient> {
    pub user_store: U,
    pub banned_token_store: B,
    pub two_fa_code_store: T,
    pub email_client: E,
    pub token_config: TokenConfig,
}

impl<U: UserStore, B: BannedTokenStore, T: TwoFACodeStore, E: EmailClient> AppState<U, B, T, E> {
    pub fn new(
        user_store: U,
        banned_token_store: B,
        two_fa_code_store: T,
        email_client: E,
        token_config: TokenConfig,
    ) -> (r: Self)
        ensures
            r.user_store == user_store,
            r.banned_token_store == banned_token_store,
            r.two_fa_code_store == two_fa_code_store,
            r.email_client == email_client,
            r.token_config == token_config,
    {
        AppState { user_store, banned_token_store, two_fa_code_store, email_client, token_config }
    }
}

} // verus!
