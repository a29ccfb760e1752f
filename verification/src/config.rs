//! What a deployment is configured with.

use vstd::prelude::*;
use crate::codes::Environment;

verus! {

/// The credentials and the account of a deployment.
#[derive(Clone, Debug)]
pub struct Config {
    /// The id of the user in the trading terminal.
    pub hts_id: String,
    /// The first eight digits of the account number.
    pub cano: String,
    /// The last two digits of the account number.
    pub acnt_prdt_cd: String,
    pub app_key: String,
    pub app_secret: String,
    /// The approval key for streaming, where one was issued.
    pub approval_key: Option<String>,
    /// The access token, where one was issued.
    pub token: Option<String>,
    pub environment: Environment,
}

impl Config {
    pub fn set_approval_key(&mut self, approval_key: Option<String>)
        ensures
            final(self).approval_key == approval_key,
            final(self).hts_id == old(self).hts_id,
            final(self).cano == old(self).cano,
            final(self).acnt_prdt_cd == old(self).acnt_prdt_cd,
            final(self).app_key == old(self).app_key,
            final(self).app_secret == old(self).app_secret,
            final(self).token == old(self).token,
            final(self).environment == old(self).environment,
    {
        self.approval_key = approval_key;
    }

    pub fn set_token(&mut self, token: Option<String>)
        ensures
            final(self).token == token,
            final(self).hts_id == old(self).hts_id,
            final(self).cano == old(self).cano,
            final(self).acnt_prdt_cd == old(self).acnt_prdt_cd,
            final(self).app_key == old(self).app_key,
            final(self).app_secret == old(self).app_secret,
            final(self).approval_key == old(self).approval_key,
            final(self).environment == old(self).environment,
    {
        self.token = token;
    }
}

} // verus!
