//! What the REST service answers. The field names are those of the
//! service.

pub mod body;
pub mod output;
pub mod quote;

use vstd::prelude::*;

verus! {

/// The header of a response on stocks.
#[derive(Clone, Debug)]
pub struct Stock {
    /// The transaction id of the request.
    pub tr_id: String,
    /// Whether more data follows: `F` or `M` where it does, `D` or `E` at the end.
    pub tr_cont: String,
    /// The unique id of the transaction.
    pub gt_uid: String,
}

/// The approval key for streaming.
#[derive(Clone, Debug)]
pub struct ApprovalKeyCreation {
    pub approval_key: String,
}

impl ApprovalKeyCreation {
    /// The approval key.
    pub fn get_approval_key(&self) -> (r: String)
        ensures
            r@ == self.approval_key@,
    {
        self.approval_key.clone()
    }
}

/// The answer to a request for an approval key, by its long name.
#[derive(Clone, Debug)]
pub struct ApprovalKeyCreationResponse {
    pub approval_key: String,
}

impl ApprovalKeyCreationResponse {
    /// The approval key.
    pub fn get_approval_key(&self) -> (r: String)
        ensures
            r@ == self.approval_key@,
    {
        self.approval_key.clone()
    }
}

/// The hash of a request body.
#[derive(Clone, Debug)]
pub struct HashKey {
    /// The body that was hashed.
    pub json_body: String,
    /// The hash.
    pub hash: String,
}

impl HashKey {
    /// The hash.
    pub fn get_hash(&self) -> (r: String)
        ensures
            r@ == self.hash@,
    {
        self.hash.clone()
    }
}

/// The answer to a request for a hash, by its long name.
#[derive(Clone, Debug)]
pub struct HashKeyResponse {
    /// The body that was hashed.
    pub json_body: String,
    /// The hash.
    pub hash: String,
}

impl HashKeyResponse {
    /// The hash.
    pub fn get_hash(&self) -> (r: String)
        ensures
            r@ == self.hash@,
    {
        self.hash.clone()
    }
}

/// An access token.
#[derive(Clone, Debug)]
pub struct TokenCreation {
    pub access_token: String,
    pub token_type: String,
    /// The life of the token in seconds.
    pub expires_in: u32,
}

impl TokenCreation {
    /// The token.
    pub fn get_access_token(&self) -> (r: String)
        ensures
            r@ == self.access_token@,
    {
        self.access_token.clone()
    }
}

/// The answer to a request for an access token, by its long name.
#[derive(Clone, Debug)]
pub struct TokenCreationResponse {
    pub access_token: String,
    pub token_type: String,
    /// The life of the token in seconds.
    pub expires_in: u32,
}

impl TokenCreationResponse {
    /// The token.
    pub fn get_access_token(&self) -> (r: String)
        ensures
            r@ == self.access_token@,
    {
        self.access_token.clone()
    }
}

/// The outcome of revoking a token.
#[derive(Clone, Debug)]
pub struct TokenRevoke {
    pub code: u32,
    pub message: String,
}

/// The answer to the revoking of a token, by its long name.
#[derive(Clone, Debug)]
pub struct TokenRevokeResponse {
    pub code: u32,
    pub message: String,
}

/// Where and when an order was taken.
#[derive(Clone, Debug)]
pub struct Output {
    /// The code of the branch that took the order.
    pub krx_fwdg_ord_orgno: String,
    /// The number of the order.
    pub odno: String,
    /// The time of the order, as `HHMMSS`.
    pub ord_tmd: String,
}

/// The answer to a cash order.
#[derive(Clone, Debug)]
pub struct ResponseBody {
    /// `0` for success, anything else for failure.
    pub tr_cd: String,
    /// The code of the answer.
    pub msg_cd: String,
    /// The message of the answer.
    pub msg: String,
    /// The details.
    pub output: Output,
}

} // verus!
