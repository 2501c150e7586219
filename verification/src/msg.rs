//! Inbound messages, query responses, and the model of the outbound
//! response: attributes, dispatched submessages and response data. The host
//! runtime turns the dispatched operations into wire-format submessages and
//! serializes the query responses; their content is decided, and stated,
//! here.

use vstd::prelude::*;
use crate::state::{Operations, TokenInfo};

verus! {

/// One display trait of a token's metadata.
#[derive(Debug, Clone, PartialEq, Eq)]
pub struct Trait {
    pub display_type: Option<String>,
    pub trait_type: String,
    pub value: String,
}

/// On-chain token metadata carried by mint requests.
#[derive(Debug, Clone, PartialEq, Eq)]
pub struct Metadata {
    pub image: Option<String>,
    pub image_data: Option<String>,
    pub external_url: Option<String>,
    pub description: Option<String>,
    pub name: Option<String>,
    pub attributes: Option<Vec<Trait>>,
    pub background_color: Option<String>,
    pub animation_url: Option<String>,
    pub youtube_url: Option<String>,
}

/// The instantiation request: which cw721 code to provision, its collection
/// name and symbol, and the admin identity.
#[derive(Debug, Clone, PartialEq, Eq)]
pub struct InstantiateMsg {
    pub cw721_code_id: u64,
    pub name: String,
    pub symbol: String,
    pub admin: String,
}

/// A `receive NFT` notification: `sender` transferred `token_id` to this
/// contract through the NFT contract that delivers the notification, with an
/// embedded instruction in `msg`.
#[derive(Debug, Clone, PartialEq, Eq)]
pub struct ReceiveMsg {
    pub sender: String,
    pub token_id: String,
    pub msg: Vec<u8>,
}

/// The embedded instruction of an intake notification.
#[derive(Debug, Clone, PartialEq, Eq)]
pub enum InnerMsg {
    Succeed,
    Fail,
}

/// The execute surface of the contract.
#[derive(Debug, Clone, PartialEq, Eq)]
pub enum ExecuteMsg {
    ReceiveNft(ReceiveMsg),
    Convert { token_id: String, extension: Option<Metadata>, token_uri: Option<String> },
    Mint { token_id: String, recipient: String, extension: Option<Metadata>, token_uri: Option<String> },
}

/// The query surface of the contract.
#[derive(Debug, Clone, PartialEq, Eq)]
pub enum QueryMsg {
    Operations {},
    Config {},
    TokenInfo { token_id: String },
}

/// The confirmed-completion counters, as reported to a querier.
#[derive(Debug, Clone, PartialEq, Eq)]
pub struct OperationsResponse {
    pub n_burns: u128,
    pub n_mints: u128,
}

/// The provisioned NFT contract address, as reported to a querier.
#[derive(Debug, Clone, PartialEq, Eq)]
pub struct ConfigResponse {
    pub nft_addr: String,
}

/// One custody record, as reported to a querier.
#[derive(Debug, Clone, PartialEq, Eq)]
pub struct TokenInfoResponse {
    pub token_id: String,
    pub nft_addr: String,
    pub sender: String,
}

/// The answer to a query, one variant per query kind.
#[derive(Debug, Clone, PartialEq, Eq)]
pub enum QueryAnswer {
    Operations(OperationsResponse),
    Config(ConfigResponse),
    TokenInfo(TokenInfoResponse),
}

/// An observable attribute attached to a response for external audit.
#[derive(Debug, Clone, PartialEq, Eq)]
pub struct Attribute {
    pub key: String,
    pub value: String,
}

/// A delegated operation, dispatched to the NFT contracts and completed
/// asynchronously.
#[derive(Debug, Clone, PartialEq, Eq)]
pub enum DelegatedOp {
    /// Provision a fresh cw721 contract from `code_id`; this orchestrator is
    /// its minter.
    Instantiate { code_id: u64, name: String, symbol: String, minter: String },
    /// Burn `token_id` at the contract it lives on.
    Burn { contract_addr: String, token_id: String },
    /// Mint `token_id` on `contract_addr` for `owner`.
    Mint {
        contract_addr: String,
        token_id: String,
        owner: String,
        token_uri: Option<String>,
        extension: Option<Metadata>,
    },
}

/// A dispatched submessage: the operation and the reply id under which its
/// completion will come back.
#[derive(Debug, Clone, PartialEq, Eq)]
pub struct SubOp {
    pub reply_on: u64,
    pub op: DelegatedOp,
}

/// The outcome of a successful request: audit attributes, the submessages it
/// dispatched, and optional response data.
#[derive(Debug, Clone, PartialEq, Eq)]
pub struct Response {
    pub attributes: Vec<Attribute>,
    pub messages: Vec<SubOp>,
    pub data: Option<String>,
}

impl Response {
    /// A response that dispatches nothing and reports nothing.
    pub fn empty() -> (r: Response)
        ensures
            r.attributes@.len() == 0,
            r.messages@.len() == 0,
            r.data is None,
    {
        Response { attributes: Vec::new(), messages: Vec::new(), data: None }
    }
}

impl TokenInfoResponse {
    /// The record a response reports, compared at the level of views.
    pub open spec fn reports(self, token_id: Seq<char>, nft_addr: Seq<char>, sender: Seq<char>) -> bool {
        self.token_id@ == token_id && self.nft_addr@ == nft_addr && self.sender@ == sender
    }
}

impl OperationsResponse {
    /// The counters a response reports.
    pub open spec fn reports(self, ops: Operations) -> bool {
        self.n_burns == ops.n_burns && self.n_mints == ops.n_mints
    }
}

/// What a query response reports of a custody record.
pub open spec fn reports_record(resp: TokenInfoResponse, rec: TokenInfo) -> bool {
    resp.reports(rec.token_id@, rec.nft_addr@, rec.sender@)
}

} // verus!
