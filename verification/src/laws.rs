//! The library's laws: properties that relate the request handlers to each
//! other and to the read-only queries, stated over the transition predicates
//! that the handlers' contracts establish and proved once for all inputs.

use vstd::prelude::*;
use crate::state::{Store, contains_token};
use crate::msg::{InnerMsg, Metadata, ReceiveMsg, Response};
use crate::error::ContractError;
use crate::contract::{
    burn_counted, convert_post, custody_cleared, decode_inner, intake_recorded, mint_authorized,
    mint_counted, mint_post, provision_applied, receive_post, reply_post,
    BURN_REPLY, INSTANTIATE_REPLY, MINT_REPLY,
};

verus! {

/// Provisioning moves the NFT contract address from unset to exactly the
/// address the completion payload carries, and keeps the admin identity: the
/// configuration then reflects that one provisioning payload.
pub proof fn lemma_provisioning_once(pre: Store, post: Store, addr: Seq<char>)
    requires
        pre.config is Some,
        !pre.the_config().provisioned(),
        provision_applied(pre, post, addr),
    ensures
        post.the_config().nft_addr@ == addr,
        post.the_config().admin == pre.the_config().admin,
        post.the_config().provisioned() <==> addr.len() > 0,
{
}

/// Only a provisioning completion writes the configuration: an intake, a
/// conversion, or a counted burn or mint completion leaves it as it was.
pub proof fn lemma_config_written_only_by_provision(
    pre: Store,
    post: Store,
    token_id: Seq<char>,
    nft_addr: Seq<char>,
    sender: Seq<char>,
)
    requires
        intake_recorded(pre, post, token_id, nft_addr, sender) || custody_cleared(
            pre,
            post,
            token_id,
        ) || burn_counted(pre, post) || mint_counted(pre, post),
    ensures
        post.config == pre.config,
{
}

/// Custody round-trip: after an accepted intake of `token_id` from `holder`
/// through the NFT contract at `nft_addr`, the custody query for `token_id`
/// reports exactly that record.
pub proof fn lemma_custody_round_trip(
    pre: Store,
    post: Store,
    token_id: Seq<char>,
    nft_addr: Seq<char>,
    holder: Seq<char>,
)
    requires
        intake_recorded(pre, post, token_id, nft_addr, holder),
    ensures
        post.token_for(token_id) matches Some(rec) && rec.token_id@ == token_id && rec.nft_addr@
            == nft_addr && rec.sender@ == holder,
{
}

/// Explicit rejection leaves no trace: an intake whose embedded instruction
/// aborts fails with the rejection error, and a token never taken into
/// custody before is still reported as absent afterwards.
pub proof fn lemma_rejection_leaves_no_trace(
    pre: Store,
    post: Store,
    nft_addr: Seq<char>,
    receive_msg: ReceiveMsg,
    r: Result<Response, ContractError>,
)
    requires
        receive_post(pre, post, nft_addr, receive_msg, true, r),
        decode_inner(receive_msg.msg@) == Some(InnerMsg::Fail),
        !contains_token(pre.custody@, receive_msg.token_id@),
    ensures
        r == Err::<Response, ContractError>(ContractError::Failed),
        post.token_for(receive_msg.token_id@) is None,
{
}

/// Conversion clears custody unconditionally: when a custody record for the
/// token exists and the configuration is present, the conversion succeeds and
/// the custody query afterwards reports the token as absent — whether or not
/// the dispatched burn and mint ever complete.
pub proof fn lemma_conversion_clears_custody(
    pre: Store,
    post: Store,
    token_id: Seq<char>,
    extension: Option<Metadata>,
    token_uri: Option<String>,
    r: Result<Response, ContractError>,
)
    requires
        convert_post(pre, post, token_id, extension, token_uri, r),
        pre.config is Some,
        contains_token(pre.custody@, token_id),
    ensures
        r is Ok,
        post.token_for(token_id) is None,
{
}

/// Counters move only on confirmed completion: a counted burn or mint
/// completion moves exactly its own counter by one, and every other
/// transition — intake, conversion, provisioning, or a request that changed
/// nothing — leaves both counters as they were.
pub proof fn lemma_counters_move_only_on_completion(
    pre: Store,
    post: Store,
    token_id: Seq<char>,
    nft_addr: Seq<char>,
    sender: Seq<char>,
    addr: Seq<char>,
)
    requires
        intake_recorded(pre, post, token_id, nft_addr, sender) || custody_cleared(
            pre,
            post,
            token_id,
        ) || provision_applied(pre, post, addr) || post == pre,
    ensures
        post.operations == pre.operations,
{
}

/// A confirmed completion counts exactly one operation of its own kind.
pub proof fn lemma_completion_counts_one(pre: Store, post: Store)
    requires
        burn_counted(pre, post) || mint_counted(pre, post),
    ensures
        burn_counted(pre, post) ==> post.operations.n_burns == pre.operations.n_burns + 1
            && post.operations.n_mints == pre.operations.n_mints,
        mint_counted(pre, post) ==> post.operations.n_mints == pre.operations.n_mints + 1
            && post.operations.n_burns == pre.operations.n_burns,
        post.custody == pre.custody,
        post.config == pre.config,
{
}

/// Authorization gate: a direct mint by any identity other than the
/// configured admin fails as unauthorized, and dispatches nothing — the
/// result carries no messages whose completions could later move a counter.
pub proof fn lemma_authorization_gate(
    store: Store,
    sender: Seq<char>,
    token_id: String,
    recipient: String,
    extension: Option<Metadata>,
    token_uri: Option<String>,
    r: Result<Response, ContractError>,
)
    requires
        mint_post(store, sender, token_id, recipient, extension, token_uri, r),
        store.config is Some,
        store.the_config().admin@ != sender,
    ensures
        r == Err::<Response, ContractError>(ContractError::Unauthorized),
        !mint_authorized(store, sender),
{
}

/// Unknown completion tags are rejected: a reply under an id that was never
/// dispatched fails as unrecognized, and neither the counters nor the
/// configuration nor custody move.
pub proof fn lemma_unknown_reply_rejected(
    pre: Store,
    post: Store,
    reply_id: u64,
    data: Option<Vec<u8>>,
    r: Result<Response, ContractError>,
)
    requires
        reply_post(pre, post, reply_id, data, r),
        reply_id != INSTANTIATE_REPLY,
        reply_id != BURN_REPLY,
        reply_id != MINT_REPLY,
    ensures
        r == Err::<Response, ContractError>(ContractError::UnrecognizedReply),
        post == pre,
        post.operations == pre.operations,
        post.config == pre.config,
{
}

} // verus!
