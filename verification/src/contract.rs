//! The request handlers: instantiation, the execute surface (receive,
//! convert, mint), the reply dispatcher for completed delegated operations,
//! and the read-only queries. Each handler's contract pins down the state
//! transition, the error, and the dispatched operations, per input.

use vstd::prelude::*;
use vstd::string::StringExecFns;
use crate::state::{Config, Store, TokenInfo, contains_token, token_record};
use crate::msg::{
    Attribute, ConfigResponse, DelegatedOp, ExecuteMsg, InnerMsg, InstantiateMsg, Metadata,
    OperationsResponse, QueryAnswer, QueryMsg, ReceiveMsg, Response, SubOp, TokenInfoResponse,
};
use crate::error::ContractError;
use crate::codec::{
    base64_of, decode_json_string, encode_base64, instantiate_reply_address,
    json_decoded_string, parse_instantiate_reply,
};

verus! {

/// Reply id under which the provisioning (cw721 instantiate) completion
/// arrives.
pub const INSTANTIATE_REPLY: u64 = 1;

/// Reply id under which a burn completion arrives.
pub const BURN_REPLY: u64 = 2;

/// Reply id under which a mint completion arrives.
pub const MINT_REPLY: u64 = 3;

/// The instruction embedded in an intake notification: the payload must be
/// the JSON string "succeed" or "fail"; anything else is malformed.
pub open spec fn decode_inner(bytes: Seq<u8>) -> Option<InnerMsg> {
    match json_decoded_string(bytes) {
        Some(s) => if s == "succeed"@ {
            Some(InnerMsg::Succeed)
        } else if s == "fail"@ {
            Some(InnerMsg::Fail)
        } else {
            None
        },
        None => None,
    }
}

/// The contract address carried by a reply payload, if any.
pub open spec fn reply_payload_address(data: Option<Vec<u8>>) -> Option<Seq<char>> {
    match data {
        Some(bytes) => instantiate_reply_address(bytes@),
        None => None,
    }
}

/// The caller is the configured admin.
pub open spec fn mint_authorized(store: Store, sender: Seq<char>) -> bool {
    store.config is Some && store.the_config().admin@ == sender
}

/// An accepted intake: the custody record for `token_id` now maps to
/// `(nft_addr, sender)`, every other record is untouched, and neither the
/// configuration nor the counters moved.
pub open spec fn intake_recorded(
    pre: Store,
    post: Store,
    token_id: Seq<char>,
    nft_addr: Seq<char>,
    sender: Seq<char>,
) -> bool {
    &&& post.config == pre.config
    &&& post.operations == pre.operations
    &&& contains_token(post.custody@, token_id)
    &&& token_record(post.custody@, token_id).token_id@ == token_id
    &&& token_record(post.custody@, token_id).nft_addr@ == nft_addr
    &&& token_record(post.custody@, token_id).sender@ == sender
    &&& forall|k: Seq<char>| k != token_id ==> (contains_token(post.custody@, k) <==> contains_token(
        pre.custody@,
        k,
    ))
    &&& forall|k: Seq<char>| k != token_id && contains_token(pre.custody@, k) ==> token_record(
        post.custody@,
        k,
    ) == token_record(pre.custody@, k)
}

/// A completed conversion's local effect: the custody record for `token_id`
/// is gone, every other record is untouched, and neither the configuration
/// nor the counters moved.
pub open spec fn custody_cleared(pre: Store, post: Store, token_id: Seq<char>) -> bool {
    &&& post.config == pre.config
    &&& post.operations == pre.operations
    &&& !contains_token(post.custody@, token_id)
    &&& forall|k: Seq<char>| k != token_id ==> (contains_token(post.custody@, k) <==> contains_token(
        pre.custody@,
        k,
    ))
    &&& forall|k: Seq<char>| k != token_id && contains_token(pre.custody@, k) ==> token_record(
        post.custody@,
        k,
    ) == token_record(pre.custody@, k)
}

/// A confirmed burn completion: the burn counter moved up by one and nothing
/// else changed.
pub open spec fn burn_counted(pre: Store, post: Store) -> bool {
    &&& post.config == pre.config
    &&& post.custody == pre.custody
    &&& post.operations.n_burns == pre.operations.n_burns + 1
    &&& post.operations.n_mints == pre.operations.n_mints
}

/// A confirmed mint completion: the mint counter moved up by one and nothing
/// else changed.
pub open spec fn mint_counted(pre: Store, post: Store) -> bool {
    &&& post.config == pre.config
    &&& post.custody == pre.custody
    &&& post.operations.n_mints == pre.operations.n_mints + 1
    &&& post.operations.n_burns == pre.operations.n_burns
}

/// A completed provisioning: the NFT contract address is now `addr`, the
/// admin identity is kept, and neither custody nor the counters moved.
pub open spec fn provision_applied(pre: Store, post: Store, addr: Seq<char>) -> bool {
    &&& pre.config is Some
    &&& post.config is Some
    &&& post.the_config().admin == pre.the_config().admin
    &&& post.the_config().nft_addr@ == addr
    &&& post.custody == pre.custody
    &&& post.operations == pre.operations
}

/// The complete contract of `execute_mint` over a store, a caller and the
/// mint arguments: when it succeeds, which error it returns otherwise, and
/// exactly what the successful response dispatches.
pub open spec fn mint_post(
    store: Store,
    sender: Seq<char>,
    token_id: String,
    recipient: String,
    extension: Option<Metadata>,
    token_uri: Option<String>,
    r: Result<Response, ContractError>,
) -> bool {
    &&& (r is Ok <==> mint_authorized(store, sender))
    &&& (store.config is None ==> r == Err::<Response, ContractError>(ContractError::NotFound))
    &&& (store.config is Some && !mint_authorized(store, sender) ==> r == Err::<
        Response,
        ContractError,
    >(ContractError::Unauthorized))
    &&& (r matches Ok(resp) ==> {
        &&& resp.messages@.len() == 1
        &&& resp.messages@[0] == (SubOp {
            reply_on: MINT_REPLY,
            op: DelegatedOp::Mint {
                contract_addr: store.the_config().nft_addr,
                token_id: token_id,
                owner: recipient,
                token_uri: token_uri,
                extension: extension,
            },
        })
        &&& resp.attributes@.len() == 1
        &&& resp.attributes@[0].key@ == "action"@
        &&& resp.attributes@[0].value@ == "mint"@
        &&& resp.data is None
    })
}

/// The complete contract of `execute_receive`: the embedded instruction is
/// decoded first, then authority is checked, then an explicit abort rejects;
/// only an accepted intake writes the custody record, and the successful
/// response reports the notification for audit.
pub open spec fn receive_post(
    pre: Store,
    post: Store,
    nft_addr: Seq<char>,
    receive_msg: ReceiveMsg,
    approval_confirmed: bool,
    r: Result<Response, ContractError>,
) -> bool {
    &&& (r is Ok <==> (decode_inner(receive_msg.msg@) == Some(InnerMsg::Succeed)
        && approval_confirmed))
    &&& (decode_inner(receive_msg.msg@) is None ==> r == Err::<Response, ContractError>(
        ContractError::DeserializationError,
    ))
    &&& (decode_inner(receive_msg.msg@) is Some && !approval_confirmed ==> r == Err::<
        Response,
        ContractError,
    >(ContractError::RemoteCallFailed))
    &&& (decode_inner(receive_msg.msg@) == Some(InnerMsg::Fail) && approval_confirmed ==> r
        == Err::<Response, ContractError>(ContractError::Failed))
    &&& (r is Err ==> post == pre)
    &&& (r matches Ok(resp) ==> {
        &&& intake_recorded(pre, post, receive_msg.token_id@, nft_addr, receive_msg.sender@)
        &&& resp.messages@.len() == 0
        &&& resp.data matches Some(d) && d@ == receive_msg.token_id@ + receive_msg.sender@
            + base64_of(receive_msg.msg@)
        &&& resp.attributes@.len() == 4
        &&& resp.attributes@[0].key@ == "action"@ && resp.attributes@[0].value@ == "receive_nft"@
        &&& resp.attributes@[1].key@ == "token_id"@ && resp.attributes@[1].value@
            == receive_msg.token_id@
        &&& resp.attributes@[2].key@ == "sender"@ && resp.attributes@[2].value@
            == receive_msg.sender@
        &&& resp.attributes@[3].key@ == "msg"@ && resp.attributes@[3].value@ == base64_of(
            receive_msg.msg@,
        )
    })
}

/// The complete contract of `execute_convert`: it succeeds exactly when the
/// configuration exists and custody of the token is held; the custody record
/// is then deleted unconditionally, in the same request that dispatches the
/// burn of the original token and the mint of its replacement.
pub open spec fn convert_post(
    pre: Store,
    post: Store,
    token_id: Seq<char>,
    extension: Option<Metadata>,
    token_uri: Option<String>,
    r: Result<Response, ContractError>,
) -> bool {
    &&& (r is Ok <==> (pre.config is Some && contains_token(pre.custody@, token_id)))
    &&& (r is Err ==> r == Err::<Response, ContractError>(ContractError::NotFound) && post == pre)
    &&& (r matches Ok(resp) ==> {
        &&& custody_cleared(pre, post, token_id)
        &&& resp.messages@.len() == 2
        &&& resp.messages@[0] == (SubOp {
            reply_on: BURN_REPLY,
            op: DelegatedOp::Burn {
                contract_addr: token_record(pre.custody@, token_id).nft_addr,
                token_id: token_record(pre.custody@, token_id).token_id,
            },
        })
        &&& resp.messages@[1] == (SubOp {
            reply_on: MINT_REPLY,
            op: DelegatedOp::Mint {
                contract_addr: pre.the_config().nft_addr,
                token_id: token_record(pre.custody@, token_id).token_id,
                owner: token_record(pre.custody@, token_id).sender,
                token_uri: token_uri,
                extension: extension,
            },
        })
        &&& resp.attributes@.len() == 1
        &&& resp.attributes@[0].key@ == "action"@
        &&& resp.attributes@[0].value@ == "convert"@
        &&& resp.data is None
    })
}

/// The complete contract of `reply`, the completion dispatcher: a burn or
/// mint completion moves exactly its own counter by one; a provisioning
/// completion writes the parsed contract address into the configuration; any
/// other id is rejected and nothing moves.
pub open spec fn reply_post(
    pre: Store,
    post: Store,
    reply_id: u64,
    data: Option<Vec<u8>>,
    r: Result<Response, ContractError>,
) -> bool {
    &&& (!(reply_id == INSTANTIATE_REPLY || reply_id == BURN_REPLY || reply_id == MINT_REPLY)
        ==> r == Err::<Response, ContractError>(ContractError::UnrecognizedReply) && post == pre)
    &&& (reply_id == BURN_REPLY ==> (r matches Ok(resp) && burn_counted(pre, post) && {
        &&& resp.attributes@.len() == 1
        &&& resp.attributes@[0].key@ == "Operation"@
        &&& resp.attributes@[0].value@ == "burn"@
        &&& resp.messages@.len() == 0
        &&& resp.data is None
    }))
    &&& (reply_id == MINT_REPLY ==> (r matches Ok(resp) && mint_counted(pre, post) && {
        &&& resp.attributes@.len() == 1
        &&& resp.attributes@[0].key@ == "Operation"@
        &&& resp.attributes@[0].value@ == "mint"@
        &&& resp.messages@.len() == 0
        &&& resp.data is None
    }))
    &&& (reply_id == INSTANTIATE_REPLY && reply_payload_address(data) is None ==> r == Err::<
        Response,
        ContractError,
    >(ContractError::MalformedReply) && post == pre)
    &&& (reply_id == INSTANTIATE_REPLY && reply_payload_address(data) is Some && pre.config is None
        ==> r == Err::<Response, ContractError>(ContractError::NotFound) && post == pre)
    &&& (reply_id == INSTANTIATE_REPLY && reply_payload_address(data) is Some && pre.config is Some
        ==> (r matches Ok(resp) && provision_applied(pre, post, reply_payload_address(data)->Some_0)
        && {
            &&& resp.attributes@.len() == 0
            &&& resp.messages@.len() == 0
            &&& resp.data is None
        }))
}

/// Instantiation: records the configuration, with the admin identity from the
/// message and the NFT contract address still unset, and dispatches the
/// provisioning of a cw721 contract from the given code id, with this
/// contract (at `contract_address`) as its minter.
pub fn instantiate(store: &mut Store, contract_address: String, msg: InstantiateMsg) -> (r:
    Response)
    requires
        old(store).wf(),
    ensures
        final(store).wf(),
        final(store).custody == old(store).custody,
        final(store).operations == old(store).operations,
        final(store).config matches Some(cfg) && cfg.admin == msg.admin && !cfg.provisioned(),
        r.messages@.len() == 1,
        r.messages@[0] == (SubOp {
            reply_on: INSTANTIATE_REPLY,
            op: DelegatedOp::Instantiate {
                code_id: msg.cw721_code_id,
                name: msg.name,
                symbol: msg.symbol,
                minter: contract_address,
            },
        }),
        r.attributes@.len() == 1,
        r.attributes@[0].key@ == "action"@,
        r.attributes@[0].value@ == "instantiate"@,
        r.data is None,
{
    let mut messages: Vec<SubOp> = Vec::new();
    messages.push(
        SubOp {
            reply_on: INSTANTIATE_REPLY,
            op: DelegatedOp::Instantiate {
                code_id: msg.cw721_code_id,
                name: msg.name,
                symbol: msg.symbol,
                minter: contract_address,
            },
        },
    );
    store.config = Some(Config { nft_addr: String::new(), admin: msg.admin });
    let mut attributes: Vec<Attribute> = Vec::new();
    attributes.push(
        Attribute { key: String::from_str("action"), value: String::from_str("instantiate") },
    );
    Response { attributes, messages, data: None }
}

/// Admin-gated direct mint: only the configured admin may dispatch a mint of
/// a fresh token; any other caller is rejected and nothing is dispatched.
pub fn execute_mint(
    store: &Store,
    sender: String,
    token_id: String,
    recipient: String,
    extension: Option<Metadata>,
    token_uri: Option<String>,
) -> (r: Result<Response, ContractError>)
    ensures
        mint_post(*store, sender@, token_id, recipient, extension, token_uri, r),
{
    let cfg = match &store.config {
        Some(c) => c,
        None => {
            return Err(ContractError::NotFound);
        },
    };
    if sender == cfg.admin {
        let mut messages: Vec<SubOp> = Vec::new();
        messages.push(
            SubOp {
                reply_on: MINT_REPLY,
                op: DelegatedOp::Mint {
                    contract_addr: cfg.nft_addr.clone(),
                    token_id,
                    owner: recipient,
                    token_uri,
                    extension,
                },
            },
        );
        let mut attributes: Vec<Attribute> = Vec::new();
        attributes.push(
            Attribute { key: String::from_str("action"), value: String::from_str("mint") },
        );
        Ok(Response { attributes, messages, data: None })
    } else {
        Err(ContractError::Unauthorized)
    }
}

/// Custody intake: decodes the embedded instruction, requires confirmed
/// authority over the token, rejects an explicit abort, and otherwise records
/// custody of the token on behalf of its previous holder.
///
/// `nft_addr` is the NFT contract that delivered the notification;
/// `approval_confirmed` is the outcome of the approval query against it,
/// which the host performs. Re-sending an intake notification overwrites the
/// custody record; duplicates are not rejected.
pub fn execute_receive(
    store: &mut Store,
    nft_addr: String,
    receive_msg: ReceiveMsg,
    approval_confirmed: bool,
) -> (r: Result<Response, ContractError>)
    requires
        old(store).wf(),
    ensures
        final(store).wf(),
        receive_post(*old(store), *final(store), nft_addr@, receive_msg, approval_confirmed, r),
{
    let inner = match decode_json_string(&receive_msg.msg) {
        Some(s) => {
            if s == String::from_str("succeed") {
                InnerMsg::Succeed
            } else if s == String::from_str("fail") {
                InnerMsg::Fail
            } else {
                return Err(ContractError::DeserializationError);
            }
        },
        None => {
            return Err(ContractError::DeserializationError);
        },
    };
    if !approval_confirmed {
        return Err(ContractError::RemoteCallFailed);
    }
    match inner {
        InnerMsg::Fail => Err(ContractError::Failed),
        InnerMsg::Succeed => {
            let b64 = encode_base64(&receive_msg.msg);
            let mut data = receive_msg.token_id.clone();
            data.append(receive_msg.sender.as_str());
            data.append(b64.as_str());
            let mut attributes: Vec<Attribute> = Vec::new();
            attributes.push(
                Attribute {
                    key: String::from_str("action"),
                    value: String::from_str("receive_nft"),
                },
            );
            attributes.push(
                Attribute { key: String::from_str("token_id"), value: receive_msg.token_id.clone() },
            );
            attributes.push(
                Attribute { key: String::from_str("sender"), value: receive_msg.sender.clone() },
            );
            attributes.push(Attribute { key: String::from_str("msg"), value: b64 });
            let rec = TokenInfo {
                token_id: receive_msg.token_id,
                nft_addr,
                sender: receive_msg.sender,
            };
            store.custody_save(rec);
            Ok(Response { attributes, messages: Vec::new(), data: Some(data) })
        },
    }
}

/// Conversion: reads the custody record, dispatches the burn of the original
/// token at its source contract and the mint of a replacement with the same
/// id for the recorded holder at the provisioned contract, and deletes the
/// custody record unconditionally in the same request. Whether the two
/// dispatched operations ever complete is not awaited.
pub fn execute_convert(
    store: &mut Store,
    token_id: String,
    extension: Option<Metadata>,
    token_uri: Option<String>,
) -> (r: Result<Response, ContractError>)
    requires
        old(store).wf(),
    ensures
        final(store).wf(),
        convert_post(*old(store), *final(store), token_id@, extension, token_uri, r),
{
    let cfg_nft_addr = match &store.config {
        Some(c) => c.nft_addr.clone(),
        None => {
            return Err(ContractError::NotFound);
        },
    };
    let (rec_token_id, rec_nft_addr, rec_sender) = match store.custody_lookup(&token_id) {
        Some(rec) => (rec.token_id.clone(), rec.nft_addr.clone(), rec.sender.clone()),
        None => {
            return Err(ContractError::NotFound);
        },
    };
    let mut messages: Vec<SubOp> = Vec::new();
    messages.push(
        SubOp {
            reply_on: BURN_REPLY,
            op: DelegatedOp::Burn {
                contract_addr: rec_nft_addr,
                token_id: rec_token_id.clone(),
            },
        },
    );
    messages.push(
        SubOp {
            reply_on: MINT_REPLY,
            op: DelegatedOp::Mint {
                contract_addr: cfg_nft_addr,
                token_id: rec_token_id,
                owner: rec_sender,
                token_uri,
                extension,
            },
        },
    );
    store.custody_remove(&token_id);
    let mut attributes: Vec<Attribute> = Vec::new();
    attributes.push(
        Attribute { key: String::from_str("action"), value: String::from_str("convert") },
    );
    Ok(Response { attributes, messages, data: None })
}

/// The execute dispatcher. `sender` is the identity that sent the request:
/// for a receive notification it is the NFT contract delivering it, for a
/// mint it is the caller held against the admin identity.
/// `approval_confirmed` is the outcome of the approval query that the host
/// performs for a receive notification; the other requests ignore it.
pub fn execute(
    store: &mut Store,
    sender: String,
    approval_confirmed: bool,
    msg: ExecuteMsg,
) -> (r: Result<Response, ContractError>)
    requires
        old(store).wf(),
    ensures
        final(store).wf(),
        msg matches ExecuteMsg::ReceiveNft(receive_msg) ==> receive_post(
            *old(store),
            *final(store),
            sender@,
            receive_msg,
            approval_confirmed,
            r,
        ),
        msg matches ExecuteMsg::Convert { token_id, extension, token_uri } ==> convert_post(
            *old(store),
            *final(store),
            token_id@,
            extension,
            token_uri,
            r,
        ),
        msg matches ExecuteMsg::Mint { token_id, recipient, extension, token_uri } ==> (mint_post(
            *old(store),
            sender@,
            token_id,
            recipient,
            extension,
            token_uri,
            r,
        ) && *final(store) == *old(store)),
{
    match msg {
        ExecuteMsg::ReceiveNft(receive_msg) => execute_receive(
            store,
            sender,
            receive_msg,
            approval_confirmed,
        ),
        ExecuteMsg::Convert { token_id, extension, token_uri } => execute_convert(
            store,
            token_id,
            extension,
            token_uri,
        ),
        ExecuteMsg::Mint { token_id, recipient, extension, token_uri } => execute_mint(
            store,
            sender,
            token_id,
            recipient,
            extension,
            token_uri,
        ),
    }
}

/// The completion dispatcher: applies the state mutation that corresponds to
/// the tag a completed delegated operation was dispatched under.
///
/// Completions are delivered only for operations the host reports as
/// successful, so the counters measure confirmed completions; a counter at
/// its maximum is outside the inputs this handler accepts.
pub fn reply(store: &mut Store, reply_id: u64, data: Option<Vec<u8>>) -> (r: Result<
    Response,
    ContractError,
>)
    requires
        old(store).wf(),
        old(store).operations.n_burns < u128::MAX,
        old(store).operations.n_mints < u128::MAX,
    ensures
        final(store).wf(),
        reply_post(*old(store), *final(store), reply_id, data, r),
{
    if reply_id == INSTANTIATE_REPLY {
        let addr = match &data {
            Some(bytes) => match parse_instantiate_reply(bytes) {
                Some(a) => a,
                None => {
                    return Err(ContractError::MalformedReply);
                },
            },
            None => {
                return Err(ContractError::MalformedReply);
            },
        };
        let admin = match &store.config {
            Some(c) => c.admin.clone(),
            None => {
                return Err(ContractError::NotFound);
            },
        };
        store.config = Some(Config { nft_addr: addr, admin });
        Ok(Response::empty())
    } else if reply_id == BURN_REPLY {
        store.operations.n_burns = store.operations.n_burns + 1;
        let mut attributes: Vec<Attribute> = Vec::new();
        attributes.push(
            Attribute { key: String::from_str("Operation"), value: String::from_str("burn") },
        );
        Ok(Response { attributes, messages: Vec::new(), data: None })
    } else if reply_id == MINT_REPLY {
        store.operations.n_mints = store.operations.n_mints + 1;
        let mut attributes: Vec<Attribute> = Vec::new();
        attributes.push(
            Attribute { key: String::from_str("Operation"), value: String::from_str("mint") },
        );
        Ok(Response { attributes, messages: Vec::new(), data: None })
    } else {
        Err(ContractError::UnrecognizedReply)
    }
}

/// Reports the provisioned NFT contract address.
pub fn query_config(store: &Store) -> (r: Result<ConfigResponse, ContractError>)
    ensures
        r is Ok <==> store.config is Some,
        store.config is None ==> r == Err::<ConfigResponse, ContractError>(ContractError::NotFound),
        r matches Ok(resp) ==> resp.nft_addr == store.the_config().nft_addr,
{
    match &store.config {
        Some(c) => Ok(ConfigResponse { nft_addr: c.nft_addr.clone() }),
        None => Err(ContractError::NotFound),
    }
}

/// Reports the confirmed-completion counters; zero for both if no completion
/// was ever counted.
pub fn query_operations(store: &Store) -> (r: Result<OperationsResponse, ContractError>)
    ensures
        r matches Ok(resp) && resp.reports(store.operations),
{
    Ok(OperationsResponse { n_burns: store.operations.n_burns, n_mints: store.operations.n_mints })
}

/// Reports the custody record held for `token_id`, echoing the queried id.
pub fn query_nft_info(store: &Store, token_id: String) -> (r: Result<
    TokenInfoResponse,
    ContractError,
>)
    requires
        store.wf(),
    ensures
        r is Ok <==> store.token_for(token_id@) is Some,
        store.token_for(token_id@) is None ==> r == Err::<TokenInfoResponse, ContractError>(
            ContractError::NotFound,
        ),
        r matches Ok(resp) ==> crate::msg::reports_record(resp, store.token_for(token_id@)->Some_0)
            && resp.token_id == token_id,
{
    match store.custody_lookup(&token_id) {
        Some(rec) => {
            let resp = TokenInfoResponse {
                token_id,
                nft_addr: rec.nft_addr.clone(),
                sender: rec.sender.clone(),
            };
            Ok(resp)
        },
        None => Err(ContractError::NotFound),
    }
}

/// The query dispatcher.
pub fn query(store: &Store, msg: QueryMsg) -> (r: Result<QueryAnswer, ContractError>)
    requires
        store.wf(),
    ensures
        msg is Operations ==> (r matches Ok(QueryAnswer::Operations(resp)) && resp.reports(
            store.operations,
        )),
        msg is Config ==> (r is Ok <==> store.config is Some),
        msg is Config && store.config is Some ==> (r matches Ok(QueryAnswer::Config(resp))
            && resp.nft_addr == store.the_config().nft_addr),
        msg is Config && store.config is None ==> r == Err::<QueryAnswer, ContractError>(
            ContractError::NotFound,
        ),
        msg matches QueryMsg::TokenInfo { token_id } ==> {
            &&& (r is Ok <==> store.token_for(token_id@) is Some)
            &&& (store.token_for(token_id@) is None ==> r == Err::<QueryAnswer, ContractError>(
                ContractError::NotFound,
            ))
            &&& (r matches Ok(QueryAnswer::TokenInfo(resp)) ==> crate::msg::reports_record(
                resp,
                store.token_for(token_id@)->Some_0,
            ) && resp.token_id == token_id)
            &&& (r is Ok ==> r matches Ok(QueryAnswer::TokenInfo(resp)))
        },
{
    match msg {
        QueryMsg::Operations {  } => match query_operations(store) {
            Ok(resp) => Ok(QueryAnswer::Operations(resp)),
            Err(e) => Err(e),
        },
        QueryMsg::Config {  } => match query_config(store) {
            Ok(resp) => Ok(QueryAnswer::Config(resp)),
            Err(e) => Err(e),
        },
        QueryMsg::TokenInfo { token_id } => match query_nft_info(store, token_id) {
            Ok(resp) => Ok(QueryAnswer::TokenInfo(resp)),
            Err(e) => Err(e),
        },
    }
}

} // verus!
