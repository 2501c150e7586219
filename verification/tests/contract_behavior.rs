use cw721_converter::contract::{
    execute, execute_convert, execute_mint, execute_receive, instantiate, query, query_config,
    query_nft_info, query_operations, reply, BURN_REPLY, INSTANTIATE_REPLY, MINT_REPLY,
};
use cw721_converter::error::ContractError;
use cw721_converter::msg::{
    Attribute, ConfigResponse, DelegatedOp, ExecuteMsg, InstantiateMsg, QueryAnswer, QueryMsg,
    ReceiveMsg, SubOp, TokenInfoResponse,
};
use cw721_converter::state::{Config, Operations, Store, TokenInfo};

fn s(x: &str) -> String {
    x.to_string()
}

fn configured_store(nft_addr: &str, admin: &str) -> Store {
    Store {
        config: Some(Config { nft_addr: s(nft_addr), admin: s(admin) }),
        custody: Vec::new(),
        operations: Operations { n_burns: 0, n_mints: 0 },
    }
}

fn store_with_custody(nft_addr: &str, admin: &str, rec: TokenInfo) -> Store {
    let mut store = configured_store(nft_addr, admin);
    store.custody.push(rec);
    store
}

/// The protobuf payload of an instantiate reply: field 1, length-delimited,
/// carrying the contract address.
fn instantiate_reply_data(addr: &str) -> Vec<u8> {
    let mut v: Vec<u8> = vec![0x0a, addr.len() as u8];
    v.extend_from_slice(addr.as_bytes());
    v
}

fn attr(key: &str, value: &str) -> Attribute {
    Attribute { key: s(key), value: s(value) }
}

#[test]
fn instantiate_records_admin_and_dispatches_provision() {
    let mut store = Store::new();
    let msg = InstantiateMsg {
        cw721_code_id: 7,
        name: s("Converted Collection"),
        symbol: s("CONV"),
        admin: s("alice"),
    };
    let resp = instantiate(&mut store, s("orchestrator"), msg);
    assert_eq!(
        store.config,
        Some(Config { nft_addr: s(""), admin: s("alice") })
    );
    assert_eq!(store.operations, Operations { n_burns: 0, n_mints: 0 });
    assert_eq!(resp.attributes, vec![attr("action", "instantiate")]);
    assert_eq!(
        resp.messages,
        vec![SubOp {
            reply_on: INSTANTIATE_REPLY,
            op: DelegatedOp::Instantiate {
                code_id: 7,
                name: s("Converted Collection"),
                symbol: s("CONV"),
                minter: s("orchestrator"),
            },
        }]
    );
    assert_eq!(resp.data, None);
}

#[test]
fn provision_reply_sets_nft_addr() {
    let mut store = configured_store("", "alice");
    let data = instantiate_reply_data("nft_contract");
    let resp = reply(&mut store, INSTANTIATE_REPLY, Some(data)).unwrap();
    assert!(resp.attributes.is_empty());
    assert!(resp.messages.is_empty());
    assert_eq!(resp.data, None);
    let config = query_config(&store).unwrap();
    assert_eq!(config, ConfigResponse { nft_addr: s("nft_contract") });
    assert_eq!(store.config, Some(Config { nft_addr: s("nft_contract"), admin: s("alice") }));
}

#[test]
fn provision_reply_malformed_payload_rejected() {
    let mut store = configured_store("", "alice");
    let r = reply(&mut store, INSTANTIATE_REPLY, Some(vec![0xff, 0x01]));
    match r {
        Err(e) => assert_eq!(e, ContractError::MalformedReply),
        Ok(_) => panic!("malformed payload must be rejected"),
    }
    let r = reply(&mut store, INSTANTIATE_REPLY, None);
    match r {
        Err(e) => assert_eq!(e, ContractError::MalformedReply),
        Ok(_) => panic!("missing payload must be rejected"),
    }
    assert_eq!(store.config, Some(Config { nft_addr: s(""), admin: s("alice") }));
    assert_eq!(store.operations, Operations { n_burns: 0, n_mints: 0 });
}

#[test]
fn provision_reply_without_config_rejected() {
    let mut store = Store::new();
    let data = instantiate_reply_data("nft_contract");
    match reply(&mut store, INSTANTIATE_REPLY, Some(data)) {
        Err(e) => assert_eq!(e, ContractError::NotFound),
        Ok(_) => panic!("provision reply needs a configuration"),
    }
}

#[test]
fn intake_proceed_round_trip() {
    let mut store = configured_store("new_nft", "alice");
    let receive_msg = ReceiveMsg {
        sender: s("holder"),
        token_id: s("tok1"),
        msg: b"\"succeed\"".to_vec(),
    };
    let resp = execute_receive(&mut store, s("source_nft"), receive_msg, true).unwrap();
    assert!(resp.messages.is_empty());
    // base64 of the raw payload `"succeed"` (quotes included)
    assert_eq!(resp.data, Some(s("tok1holderInN1Y2NlZWQi")));
    assert_eq!(
        resp.attributes,
        vec![
            attr("action", "receive_nft"),
            attr("token_id", "tok1"),
            attr("sender", "holder"),
            attr("msg", "InN1Y2NlZWQi"),
        ]
    );
    let info = query_nft_info(&store, s("tok1")).unwrap();
    assert_eq!(
        info,
        TokenInfoResponse { token_id: s("tok1"), nft_addr: s("source_nft"), sender: s("holder") }
    );
}

#[test]
fn intake_overwrites_existing_record() {
    let rec = TokenInfo { token_id: s("tok1"), nft_addr: s("old_nft"), sender: s("old_holder") };
    let mut store = store_with_custody("new_nft", "alice", rec);
    let receive_msg = ReceiveMsg {
        sender: s("holder"),
        token_id: s("tok1"),
        msg: b"\"succeed\"".to_vec(),
    };
    execute_receive(&mut store, s("source_nft"), receive_msg, true).unwrap();
    assert_eq!(store.custody.len(), 1);
    let info = query_nft_info(&store, s("tok1")).unwrap();
    assert_eq!(
        info,
        TokenInfoResponse { token_id: s("tok1"), nft_addr: s("source_nft"), sender: s("holder") }
    );
}

#[test]
fn intake_abort_leaves_no_trace() {
    let mut store = configured_store("new_nft", "alice");
    let receive_msg = ReceiveMsg {
        sender: s("holder"),
        token_id: s("tok1"),
        msg: b"\"fail\"".to_vec(),
    };
    match execute_receive(&mut store, s("source_nft"), receive_msg, true) {
        Err(e) => assert_eq!(e, ContractError::Failed),
        Ok(_) => panic!("an abort instruction must fail the intake"),
    }
    match query_nft_info(&store, s("tok1")) {
        Err(e) => assert_eq!(e, ContractError::NotFound),
        Ok(_) => panic!("a rejected intake must not write custody"),
    }
}

#[test]
fn intake_malformed_payload_rejected() {
    let mut store = configured_store("new_nft", "alice");
    for payload in [&b"not json"[..], &b"\"bogus\""[..], &b"{}"[..]] {
        let receive_msg = ReceiveMsg {
            sender: s("holder"),
            token_id: s("tok1"),
            msg: payload.to_vec(),
        };
        match execute_receive(&mut store, s("source_nft"), receive_msg, true) {
            Err(e) => assert_eq!(e, ContractError::DeserializationError),
            Ok(_) => panic!("a malformed payload must be rejected"),
        }
    }
    assert!(store.custody.is_empty());
}

#[test]
fn intake_without_confirmed_authority_rejected() {
    let mut store = configured_store("new_nft", "alice");
    let receive_msg = ReceiveMsg {
        sender: s("holder"),
        token_id: s("tok1"),
        msg: b"\"succeed\"".to_vec(),
    };
    match execute_receive(&mut store, s("source_nft"), receive_msg, false) {
        Err(e) => assert_eq!(e, ContractError::RemoteCallFailed),
        Ok(_) => panic!("intake without authority must fail"),
    }
    assert!(store.custody.is_empty());
}

#[test]
fn convert_dispatches_burn_and_mint_and_clears_custody() {
    let rec = TokenInfo { token_id: s("tok1"), nft_addr: s("source_nft"), sender: s("holder") };
    let mut store = store_with_custody("new_nft", "alice", rec);
    let resp = execute_convert(&mut store, s("tok1"), None, Some(s("ipfs://meta"))).unwrap();
    assert_eq!(resp.attributes, vec![attr("action", "convert")]);
    assert_eq!(
        resp.messages,
        vec![
            SubOp {
                reply_on: BURN_REPLY,
                op: DelegatedOp::Burn { contract_addr: s("source_nft"), token_id: s("tok1") },
            },
            SubOp {
                reply_on: MINT_REPLY,
                op: DelegatedOp::Mint {
                    contract_addr: s("new_nft"),
                    token_id: s("tok1"),
                    owner: s("holder"),
                    token_uri: Some(s("ipfs://meta")),
                    extension: None,
                },
            },
        ]
    );
    match query_nft_info(&store, s("tok1")) {
        Err(e) => assert_eq!(e, ContractError::NotFound),
        Ok(_) => panic!("conversion must clear the custody record"),
    }
    // the counters move only when the completions are confirmed
    assert_eq!(store.operations, Operations { n_burns: 0, n_mints: 0 });
}

#[test]
fn convert_unknown_token_rejected() {
    let mut store = configured_store("new_nft", "alice");
    match execute_convert(&mut store, s("tok1"), None, None) {
        Err(e) => assert_eq!(e, ContractError::NotFound),
        Ok(_) => panic!("conversion without custody must fail"),
    }
}

#[test]
fn convert_without_config_rejected() {
    let mut store = Store::new();
    store.custody.push(TokenInfo {
        token_id: s("tok1"),
        nft_addr: s("source_nft"),
        sender: s("holder"),
    });
    match execute_convert(&mut store, s("tok1"), None, None) {
        Err(e) => assert_eq!(e, ContractError::NotFound),
        Ok(_) => panic!("conversion without a configuration must fail"),
    }
    // the custody record is still there: nothing was committed
    assert_eq!(store.custody.len(), 1);
}

#[test]
fn mint_by_admin_dispatches_mint() {
    let store = configured_store("new_nft", "alice");
    let resp = execute_mint(&store, s("alice"), s("tok9"), s("bob"), None, Some(s("uri"))).unwrap();
    assert_eq!(resp.attributes, vec![attr("action", "mint")]);
    assert_eq!(
        resp.messages,
        vec![SubOp {
            reply_on: MINT_REPLY,
            op: DelegatedOp::Mint {
                contract_addr: s("new_nft"),
                token_id: s("tok9"),
                owner: s("bob"),
                token_uri: Some(s("uri")),
                extension: None,
            },
        }]
    );
}

#[test]
fn mint_by_non_admin_unauthorized() {
    let mut store = configured_store("new_nft", "alice");
    match execute_mint(&store, s("mallory"), s("tok9"), s("mallory"), None, None) {
        Err(e) => assert_eq!(e, ContractError::Unauthorized),
        Ok(_) => panic!("only the admin may mint"),
    }
    // nothing was dispatched, so no completion ever moves the counters
    let ops = query_operations(&store).unwrap();
    assert_eq!(ops.n_burns, 0);
    assert_eq!(ops.n_mints, 0);
    match reply(&mut store, 9, None) {
        Err(e) => assert_eq!(e, ContractError::UnrecognizedReply),
        Ok(_) => panic!("unknown reply id must be rejected"),
    }
    let ops = query_operations(&store).unwrap();
    assert_eq!(ops.n_burns, 0);
    assert_eq!(ops.n_mints, 0);
}

#[test]
fn mint_without_config_rejected() {
    let store = Store::new();
    match execute_mint(&store, s("alice"), s("tok9"), s("bob"), None, None) {
        Err(e) => assert_eq!(e, ContractError::NotFound),
        Ok(_) => panic!("mint without a configuration must fail"),
    }
}

#[test]
fn counters_move_only_on_confirmed_completions() {
    let mut store = configured_store("new_nft", "alice");
    let ops = query_operations(&store).unwrap();
    assert_eq!((ops.n_burns, ops.n_mints), (0, 0));

    let resp = reply(&mut store, BURN_REPLY, None).unwrap();
    assert_eq!(resp.attributes, vec![attr("Operation", "burn")]);
    let ops = query_operations(&store).unwrap();
    assert_eq!((ops.n_burns, ops.n_mints), (1, 0));

    let resp = reply(&mut store, MINT_REPLY, None).unwrap();
    assert_eq!(resp.attributes, vec![attr("Operation", "mint")]);
    let ops = query_operations(&store).unwrap();
    assert_eq!((ops.n_burns, ops.n_mints), (1, 1));

    let resp = reply(&mut store, BURN_REPLY, None).unwrap();
    assert_eq!(resp.attributes, vec![attr("Operation", "burn")]);
    let ops = query_operations(&store).unwrap();
    assert_eq!((ops.n_burns, ops.n_mints), (2, 1));
}

#[test]
fn unknown_reply_id_rejected_and_changes_nothing() {
    let mut store = configured_store("new_nft", "alice");
    store.operations = Operations { n_burns: 5, n_mints: 3 };
    let before = store.clone();
    match reply(&mut store, 42, Some(b"payload".to_vec())) {
        Err(e) => assert_eq!(e, ContractError::UnrecognizedReply),
        Ok(_) => panic!("unknown reply id must be rejected"),
    }
    assert_eq!(store, before);
}

#[test]
fn execute_routes_by_message() {
    let mut store = configured_store("new_nft", "alice");
    let msg = ExecuteMsg::Mint {
        token_id: s("tok9"),
        recipient: s("bob"),
        extension: None,
        token_uri: None,
    };
    let resp = execute(&mut store, s("alice"), false, msg).unwrap();
    assert_eq!(resp.attributes, vec![attr("action", "mint")]);

    let msg = ExecuteMsg::ReceiveNft(ReceiveMsg {
        sender: s("holder"),
        token_id: s("tok1"),
        msg: b"\"succeed\"".to_vec(),
    });
    let resp = execute(&mut store, s("source_nft"), true, msg).unwrap();
    assert_eq!(resp.attributes[0], attr("action", "receive_nft"));

    let msg = ExecuteMsg::Convert { token_id: s("tok1"), extension: None, token_uri: None };
    let resp = execute(&mut store, s("anyone"), false, msg).unwrap();
    assert_eq!(resp.attributes, vec![attr("action", "convert")]);
}

#[test]
fn query_routes_by_message() {
    let rec = TokenInfo { token_id: s("tok1"), nft_addr: s("source_nft"), sender: s("holder") };
    let store = store_with_custody("new_nft", "alice", rec);
    match query(&store, QueryMsg::Config {}) {
        Ok(QueryAnswer::Config(resp)) => assert_eq!(resp.nft_addr, s("new_nft")),
        _ => panic!("config query must answer with the configuration"),
    }
    match query(&store, QueryMsg::Operations {}) {
        Ok(QueryAnswer::Operations(resp)) => assert_eq!((resp.n_burns, resp.n_mints), (0, 0)),
        _ => panic!("operations query must answer with the counters"),
    }
    match query(&store, QueryMsg::TokenInfo { token_id: s("tok1") }) {
        Ok(QueryAnswer::TokenInfo(resp)) => {
            assert_eq!(resp.nft_addr, s("source_nft"));
            assert_eq!(resp.sender, s("holder"));
            assert_eq!(resp.token_id, s("tok1"));
        }
        _ => panic!("token info query must answer with the record"),
    }
    match query(&store, QueryMsg::TokenInfo { token_id: s("missing") }) {
        Err(e) => assert_eq!(e, ContractError::NotFound),
        _ => panic!("token info query for an unknown token must fail"),
    }
}

#[test]
fn query_config_before_instantiate_rejected() {
    let store = Store::new();
    match query_config(&store) {
        Err(e) => assert_eq!(e, ContractError::NotFound),
        Ok(_) => panic!("config query before instantiation must fail"),
    }
}
