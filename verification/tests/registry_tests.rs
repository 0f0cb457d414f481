use mevcat::method::Method;
use mevcat::registry::{router, Registry, RegistryError};

const ZERO_HASH: &str = "0x0000000000000000000000000000000000000000000000000000000000000000";

#[test]
fn test_register_duplicate_name_refused() {
    let mut reg = Registry::new();
    assert!(reg.register("eth_sendBundle".to_string(), Method::SendBundle).is_ok());
    assert_eq!(
        reg.register("eth_sendBundle".to_string(), Method::CancelBundle),
        Err(RegistryError::DuplicateName)
    );
}

#[test]
fn test_duplicate_registration_does_not_overwrite() {
    let mut reg = Registry::new();
    reg.register("relay_cancel".to_string(), Method::CancelBundle).unwrap();
    assert!(reg.register("relay_cancel".to_string(), Method::SendBundle).is_err());
    let out = reg.dispatch(
        "{\"jsonrpc\":\"2.0\",\"id\":1,\"method\":\"relay_cancel\",\"params\":[{\"replacementUuid\":\"x\"}]}",
    );
    assert_eq!(out.response, "{\"jsonrpc\":\"2.0\",\"id\":1,\"result\":null}");
}

#[test]
fn test_dispatch_parse_error() {
    let reg = router();
    let out = reg.dispatch("this is not json");
    assert_eq!(
        out.response,
        "{\"jsonrpc\":\"2.0\",\"id\":null,\"error\":{\"code\":-32700,\"message\":\"parse error\"}}"
    );
    assert!(out.notifications.is_empty());
}

#[test]
fn test_dispatch_invalid_request_without_method() {
    let reg = router();
    let out = reg.dispatch("{\"jsonrpc\":\"2.0\",\"id\":3}");
    assert_eq!(
        out.response,
        "{\"jsonrpc\":\"2.0\",\"id\":3,\"error\":{\"code\":-32600,\"message\":\"invalid request\"}}"
    );
}

#[test]
fn test_dispatch_method_not_found() {
    let reg = router();
    let out = reg.dispatch(
        "{\"jsonrpc\":\"2.0\",\"id\":7,\"method\":\"eth_unknown\",\"params\":[]}",
    );
    assert_eq!(
        out.response,
        "{\"jsonrpc\":\"2.0\",\"id\":7,\"error\":{\"code\":-32601,\"message\":\"method not found\"}}"
    );
}

#[test]
fn test_dispatch_method_not_found_null_id() {
    let reg = router();
    let out = reg.dispatch("{\"jsonrpc\":\"2.0\",\"method\":\"eth_unknown\",\"params\":[]}");
    assert_eq!(
        out.response,
        "{\"jsonrpc\":\"2.0\",\"id\":null,\"error\":{\"code\":-32601,\"message\":\"method not found\"}}"
    );
}

#[test]
fn test_dispatch_send_bundle_success() {
    let reg = router();
    let out = reg.dispatch(
        "{\"jsonrpc\":\"2.0\",\"id\":1,\"method\":\"eth_sendBundle\",\"params\":[{\"txs\":[\"0xdead\"],\"blockNumber\":\"0x1361bd3\"}]}",
    );
    let expected = format!(
        "{{\"jsonrpc\":\"2.0\",\"id\":1,\"result\":{{\"bundleHash\":\"{}\"}}}}",
        ZERO_HASH
    );
    assert_eq!(out.response, expected);
    let val: serde_json::Value = serde_json::from_str(&out.response).unwrap();
    assert!(val.get("result").and_then(|r| r.get("bundleHash")).is_some());
}

#[test]
fn test_dispatch_send_bundle_empty_params() {
    let reg = router();
    let out = reg.dispatch(
        "{\"jsonrpc\":\"2.0\",\"id\":1,\"method\":\"eth_sendBundle\",\"params\":[]}",
    );
    assert_eq!(
        out.response,
        "{\"jsonrpc\":\"2.0\",\"id\":1,\"error\":{\"code\":-32000,\"message\":\"Must specify exactly one bundle\"}}"
    );
    assert!(out.response.contains("exactly one bundle"));
}

#[test]
fn test_dispatch_send_bundle_invalid_params() {
    let reg = router();
    let out = reg.dispatch(
        "{\"jsonrpc\":\"2.0\",\"id\":1,\"method\":\"eth_sendBundle\",\"params\":[{\"bogus\":true}]}",
    );
    assert_eq!(
        out.response,
        "{\"jsonrpc\":\"2.0\",\"id\":1,\"error\":{\"code\":-32602,\"message\":\"invalid params: not a valid bundle\"}}"
    );
}

#[test]
fn test_dispatch_params_not_an_array() {
    let reg = router();
    let out = reg.dispatch(
        "{\"jsonrpc\":\"2.0\",\"id\":1,\"method\":\"eth_sendBundle\",\"params\":{\"a\":1}}",
    );
    assert_eq!(
        out.response,
        "{\"jsonrpc\":\"2.0\",\"id\":1,\"error\":{\"code\":-32602,\"message\":\"invalid params: params must be an array\"}}"
    );
}

#[test]
fn test_dispatch_params_absent() {
    let reg = router();
    let out = reg.dispatch("{\"jsonrpc\":\"2.0\",\"id\":1,\"method\":\"eth_sendBundle\"}");
    assert_eq!(
        out.response,
        "{\"jsonrpc\":\"2.0\",\"id\":1,\"error\":{\"code\":-32602,\"message\":\"invalid params: params must be an array\"}}"
    );
}

#[test]
fn test_dispatch_cancel_bundle_acknowledges() {
    let reg = router();
    let out = reg.dispatch(
        "{\"jsonrpc\":\"2.0\",\"id\":4,\"method\":\"eth_cancelBundle\",\"params\":[{\"replacementUuid\":\"1234\"}]}",
    );
    assert_eq!(out.response, "{\"jsonrpc\":\"2.0\",\"id\":4,\"result\":null}");
}

#[test]
fn test_dispatch_call_bundle_simulation_stub() {
    let reg = router();
    let out = reg.dispatch(
        "{\"jsonrpc\":\"2.0\",\"id\":2,\"method\":\"eth_callBundle\",\"params\":[{\"txs\":[\"0xdead\"],\"blockNumber\":\"0x1\",\"stateBlockNumber\":\"latest\"}]}",
    );
    let val: serde_json::Value = serde_json::from_str(&out.response).unwrap();
    let result = val.get("result").unwrap();
    assert_eq!(result.get("bundleHash").unwrap(), ZERO_HASH);
    assert_eq!(result.get("bundleGasPrice").unwrap(), "0");
    assert_eq!(result.get("stateBlockNumber").unwrap(), 0);
    assert!(result.get("results").unwrap().as_array().unwrap().is_empty());
}

#[test]
fn test_dispatch_private_transaction_hash() {
    let reg = router();
    let out = reg.dispatch(
        "{\"jsonrpc\":\"2.0\",\"id\":9,\"method\":\"eth_sendPrivateTransaction\",\"params\":[{\"tx\":\"0xdead\"}]}",
    );
    let expected = format!("{{\"jsonrpc\":\"2.0\",\"id\":9,\"result\":\"{}\"}}", ZERO_HASH);
    assert_eq!(out.response, expected);
}

#[test]
fn test_dispatch_cancel_private_transaction_acknowledges() {
    let reg = router();
    let out = reg.dispatch(
        &format!(
            "{{\"jsonrpc\":\"2.0\",\"id\":5,\"method\":\"eth_cancelPrivateTransaction\",\"params\":[{{\"txHash\":\"{}\"}}]}}",
            ZERO_HASH
        ),
    );
    assert_eq!(out.response, "{\"jsonrpc\":\"2.0\",\"id\":5,\"result\":null}");
}

#[test]
fn test_dispatch_preserves_string_id() {
    let reg = router();
    let out = reg.dispatch(
        "{\"jsonrpc\":\"2.0\",\"id\":\"abc\",\"method\":\"eth_unknown\",\"params\":[]}",
    );
    assert_eq!(
        out.response,
        "{\"jsonrpc\":\"2.0\",\"id\":\"abc\",\"error\":{\"code\":-32601,\"message\":\"method not found\"}}"
    );
}

#[test]
fn test_custom_route_uses_bound_handler() {
    let mut reg = Registry::new();
    reg.register("my_sendBundle".to_string(), Method::SendBundle).unwrap();
    let out = reg.dispatch(
        "{\"jsonrpc\":\"2.0\",\"id\":1,\"method\":\"my_sendBundle\",\"params\":[]}",
    );
    assert!(out.response.contains("exactly one bundle"));
    let out2 = reg.dispatch(
        "{\"jsonrpc\":\"2.0\",\"id\":1,\"method\":\"eth_sendBundle\",\"params\":[]}",
    );
    assert!(out2.response.contains("method not found"));
}

#[test]
fn test_shared_state_does_not_change_replies() {
    let mut reg = router();
    let req = "{\"jsonrpc\":\"2.0\",\"id\":1,\"method\":\"eth_sendBundle\",\"params\":[]}";
    let before = reg.dispatch(req).response;
    reg.set_shared(Some("builder-context".to_string()));
    let after = reg.dispatch(req).response;
    assert_eq!(before, after);
}
