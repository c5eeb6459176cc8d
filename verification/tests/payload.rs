use zyfi_client::in_types::{encode_request, Request, TxData};
use zyfi_client::{ClientZyFi, Error};

const MAINNET_TX_FROM: &str = "0xd1e5e09ef8f5ab7d59c14d8a0847e76a71163a82";
const MAINNET_TX_TO: &str = "0x95b3641d549f719eb5105f9550eca4a7a2f305de";
const MAINNET_TX_DATA: &str = "0xd204c45e000000000000000000000000d1e5e09ef8f5ab7d59c14d8a0847e76a71163a82";

#[test]
fn sponsored_payload_carries_fixed_sponsorship_fields() {
    let client = ClientZyFi {
        api_key: Some("k".to_string()),
        ..ClientZyFi::default()
    };
    let prepared = client
        .sponsored(
            MAINNET_TX_FROM.to_string(),
            MAINNET_TX_TO.to_string(),
            MAINNET_TX_DATA.to_string(),
        )
        .unwrap();
    assert!(prepared.body.contains("\"sponsorshipRatio\":100"));
    assert!(prepared.body.contains("\"replayLimit\":1"));
    assert!(!prepared.body.contains("feeTokenAddress"));
    assert_eq!(
        prepared.url,
        "https://api.zyfi.org/api/erc20_sponsored_paymaster/v1"
    );
    assert_eq!(prepared.api_key.as_deref(), Some("k"));
}

#[test]
fn sponsored_payload_exact_text() {
    let client = ClientZyFi {
        api_key: Some("k".to_string()),
        testnet: true,
        chain_id: 300,
        ..ClientZyFi::default()
    };
    let prepared = client
        .sponsored("0xAA".to_string(), "0xBB".to_string(), "0xCC".to_string())
        .unwrap();
    assert_eq!(
        prepared.body,
        "{\"chainId\":300,\"sponsorshipRatio\":100,\"replayLimit\":1,\
         \"txData\":{\"from\":\"0xAA\",\"to\":\"0xBB\",\"data\":\"0xCC\"},\"isTestnet\":true}"
    );
}

#[test]
fn paymaster_payload_carries_fee_token_only_when_configured() {
    let with_token = ClientZyFi {
        fee_token_address: Some("0xBD4372e44c5eE654dd838304006E1f0f69983154".to_string()),
        ..ClientZyFi::default()
    };
    let prepared = with_token.paymaster(
        MAINNET_TX_FROM.to_string(),
        MAINNET_TX_TO.to_string(),
        MAINNET_TX_DATA.to_string(),
    );
    assert!(prepared
        .body
        .contains("\"feeTokenAddress\":\"0xBD4372e44c5eE654dd838304006E1f0f69983154\""));
    assert!(!prepared.body.contains("sponsorshipRatio"));
    assert!(!prepared.body.contains("replayLimit"));
    assert_eq!(prepared.url, "https://api.zyfi.org/api/erc20_paymaster/v1");
    assert!(prepared.api_key.is_none());

    let without_token = ClientZyFi::default();
    let prepared = without_token.paymaster(
        MAINNET_TX_FROM.to_string(),
        MAINNET_TX_TO.to_string(),
        MAINNET_TX_DATA.to_string(),
    );
    assert!(!prepared.body.contains("feeTokenAddress"));
    assert!(!prepared.body.contains("sponsorshipRatio"));
    assert!(!prepared.body.contains("replayLimit"));
}

#[test]
fn paymaster_payload_exact_text() {
    let client = ClientZyFi {
        fee_token_address: Some("0xb4B7".to_string()),
        testnet: true,
        chain_id: 300,
        ..ClientZyFi::default()
    };
    let prepared = client.paymaster("0xAA".to_string(), "0xBB".to_string(), "0xCC".to_string());
    assert_eq!(
        prepared.body,
        "{\"chainId\":300,\"feeTokenAddress\":\"0xb4B7\",\
         \"txData\":{\"from\":\"0xAA\",\"to\":\"0xBB\",\"data\":\"0xCC\"},\"isTestnet\":true}"
    );
}

#[test]
fn sponsored_without_api_key_fails_before_any_network_call() {
    let client = ClientZyFi::default();
    // A stand-in transport that counts how often it would have been invoked:
    // the builder must fail before the caller ever reaches it.
    let mut transport_invocations = 0;
    let result = client.sponsored("0xAA".to_string(), "0xBB".to_string(), "0xCC".to_string());
    if result.is_ok() {
        transport_invocations += 1;
    }
    assert_eq!(transport_invocations, 0);
    assert_eq!(result.unwrap_err(), Error::ConfigurationError);
}

#[test]
fn all_optional_keys_are_printed_when_present() {
    let request = Request {
        chain_id: u32::MAX,
        fee_token_address: Some("0xF".to_string()),
        sponsorship_ratio: Some(0),
        replay_limit: Some(255),
        tx_data: TxData {
            from: "a".to_string(),
            to: "b".to_string(),
            data: "c".to_string(),
        },
        is_testnet: false,
    };
    assert_eq!(
        encode_request(&request),
        "{\"chainId\":4294967295,\"feeTokenAddress\":\"0xF\",\"sponsorshipRatio\":0,\
         \"replayLimit\":255,\"txData\":{\"from\":\"a\",\"to\":\"b\",\"data\":\"c\"},\
         \"isTestnet\":false}"
    );
}

#[test]
fn default_client_targets_zksync_mainnet() {
    let client = ClientZyFi::default();
    assert_eq!(client.chain_id, 324);
    assert!(!client.testnet);
    assert!(client.api_key.is_none());
    assert!(client.fee_token_address.is_none());
}

#[test]
fn chain_id_zero_is_printed_as_a_single_digit() {
    let client = ClientZyFi {
        chain_id: 0,
        ..ClientZyFi::default()
    };
    let prepared = client.paymaster("a".to_string(), "b".to_string(), "c".to_string());
    assert!(prepared.body.starts_with("{\"chainId\":0,"));
}

#[test]
fn empty_transaction_fields_are_kept_as_empty_strings() {
    let client = ClientZyFi {
        api_key: Some("k".to_string()),
        ..ClientZyFi::default()
    };
    let prepared = client
        .sponsored(String::new(), String::new(), String::new())
        .unwrap();
    assert!(prepared
        .body
        .contains("\"txData\":{\"from\":\"\",\"to\":\"\",\"data\":\"\"}"));
}
