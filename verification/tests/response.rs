use zyfi_client::out_types::{CustomData, PaymasterParams, Response, TxData};
use zyfi_client::codec::decode_response;
use zyfi_client::out_types::encode_response;
use zyfi_client::{ClientZyFi, Error};

fn sample_body_without_optionals() -> String {
    "{\"txData\":{\"chainId\":324,\"from\":\"0xAA\",\"to\":\"0xBB\",\"data\":\"0xCC\",\
     \"value\":\"0\",\"customData\":{\"paymasterParams\":{\"paymaster\":\"0xPM\",\
     \"paymasterInput\":\"0x00\"},\"gasPerPubdata\":50000},\"maxFeePerGas\":\"25000000\",\
     \"gasLimit\":21000},\"gasLimit\":\"400000\",\"gasPrice\":\"25000000\",\
     \"tokenAddress\":\"0xT\",\"tokenPrice\":\"0.99\",\"feeTokenAmount\":\"12345\",\
     \"feeTokendecimals\":\"18\",\"feeUSD\":\"0.02\",\"markup\":\"1.1\",\
     \"expirationTime\":\"1700000000\",\"expiresIn\":\"300\"}"
        .to_string()
}

fn sample_response_with_optionals() -> Response {
    Response {
        tx_data: TxData {
            chain_id: 324,
            from: "0xAA".to_string(),
            to: "0xBB".to_string(),
            data: "0xCC".to_string(),
            value: "0".to_string(),
            custom_data: CustomData {
                paymaster_params: PaymasterParams {
                    paymaster: "0xPM".to_string(),
                    paymaster_input: "0x00".to_string(),
                },
                gas_per_pubdata: 50000,
            },
            max_fee_per_gas: "25000000".to_string(),
            gas_limit: 21000,
        },
        gas_limit: "400000".to_string(),
        gas_price: "25000000".to_string(),
        token_address: "0xT".to_string(),
        token_price: "0.99".to_string(),
        fee_token_amount: "12345".to_string(),
        fee_token_decimals: "18".to_string(),
        fee_usd: "0.02".to_string(),
        markup: "1.1".to_string(),
        expiration_time: "1700000000".to_string(),
        expires_in: "300".to_string(),
        max_nonce: Some("42".to_string()),
        protocol_address: Some("0xPROTO".to_string()),
        sponsorship_ratio: Some("100".to_string()),
        estimated_final_fee_token_amount: Some("11000".to_string()),
        estimated_final_fee_usd: Some("0.018".to_string()),
    }
}

#[test]
fn success_body_decodes_field_for_field() {
    let client = ClientZyFi::default();
    let decoded = client
        .handle_response(200, sample_body_without_optionals())
        .unwrap();
    assert_eq!(decoded.tx_data.chain_id, 324);
    assert_eq!(decoded.tx_data.from, "0xAA");
    assert_eq!(decoded.tx_data.to, "0xBB");
    assert_eq!(decoded.tx_data.data, "0xCC");
    assert_eq!(decoded.tx_data.value, "0");
    assert_eq!(decoded.tx_data.custom_data.paymaster_params.paymaster, "0xPM");
    assert_eq!(
        decoded.tx_data.custom_data.paymaster_params.paymaster_input,
        "0x00"
    );
    assert_eq!(decoded.tx_data.custom_data.gas_per_pubdata, 50000);
    assert_eq!(decoded.tx_data.max_fee_per_gas, "25000000");
    assert_eq!(decoded.tx_data.gas_limit, 21000);
    assert_eq!(decoded.gas_limit, "400000");
    assert_eq!(decoded.gas_price, "25000000");
    assert_eq!(decoded.token_address, "0xT");
    assert_eq!(decoded.token_price, "0.99");
    assert_eq!(decoded.fee_token_amount, "12345");
    assert_eq!(decoded.fee_token_decimals, "18");
    assert_eq!(decoded.fee_usd, "0.02");
    assert_eq!(decoded.markup, "1.1");
    assert_eq!(decoded.expiration_time, "1700000000");
    assert_eq!(decoded.expires_in, "300");
    assert_eq!(decoded.max_nonce, None);
    assert_eq!(decoded.protocol_address, None);
    assert_eq!(decoded.sponsorship_ratio, None);
    assert_eq!(decoded.estimated_final_fee_token_amount, None);
    assert_eq!(decoded.estimated_final_fee_usd, None);
}

#[test]
fn error_status_preserves_body_verbatim() {
    let client = ClientZyFi::default();
    let result = client.handle_response(402, "insufficient balance".to_string());
    match result {
        Err(Error::ApiError { status, body }) => {
            assert_eq!(status, 402);
            assert_eq!(body, "insufficient balance");
        }
        other => panic!("expected ApiError, got {:?}", other),
    }
}

#[test]
fn missing_tx_data_fails_with_decode_error() {
    let client = ClientZyFi::default();
    let body = "{\"gasLimit\":\"400000\"}".to_string();
    let result = client.handle_response(200, body.clone());
    assert_eq!(result.unwrap_err(), Error::DecodeError(body));
}

#[test]
fn round_trip_with_all_optionals() {
    let original = sample_response_with_optionals();
    let text = encode_response(&original);
    let decoded = decode_response(&text).unwrap();
    assert_eq!(decoded, original);
}

#[test]
fn round_trip_without_optionals() {
    let mut original = sample_response_with_optionals();
    original.max_nonce = None;
    original.protocol_address = None;
    original.sponsorship_ratio = None;
    original.estimated_final_fee_token_amount = None;
    original.estimated_final_fee_usd = None;
    let text = encode_response(&original);
    assert_eq!(text, sample_body_without_optionals());
    let decoded = decode_response(&text).unwrap();
    assert_eq!(decoded, original);
}

#[test]
fn round_trip_with_some_optionals_absent() {
    let mut original = sample_response_with_optionals();
    original.max_nonce = None;
    original.sponsorship_ratio = None;
    original.estimated_final_fee_usd = None;
    let text = encode_response(&original);
    let decoded = decode_response(&text).unwrap();
    assert_eq!(decoded, original);
}

#[test]
fn round_trip_with_extreme_numeric_values() {
    let mut original = sample_response_with_optionals();
    original.tx_data.chain_id = u32::MAX;
    original.tx_data.gas_limit = u64::MAX;
    original.tx_data.custom_data.gas_per_pubdata = 0;
    let text = encode_response(&original);
    let decoded = decode_response(&text).unwrap();
    assert_eq!(decoded, original);
}

#[test]
fn status_boundaries_classify_like_the_transport() {
    let client = ClientZyFi::default();
    let body = sample_body_without_optionals();
    assert!(client.handle_response(299, body.clone()).is_ok());
    assert!(matches!(
        client.handle_response(300, body.clone()),
        Err(Error::ApiError { status: 300, .. })
    ));
    assert!(matches!(
        client.handle_response(199, body.clone()),
        Err(Error::ApiError { status: 199, .. })
    ));
    assert!(matches!(
        client.handle_response(500, body),
        Err(Error::ApiError { status: 500, .. })
    ));
}

#[test]
fn malformed_bodies_fail_with_decode_error() {
    let client = ClientZyFi::default();
    // truncated body
    let mut body = sample_body_without_optionals();
    body.pop();
    assert!(matches!(
        client.handle_response(200, body).unwrap_err(),
        Error::DecodeError(_)
    ));
    // trailing garbage
    let mut body = sample_body_without_optionals();
    body.push_str("xyz");
    assert!(matches!(
        client.handle_response(200, body).unwrap_err(),
        Error::DecodeError(_)
    ));
    // a numeric field that overflows a u64
    let body = sample_body_without_optionals().replace("\"gasLimit\":21000", "\"gasLimit\":99999999999999999999");
    assert!(matches!(
        client.handle_response(200, body).unwrap_err(),
        Error::DecodeError(_)
    ));
    // a number with a leading zero is not JSON
    let body = sample_body_without_optionals().replace("\"gasLimit\":21000", "\"gasLimit\":021000");
    assert!(matches!(
        client.handle_response(200, body).unwrap_err(),
        Error::DecodeError(_)
    ));
    // empty body
    assert!(matches!(
        client.handle_response(200, String::new()).unwrap_err(),
        Error::DecodeError(_)
    ));
}


#[test]
fn whitespace_and_member_order_do_not_matter() {
    let client = ClientZyFi::default();
    // the example shape of the API documentation: spaces after the colons
    let spaced = sample_body_without_optionals()
        .replace(":", ": ")
        .replace(",", ",\n ");
    let decoded = client.handle_response(200, spaced).unwrap();
    assert_eq!(decoded.gas_limit, "400000");
    // members in another order
    let reordered = "{ \"gasLimit\": \"400000\", \"gasPrice\": \"25000000\",\
     \"tokenAddress\": \"0xT\", \"tokenPrice\": \"0.99\", \"feeTokenAmount\": \"12345\",\
     \"feeTokendecimals\": \"18\", \"feeUSD\": \"0.02\", \"markup\": \"1.1\",\
     \"expirationTime\": \"1700000000\", \"expiresIn\": \"300\", \"maxNonce\": \"42\",\
     \"txData\": {\"gasLimit\": 21000, \"chainId\": 324, \"from\": \"0xAA\", \"to\": \"0xBB\",\
     \"data\": \"0xCC\", \"value\": \"0\", \"customData\": {\"gasPerPubdata\": 50000,\
     \"paymasterParams\": {\"paymaster\": \"0xPM\", \"paymasterInput\": \"0x00\"}},\
     \"maxFeePerGas\": \"25000000\"} }"
        .to_string();
    let decoded = client.handle_response(200, reordered).unwrap();
    assert_eq!(decoded.tx_data.chain_id, 324);
    assert_eq!(decoded.max_nonce.as_deref(), Some("42"));
    assert_eq!(decoded.protocol_address, None);
}

#[test]
fn unknown_members_are_ignored() {
    let client = ClientZyFi::default();
    let body = sample_body_without_optionals().replace(
        "\"gasPrice\":",
        "\"somethingNew\": [1, {\"x\": null}, true, \"y\"], \"gasPrice\":",
    );
    let decoded = client.handle_response(200, body).unwrap();
    assert_eq!(decoded.gas_price, "25000000");
}

#[test]
fn duplicate_members_are_rejected() {
    let client = ClientZyFi::default();
    let body = sample_body_without_optionals().replace(
        "\"gasPrice\":",
        "\"markup\": \"9\", \"gasPrice\":",
    );
    assert!(matches!(
        client.handle_response(200, body).unwrap_err(),
        Error::DecodeError(_)
    ));
}
