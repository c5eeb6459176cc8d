//! The client: configuration, the two request builders, and the shared
//! response handler.
//!
//! The client itself performs no network exchange: `sponsored` and
//! `paymaster` hand back a fully prepared request (URL, API-key header,
//! JSON body), and `handle_response` classifies the raw status and body the
//! caller got back. Transport failures happen outside the library; the
//! caller records them as `Error::TransportError`.

use vstd::prelude::*;
use vstd::string::*;
use crate::codec::{decode_response, sp_decode_response};
use crate::json::no_quote;
use crate::in_types::{
    encode_request, spec_encode_request, spec_paymaster_request, spec_sponsored_request, Request,
    TxData,
};
use crate::out_types::{view_opt_string, Response};

verus! {

/// How a call fails. Every failure is surfaced to the caller as a value;
/// nothing is retried or swallowed.
#[derive(Debug, PartialEq, Eq)]
pub enum Error {
    /// Required configuration is missing: sponsorship needs an API key.
    /// Raised before any network activity.
    ConfigurationError,
    /// The network exchange failed before a response was obtained; carries
    /// the transport's own description of the cause.
    TransportError(String),
    /// The service answered with a non-success status; the status and the
    /// body text are preserved verbatim.
    ApiError { status: u16, body: String },
    /// A success body did not match the expected response shape; carries the
    /// rejected body verbatim as the diagnostic.
    DecodeError(String),
}

/// A fully prepared HTTP exchange: where to POST, which API key to attach as
/// the `X-API-Key` header (with `Content-Type: application/json`), and the
/// JSON body. The caller performs the POST and hands the raw status and body
/// back to `handle_response`.
#[derive(Debug)]
pub struct PreparedRequest {
    pub url: String,
    pub api_key: Option<String>,
    pub body: String,
}

/// Configuration of the client: immutable per instance, read on every call.
#[derive(Debug)]
pub struct ClientZyFi {
    /// API key to authenticate with the service; required for sponsorship.
    pub api_key: Option<String>,
    /// Address of the token to pay fees with, for the fee-paying endpoint.
    pub fee_token_address: Option<String>,
    /// Whether to address the testnet or the mainnet.
    pub testnet: bool,
    /// Chain to build transactions for.
    pub chain_id: u32,
}

impl Default for ClientZyFi {
    /// No API key, no fee token, mainnet, and the ZkSync mainnet chain.
    fn default() -> (c: Self)
        ensures
            c.api_key is None,
            c.fee_token_address is None,
            !c.testnet,
            c.chain_id == 324,
    {
        ClientZyFi { api_key: None, fee_token_address: None, testnet: false, chain_id: 324 }
    }
}

/// Whether a status code counts as success.
pub open spec fn is_success_status(status: u16) -> bool {
    200 <= status < 300
}

impl ClientZyFi {
    /// Prepare a fully sponsored request: ratio 100, replay limit 1, no
    /// fee-token address, POSTed to the sponsored endpoint with the API key.
    /// Fails with `ConfigurationError`, before anything else happens, exactly
    /// when no API key is configured. The transaction fields are hex strings
    /// and are spliced into the JSON frame verbatim, so they must carry no
    /// double quote.
    pub fn sponsored(&self, tx_from: String, tx_to: String, tx_data: String) -> (r: Result<
        PreparedRequest,
        Error,
    >)
        requires
            no_quote(tx_from@),
            no_quote(tx_to@),
            no_quote(tx_data@),
        ensures
            match r {
                Ok(p) => self.api_key is Some && p.url@
                    == "https://api.zyfi.org/api/erc20_sponsored_paymaster/v1"@ && view_opt_string(
                    p.api_key,
                ) == view_opt_string(self.api_key) && p.body@ == spec_encode_request(
                    spec_sponsored_request(
                        self.chain_id,
                        self.testnet,
                        tx_from@,
                        tx_to@,
                        tx_data@,
                    ),
                ),
                Err(e) => self.api_key is None && e == Error::ConfigurationError,
            },
    {
        let key = match &self.api_key {
            None => {
                return Err(Error::ConfigurationError);
            },
            Some(k) => k.clone(),
        };
        let request = Request {
            chain_id: self.chain_id,
            fee_token_address: None,
            sponsorship_ratio: Some(100),
            replay_limit: Some(1),
            tx_data: TxData { from: tx_from, to: tx_to, data: tx_data },
            is_testnet: self.testnet,
        };
        let body = encode_request(&request);
        proof {
            assert(request@ =~= spec_sponsored_request(
                self.chain_id,
                self.testnet,
                request.tx_data.from@,
                request.tx_data.to@,
                request.tx_data.data@,
            ));
        }
        Ok(
            PreparedRequest {
                url: String::from_str("https://api.zyfi.org/api/erc20_sponsored_paymaster/v1"),
                api_key: Some(key),
                body,
            },
        )
    }

    /// Prepare a fee-paying request: no sponsorship fields, the fee-token
    /// address exactly as configured (the remote API defines the behaviour
    /// when it is absent), POSTed to the fee-paymaster endpoint without any
    /// API key, whether or not one is configured. As with the sponsored
    /// variant, the transaction fields must carry no double quote.
    pub fn paymaster(&self, tx_from: String, tx_to: String, tx_data: String) -> (p:
        PreparedRequest)
        requires
            no_quote(tx_from@),
            no_quote(tx_to@),
            no_quote(tx_data@),
            self.fee_token_address matches Some(a) ==> no_quote(a@),
        ensures
            p.url@ == "https://api.zyfi.org/api/erc20_paymaster/v1"@,
            p.api_key is None,
            p.body@ == spec_encode_request(
                spec_paymaster_request(
                    self.chain_id,
                    self.testnet,
                    view_opt_string(self.fee_token_address),
                    tx_from@,
                    tx_to@,
                    tx_data@,
                ),
            ),
    {
        let fee_token_address = match &self.fee_token_address {
            None => None,
            Some(s) => Some(s.clone()),
        };
        let request = Request {
            chain_id: self.chain_id,
            fee_token_address,
            sponsorship_ratio: None,
            replay_limit: None,
            tx_data: TxData { from: tx_from, to: tx_to, data: tx_data },
            is_testnet: self.testnet,
        };
        let body = encode_request(&request);
        proof {
            assert(request@ =~= spec_paymaster_request(
                self.chain_id,
                self.testnet,
                view_opt_string(self.fee_token_address),
                request.tx_data.from@,
                request.tx_data.to@,
                request.tx_data.data@,
            ));
        }
        PreparedRequest {
            url: String::from_str("https://api.zyfi.org/api/erc20_paymaster/v1"),
            api_key: None,
            body,
        }
    }

    /// Classify a raw response. A success status whose body is JSON text of
    /// the response shape yields the decoded value; a success status with any
    /// other body fails with `DecodeError` carrying that body; a non-success
    /// status fails with `ApiError`, the status and the body text kept
    /// verbatim.
    pub fn handle_response(&self, status: u16, body: String) -> (r: Result<Response, Error>)
        ensures
            match r {
                Ok(resp) => is_success_status(status) && sp_decode_response(body@) == Some(resp@),
                Err(e) => match e {
                    Error::DecodeError(d) => is_success_status(status) && d@ == body@
                        && sp_decode_response(
                        body@,
                    ) is None,
                    Error::ApiError { status: st, body: b } => !is_success_status(status) && st
                        == status && b@ == body@,
                    _ => false,
                },
            },
    {
        if 200 <= status && status < 300 {
            match decode_response(body.as_str()) {
                Some(resp) => Ok(resp),
                None => Err(Error::DecodeError(body)),
            }
        } else {
            Err(Error::ApiError { status, body })
        }
    }
}

} // verus!
