//! Inbound payloads: the decoded API response and its canonical JSON text.
//!
//! Monetary and gas values that the API represents as decimal strings stay
//! strings end to end; only the chain id, the gas-per-pubdata parameter and
//! the gas limit of the transaction object are numeric. The trailing fields
//! (max nonce through estimated final fees) appear only in sponsored
//! responses and decode to an absent state when the payload omits them.

use vstd::prelude::*;
use vstd::string::*;
use crate::json::{num_to_string, spec_num};

verus! {

/// The on-chain transaction description the service returns.
#[derive(Clone, Debug, PartialEq, Eq)]
pub struct TxData {
    pub chain_id: u32,
    pub from: String,
    pub to: String,
    pub data: String,
    pub value: String,
    pub custom_data: CustomData,
    pub max_fee_per_gas: String,
    pub gas_limit: u64,
}

#[derive(Clone, Debug, PartialEq, Eq)]
pub struct CustomData {
    pub paymaster_params: PaymasterParams,
    pub gas_per_pubdata: u64,
}

#[derive(Clone, Debug, PartialEq, Eq)]
pub struct PaymasterParams {
    pub paymaster: String,
    pub paymaster_input: String,
}

/// The full decoded API response.
#[derive(Clone, Debug, PartialEq, Eq)]
pub struct Response {
    pub tx_data: TxData,
    pub gas_limit: String,
    pub gas_price: String,
    pub token_address: String,
    pub token_price: String,
    pub fee_token_amount: String,
    pub fee_token_decimals: String,
    pub fee_usd: String,
    pub markup: String,
    pub expiration_time: String,
    pub expires_in: String,
    pub max_nonce: Option<String>,
    pub protocol_address: Option<String>,
    pub sponsorship_ratio: Option<String>,
    pub estimated_final_fee_token_amount: Option<String>,
    pub estimated_final_fee_usd: Option<String>,
}

#[verifier::ext_equal]
pub ghost struct PaymasterParamsSpec {
    pub paymaster: Seq<char>,
    pub paymaster_input: Seq<char>,
}

#[verifier::ext_equal]
pub ghost struct CustomDataSpec {
    pub paymaster_params: PaymasterParamsSpec,
    pub gas_per_pubdata: u64,
}

#[verifier::ext_equal]
pub ghost struct TxDataSpec {
    pub chain_id: u32,
    pub from: Seq<char>,
    pub to: Seq<char>,
    pub data: Seq<char>,
    pub value: Seq<char>,
    pub custom_data: CustomDataSpec,
    pub max_fee_per_gas: Seq<char>,
    pub gas_limit: u64,
}

#[verifier::ext_equal]
pub ghost struct ResponseSpec {
    pub tx_data: TxDataSpec,
    pub gas_limit: Seq<char>,
    pub gas_price: Seq<char>,
    pub token_address: Seq<char>,
    pub token_price: Seq<char>,
    pub fee_token_amount: Seq<char>,
    pub fee_token_decimals: Seq<char>,
    pub fee_usd: Seq<char>,
    pub markup: Seq<char>,
    pub expiration_time: Seq<char>,
    pub expires_in: Seq<char>,
    pub max_nonce: Option<Seq<char>>,
    pub protocol_address: Option<Seq<char>>,
    pub sponsorship_ratio: Option<Seq<char>>,
    pub estimated_final_fee_token_amount: Option<Seq<char>>,
    pub estimated_final_fee_usd: Option<Seq<char>>,
}

pub open spec fn view_opt_string(o: Option<String>) -> Option<Seq<char>> {
    match o {
        Some(s) => Some(s@),
        None => None,
    }
}

impl View for PaymasterParams {
    type V = PaymasterParamsSpec;

    open spec fn view(&self) -> PaymasterParamsSpec {
        PaymasterParamsSpec { paymaster: self.paymaster@, paymaster_input: self.paymaster_input@ }
    }
}

impl View for CustomData {
    type V = CustomDataSpec;

    open spec fn view(&self) -> CustomDataSpec {
        CustomDataSpec {
            paymaster_params: self.paymaster_params@,
            gas_per_pubdata: self.gas_per_pubdata,
        }
    }
}

impl View for TxData {
    type V = TxDataSpec;

    open spec fn view(&self) -> TxDataSpec {
        TxDataSpec {
            chain_id: self.chain_id,
            from: self.from@,
            to: self.to@,
            data: self.data@,
            value: self.value@,
            custom_data: self.custom_data@,
            max_fee_per_gas: self.max_fee_per_gas@,
            gas_limit: self.gas_limit,
        }
    }
}

impl View for Response {
    type V = ResponseSpec;

    open spec fn view(&self) -> ResponseSpec {
        ResponseSpec {
            tx_data: self.tx_data@,
            gas_limit: self.gas_limit@,
            gas_price: self.gas_price@,
            token_address: self.token_address@,
            token_price: self.token_price@,
            fee_token_amount: self.fee_token_amount@,
            fee_token_decimals: self.fee_token_decimals@,
            fee_usd: self.fee_usd@,
            markup: self.markup@,
            expiration_time: self.expiration_time@,
            expires_in: self.expires_in@,
            max_nonce: view_opt_string(self.max_nonce),
            protocol_address: view_opt_string(self.protocol_address),
            sponsorship_ratio: view_opt_string(self.sponsorship_ratio),
            estimated_final_fee_token_amount: view_opt_string(
                self.estimated_final_fee_token_amount,
            ),
            estimated_final_fee_usd: view_opt_string(self.estimated_final_fee_usd),
        }
    }
}

/// A string value between its quotes, with the following text threaded
/// through so the reader peels the whole chain without re-association.
pub open spec fn str_val(v: Seq<char>, rest: Seq<char>) -> Seq<char> {
    "\""@ + (v + ("\""@ + rest))
}

/// A member with a string value: `"key":"v"`, then the following text.
pub open spec fn member_str(key: Seq<char>, v: Seq<char>, rest: Seq<char>) -> Seq<char> {
    str_val(key, ":"@ + str_val(v, rest))
}

/// A member with an unsigned decimal value: `"key":n`, then the following text.
pub open spec fn member_num(key: Seq<char>, n: u64, rest: Seq<char>) -> Seq<char> {
    str_val(key, ":"@ + (spec_num(n as nat) + rest))
}

/// A member whose value is an object; `obj` already carries the following text.
pub open spec fn member_obj(key: Seq<char>, obj: Seq<char>) -> Seq<char> {
    str_val(key, ":"@ + obj)
}

/// An optional member: printed with a leading comma when present, nothing
/// when absent.
pub open spec fn opt_member(o: Option<Seq<char>>, key: Seq<char>, rest: Seq<char>) -> Seq<char> {
    match o {
        None => rest,
        Some(v) => ","@ + member_str(key, v, rest),
    }
}

/// The canonical JSON text of the paymaster parameters, followed by `rest`.
pub open spec fn pm_chain(p: PaymasterParamsSpec, rest: Seq<char>) -> Seq<char> {
    "{"@ + member_str(
        "paymaster"@,
        p.paymaster,
        ","@ + member_str("paymasterInput"@, p.paymaster_input, "}"@ + rest),
    )
}

/// The canonical JSON text of the custom data, followed by `rest`.
pub open spec fn cd_chain(c: CustomDataSpec, rest: Seq<char>) -> Seq<char> {
    "{"@ + member_obj(
        "paymasterParams"@,
        pm_chain(
            c.paymaster_params,
            ","@ + member_num("gasPerPubdata"@, c.gas_per_pubdata, "}"@ + rest),
        ),
    )
}

pub open spec fn tx_m8(t: TxDataSpec, rest: Seq<char>) -> Seq<char> {
    member_num("gasLimit"@, t.gas_limit, "}"@ + rest)
}

pub open spec fn tx_m7(t: TxDataSpec, rest: Seq<char>) -> Seq<char> {
    member_str("maxFeePerGas"@, t.max_fee_per_gas, ","@ + tx_m8(t, rest))
}

pub open spec fn tx_m6(t: TxDataSpec, rest: Seq<char>) -> Seq<char> {
    member_obj("customData"@, cd_chain(t.custom_data, ","@ + tx_m7(t, rest)))
}

pub open spec fn tx_m5(t: TxDataSpec, rest: Seq<char>) -> Seq<char> {
    member_str("value"@, t.value, ","@ + tx_m6(t, rest))
}

pub open spec fn tx_m4(t: TxDataSpec, rest: Seq<char>) -> Seq<char> {
    member_str("data"@, t.data, ","@ + tx_m5(t, rest))
}

pub open spec fn tx_m3(t: TxDataSpec, rest: Seq<char>) -> Seq<char> {
    member_str("to"@, t.to, ","@ + tx_m4(t, rest))
}

pub open spec fn tx_m2(t: TxDataSpec, rest: Seq<char>) -> Seq<char> {
    member_str("from"@, t.from, ","@ + tx_m3(t, rest))
}

/// The canonical JSON text of the transaction object, followed by `rest`.
pub open spec fn tx_chain(t: TxDataSpec, rest: Seq<char>) -> Seq<char> {
    "{"@ + member_num("chainId"@, t.chain_id as u64, ","@ + tx_m2(t, rest))
}

/// The canonical JSON text of the transaction object.
pub open spec fn spec_encode_tx_data(t: TxDataSpec) -> Seq<char> {
    tx_chain(t, Seq::<char>::empty())
}

/// The optional trailing members, each omitted when absent, then the brace
/// that closes the response.
pub open spec fn ro5(r: ResponseSpec) -> Seq<char> {
    opt_member(r.estimated_final_fee_usd, "estimatedFinalFeeUsd"@, "}"@)
}

pub open spec fn ro4(r: ResponseSpec) -> Seq<char> {
    opt_member(r.estimated_final_fee_token_amount, "estimatedFinalFeeTokenAmount"@, ro5(r))
}

pub open spec fn ro3(r: ResponseSpec) -> Seq<char> {
    opt_member(r.sponsorship_ratio, "sponsorshipRatio"@, ro4(r))
}

pub open spec fn ro2(r: ResponseSpec) -> Seq<char> {
    opt_member(r.protocol_address, "protocolAddress"@, ro3(r))
}

pub open spec fn ro1(r: ResponseSpec) -> Seq<char> {
    opt_member(r.max_nonce, "maxNonce"@, ro2(r))
}

pub open spec fn resp_m11(r: ResponseSpec) -> Seq<char> {
    member_str("expiresIn"@, r.expires_in, ro1(r))
}

pub open spec fn resp_m10(r: ResponseSpec) -> Seq<char> {
    member_str("expirationTime"@, r.expiration_time, ","@ + resp_m11(r))
}

pub open spec fn resp_m9(r: ResponseSpec) -> Seq<char> {
    member_str("markup"@, r.markup, ","@ + resp_m10(r))
}

pub open spec fn resp_m8(r: ResponseSpec) -> Seq<char> {
    member_str("feeUSD"@, r.fee_usd, ","@ + resp_m9(r))
}

pub open spec fn resp_m7(r: ResponseSpec) -> Seq<char> {
    member_str("feeTokendecimals"@, r.fee_token_decimals, ","@ + resp_m8(r))
}

pub open spec fn resp_m6(r: ResponseSpec) -> Seq<char> {
    member_str("feeTokenAmount"@, r.fee_token_amount, ","@ + resp_m7(r))
}

pub open spec fn resp_m5(r: ResponseSpec) -> Seq<char> {
    member_str("tokenPrice"@, r.token_price, ","@ + resp_m6(r))
}

pub open spec fn resp_m4(r: ResponseSpec) -> Seq<char> {
    member_str("tokenAddress"@, r.token_address, ","@ + resp_m5(r))
}

pub open spec fn resp_m3(r: ResponseSpec) -> Seq<char> {
    member_str("gasPrice"@, r.gas_price, ","@ + resp_m4(r))
}

pub open spec fn resp_m2(r: ResponseSpec) -> Seq<char> {
    member_str("gasLimit"@, r.gas_limit, ","@ + resp_m3(r))
}

pub open spec fn resp_m1(r: ResponseSpec) -> Seq<char> {
    member_obj("txData"@, tx_chain(r.tx_data, ","@ + resp_m2(r)))
}

/// The canonical JSON text of a response.
pub open spec fn spec_encode_response(r: ResponseSpec) -> Seq<char> {
    "{"@ + resp_m1(r)
}

/// Put `seg` in front of `acc`.
fn prepend(seg: &str, acc: String) -> (r: String)
    ensures
        r@ == seg@ + acc@,
{
    let mut x = String::from_str(seg);
    x.append(acc.as_str());
    x
}

fn push_member_str(key: &str, v: &str, rest: String) -> (r: String)
    ensures
        r@ == member_str(key@, v@, rest@),
{
    let r = prepend("\"", rest);
    let r = prepend(v, r);
    let r = prepend("\"", r);
    let r = prepend(":", r);
    let r = prepend("\"", r);
    let r = prepend(key, r);
    let r = prepend("\"", r);
    r
}

fn push_member_num(key: &str, n: u64, rest: String) -> (r: String)
    ensures
        r@ == member_num(key@, n, rest@),
{
    let num = num_to_string(n);
    let r = prepend(num.as_str(), rest);
    let r = prepend(":", r);
    let r = prepend("\"", r);
    let r = prepend(key, r);
    let r = prepend("\"", r);
    r
}

fn push_member_obj(key: &str, obj: String) -> (r: String)
    ensures
        r@ == member_obj(key@, obj@),
{
    let r = prepend(":", obj);
    let r = prepend("\"", r);
    let r = prepend(key, r);
    let r = prepend("\"", r);
    r
}

fn push_opt_member(key: &str, o: &Option<String>, rest: String) -> (r: String)
    ensures
        r@ == opt_member(view_opt_string(*o), key@, rest@),
{
    match o {
        None => rest,
        Some(v) => prepend(",", push_member_str(key, v.as_str(), rest)),
    }
}

fn encode_pm_onto(p: &PaymasterParams, rest: String) -> (r: String)
    ensures
        r@ == pm_chain(p@, rest@),
{
    let r = prepend("}", rest);
    let r = push_member_str("paymasterInput", p.paymaster_input.as_str(), r);
    let r = prepend(",", r);
    let r = push_member_str("paymaster", p.paymaster.as_str(), r);
    prepend("{", r)
}

fn encode_cd_onto(c: &CustomData, rest: String) -> (r: String)
    ensures
        r@ == cd_chain(c@, rest@),
{
    let r = prepend("}", rest);
    let r = push_member_num("gasPerPubdata", c.gas_per_pubdata, r);
    let r = prepend(",", r);
    let r = encode_pm_onto(&c.paymaster_params, r);
    let r = push_member_obj("paymasterParams", r);
    prepend("{", r)
}

fn encode_tx_onto(t: &TxData, rest: String) -> (r: String)
    ensures
        r@ == tx_chain(t@, rest@),
{
    let r = prepend("}", rest);
    let r = push_member_num("gasLimit", t.gas_limit, r);
    let r = prepend(",", r);
    let r = push_member_str("maxFeePerGas", t.max_fee_per_gas.as_str(), r);
    let r = prepend(",", r);
    let r = encode_cd_onto(&t.custom_data, r);
    let r = push_member_obj("customData", r);
    let r = prepend(",", r);
    let r = push_member_str("value", t.value.as_str(), r);
    let r = prepend(",", r);
    let r = push_member_str("data", t.data.as_str(), r);
    let r = prepend(",", r);
    let r = push_member_str("to", t.to.as_str(), r);
    let r = prepend(",", r);
    let r = push_member_str("from", t.from.as_str(), r);
    let r = prepend(",", r);
    let r = push_member_num("chainId", t.chain_id as u64, r);
    prepend("{", r)
}

/// Print the transaction object as its canonical JSON text.
pub fn encode_tx_data(t: &TxData) -> (out: String)
    ensures
        out@ == spec_encode_tx_data(t@),
{
    let empty = String::new();
    encode_tx_onto(t, empty)
}

/// Print a response as its canonical JSON text.
pub fn encode_response(r: &Response) -> (out: String)
    ensures
        out@ == spec_encode_response(r@),
{
    let acc = String::from_str("}");
    let acc = push_opt_member("estimatedFinalFeeUsd", &r.estimated_final_fee_usd, acc);
    let acc = push_opt_member(
        "estimatedFinalFeeTokenAmount",
        &r.estimated_final_fee_token_amount,
        acc,
    );
    let acc = push_opt_member("sponsorshipRatio", &r.sponsorship_ratio, acc);
    let acc = push_opt_member("protocolAddress", &r.protocol_address, acc);
    let acc = push_opt_member("maxNonce", &r.max_nonce, acc);
    let acc = push_member_str("expiresIn", r.expires_in.as_str(), acc);
    let acc = prepend(",", acc);
    let acc = push_member_str("expirationTime", r.expiration_time.as_str(), acc);
    let acc = prepend(",", acc);
    let acc = push_member_str("markup", r.markup.as_str(), acc);
    let acc = prepend(",", acc);
    let acc = push_member_str("feeUSD", r.fee_usd.as_str(), acc);
    let acc = prepend(",", acc);
    let acc = push_member_str("feeTokendecimals", r.fee_token_decimals.as_str(), acc);
    let acc = prepend(",", acc);
    let acc = push_member_str("feeTokenAmount", r.fee_token_amount.as_str(), acc);
    let acc = prepend(",", acc);
    let acc = push_member_str("tokenPrice", r.token_price.as_str(), acc);
    let acc = prepend(",", acc);
    let acc = push_member_str("tokenAddress", r.token_address.as_str(), acc);
    let acc = prepend(",", acc);
    let acc = push_member_str("gasPrice", r.gas_price.as_str(), acc);
    let acc = prepend(",", acc);
    let acc = push_member_str("gasLimit", r.gas_limit.as_str(), acc);
    let acc = prepend(",", acc);
    let acc = encode_tx_onto(&r.tx_data, acc);
    let acc = push_member_obj("txData", acc);
    prepend("{", acc)
}

} // verus!
