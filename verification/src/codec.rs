//! Reading a response back from JSON text.
//!
//! The reader takes any JSON object text denoting the response shape:
//! insignificant whitespace is skipped, members may come in any order, and
//! unknown members are skipped, as are nested unknown objects and arrays.
//! A member seen twice, a missing required member, or a value of the wrong
//! kind is a decode failure. Numbers follow the JSON grammar for unsigned
//! integers (no leading zeros) and must fit their field's width. String
//! values are taken verbatim up to the closing quote: the payload fields of
//! this API are hex strings and decimal strings, which contain neither
//! quotes nor escapes; a body using escape sequences is not accepted.
//!
//! Each object is read by a member loop that fills a partial record, with a
//! fuel bound for termination; the round-trip laws at the end state that a
//! printed response reads back unchanged.

use vstd::prelude::*;
use vstd::string::*;
use crate::json::{
    is_digit, is_ws, lemma_peel_num, lemma_peel_quoted, no_quote, p_lit, p_quoted, p_u64, p_ws,
    sp_lit, sp_num, sp_quoted, sp_ws, spec_num,
};
use crate::out_types::{
    cd_chain, member_num, member_obj, member_str, opt_member, pm_chain, resp_m1, resp_m10,
    resp_m11, resp_m2, resp_m3, resp_m4, resp_m5, resp_m6, resp_m7, resp_m8, resp_m9, ro1, ro2,
    ro3, ro4, ro5, spec_encode_response, spec_encode_tx_data, str_val, tx_chain, tx_m2, tx_m3,
    tx_m4, tx_m5, tx_m6, tx_m7, tx_m8, view_opt_string, CustomData, CustomDataSpec,
    PaymasterParams, PaymasterParamsSpec, Response, ResponseSpec, TxData, TxDataSpec,
};

verus! {

// ---------------------------------------------------------------------------
// Skipping unknown values
// ---------------------------------------------------------------------------

pub open spec fn is_numberish(c: char) -> bool {
    is_digit(c) || c == '-' || c == '+' || c == '.' || c == 'e' || c == 'E'
}

/// Consume a run of number-like characters; unknown numbers are skipped, not
/// interpreted.
pub open spec fn sp_skip_numberish(s: Seq<char>) -> Seq<char>
    decreases s.len(),
{
    if s.len() > 0 && is_numberish(s[0]) {
        sp_skip_numberish(s.skip(1))
    } else {
        s
    }
}

/// Skip one JSON value of any kind.
pub open spec fn sp_skip_value(s0: Seq<char>, fuel: nat) -> Option<Seq<char>>
    decreases fuel,
{
    if fuel == 0 {
        None
    } else {
        let s = sp_ws(s0);
        if s.len() == 0 {
            None
        } else if s[0] == '"' {
            match sp_quoted(s) {
                None => None,
                Some((v, r)) => Some(r),
            }
        } else if s[0] == '{' {
            sp_skip_obj(s.skip(1), (fuel - 1) as nat)
        } else if s[0] == '[' {
            sp_skip_arr(s.skip(1), (fuel - 1) as nat)
        } else if is_numberish(s[0]) {
            Some(sp_skip_numberish(s))
        } else if s[0] == 't' {
            sp_lit(s, "true"@)
        } else if s[0] == 'f' {
            sp_lit(s, "false"@)
        } else if s[0] == 'n' {
            sp_lit(s, "null"@)
        } else {
            None
        }
    }
}

/// Skip the members of an unknown object; `s0` starts after the brace.
pub open spec fn sp_skip_obj(s0: Seq<char>, fuel: nat) -> Option<Seq<char>>
    decreases fuel,
{
    if fuel == 0 {
        None
    } else {
        let s = sp_ws(s0);
        if s.len() > 0 && s[0] == '}' {
            Some(s.skip(1))
        } else {
            match sp_quoted(s) {
                None => None,
                Some((k, s2)) => {
                    let s3 = sp_ws(s2);
                    if s3.len() == 0 || s3[0] != ':' {
                        None
                    } else {
                        match sp_skip_value(s3.skip(1), (fuel - 1) as nat) {
                            None => None,
                            Some(s4) => {
                                let s5 = sp_ws(s4);
                                if s5.len() > 0 && s5[0] == ',' {
                                    sp_skip_obj(s5.skip(1), (fuel - 1) as nat)
                                } else if s5.len() > 0 && s5[0] == '}' {
                                    Some(s5.skip(1))
                                } else {
                                    None
                                }
                            },
                        }
                    }
                },
            }
        }
    }
}

/// Skip the elements of an unknown array; `s0` starts after the bracket.
pub open spec fn sp_skip_arr(s0: Seq<char>, fuel: nat) -> Option<Seq<char>>
    decreases fuel,
{
    if fuel == 0 {
        None
    } else {
        let s = sp_ws(s0);
        if s.len() > 0 && s[0] == ']' {
            Some(s.skip(1))
        } else {
            match sp_skip_value(s, (fuel - 1) as nat) {
                None => None,
                Some(s2) => {
                    let s3 = sp_ws(s2);
                    if s3.len() > 0 && s3[0] == ',' {
                        sp_skip_arr(s3.skip(1), (fuel - 1) as nat)
                    } else if s3.len() > 0 && s3[0] == ']' {
                        Some(s3.skip(1))
                    } else {
                        None
                    }
                },
            }
        }
    }
}

// ---------------------------------------------------------------------------
// Partial records, one per object of the response shape
// ---------------------------------------------------------------------------

#[verifier::ext_equal]
pub ghost struct PmState {
    pub paymaster: Option<Seq<char>>,
    pub paymaster_input: Option<Seq<char>>,
}

#[verifier::ext_equal]
pub ghost struct CdState {
    pub paymaster_params: Option<PaymasterParamsSpec>,
    pub gas_per_pubdata: Option<u64>,
}

#[verifier::ext_equal]
pub ghost struct TxState {
    pub chain_id: Option<u32>,
    pub from: Option<Seq<char>>,
    pub to: Option<Seq<char>>,
    pub data: Option<Seq<char>>,
    pub value: Option<Seq<char>>,
    pub custom_data: Option<CustomDataSpec>,
    pub max_fee_per_gas: Option<Seq<char>>,
    pub gas_limit: Option<u64>,
}

#[verifier::ext_equal]
pub ghost struct RespState {
    pub tx_data: Option<TxDataSpec>,
    pub gas_limit: Option<Seq<char>>,
    pub gas_price: Option<Seq<char>>,
    pub token_address: Option<Seq<char>>,
    pub token_price: Option<Seq<char>>,
    pub fee_token_amount: Option<Seq<char>>,
    pub fee_token_decimals: Option<Seq<char>>,
    pub fee_usd: Option<Seq<char>>,
    pub markup: Option<Seq<char>>,
    pub expiration_time: Option<Seq<char>>,
    pub expires_in: Option<Seq<char>>,
    pub max_nonce: Option<Seq<char>>,
    pub protocol_address: Option<Seq<char>>,
    pub sponsorship_ratio: Option<Seq<char>>,
    pub estimated_final_fee_token_amount: Option<Seq<char>>,
    pub estimated_final_fee_usd: Option<Seq<char>>,
}

pub open spec fn pm_state0() -> PmState {
    PmState { paymaster: None, paymaster_input: None }
}

pub open spec fn cd_state0() -> CdState {
    CdState { paymaster_params: None, gas_per_pubdata: None }
}

pub open spec fn tx_state0() -> TxState {
    TxState {
        chain_id: None,
        from: None,
        to: None,
        data: None,
        value: None,
        custom_data: None,
        max_fee_per_gas: None,
        gas_limit: None,
    }
}

pub open spec fn resp_state0() -> RespState {
    RespState {
        tx_data: None,
        gas_limit: None,
        gas_price: None,
        token_address: None,
        token_price: None,
        fee_token_amount: None,
        fee_token_decimals: None,
        fee_usd: None,
        markup: None,
        expiration_time: None,
        expires_in: None,
        max_nonce: None,
        protocol_address: None,
        sponsorship_ratio: None,
        estimated_final_fee_token_amount: None,
        estimated_final_fee_usd: None,
    }
}

pub open spec fn sp_pm_finish(st: PmState) -> Option<PaymasterParamsSpec> {
    if st.paymaster is Some && st.paymaster_input is Some {
        Some(
            PaymasterParamsSpec {
                paymaster: st.paymaster->0,
                paymaster_input: st.paymaster_input->0,
            },
        )
    } else {
        None
    }
}

pub open spec fn sp_cd_finish(st: CdState) -> Option<CustomDataSpec> {
    if st.paymaster_params is Some && st.gas_per_pubdata is Some {
        Some(
            CustomDataSpec {
                paymaster_params: st.paymaster_params->0,
                gas_per_pubdata: st.gas_per_pubdata->0,
            },
        )
    } else {
        None
    }
}

pub open spec fn sp_tx_finish(st: TxState) -> Option<TxDataSpec> {
    if st.chain_id is Some && st.from is Some && st.to is Some && st.data is Some
        && st.value is Some && st.custom_data is Some && st.max_fee_per_gas is Some
        && st.gas_limit is Some {
        Some(
            TxDataSpec {
                chain_id: st.chain_id->0,
                from: st.from->0,
                to: st.to->0,
                data: st.data->0,
                value: st.value->0,
                custom_data: st.custom_data->0,
                max_fee_per_gas: st.max_fee_per_gas->0,
                gas_limit: st.gas_limit->0,
            },
        )
    } else {
        None
    }
}

pub open spec fn sp_resp_finish(st: RespState) -> Option<ResponseSpec> {
    if st.tx_data is Some && st.gas_limit is Some && st.gas_price is Some
        && st.token_address is Some && st.token_price is Some && st.fee_token_amount is Some
        && st.fee_token_decimals is Some && st.fee_usd is Some && st.markup is Some
        && st.expiration_time is Some && st.expires_in is Some {
        Some(
            ResponseSpec {
                tx_data: st.tx_data->0,
                gas_limit: st.gas_limit->0,
                gas_price: st.gas_price->0,
                token_address: st.token_address->0,
                token_price: st.token_price->0,
                fee_token_amount: st.fee_token_amount->0,
                fee_token_decimals: st.fee_token_decimals->0,
                fee_usd: st.fee_usd->0,
                markup: st.markup->0,
                expiration_time: st.expiration_time->0,
                expires_in: st.expires_in->0,
                max_nonce: st.max_nonce,
                protocol_address: st.protocol_address,
                sponsorship_ratio: st.sponsorship_ratio,
                estimated_final_fee_token_amount: st.estimated_final_fee_token_amount,
                estimated_final_fee_usd: st.estimated_final_fee_usd,
            },
        )
    } else {
        None
    }
}

// ---------------------------------------------------------------------------
// The paymaster-parameters object
// ---------------------------------------------------------------------------

pub open spec fn sp_pm_dispatch(key: Seq<char>, s: Seq<char>, st: PmState, fuel: nat) -> Option<
    (PmState, Seq<char>),
> {
    if key == "paymaster"@ {
        if st.paymaster is Some {
            None
        } else {
            match sp_quoted(s) {
                None => None,
                Some((v, r)) => Some((PmState { paymaster: Some(v), ..st }, r)),
            }
        }
    } else if key == "paymasterInput"@ {
        if st.paymaster_input is Some {
            None
        } else {
            match sp_quoted(s) {
                None => None,
                Some((v, r)) => Some((PmState { paymaster_input: Some(v), ..st }, r)),
            }
        }
    } else {
        match sp_skip_value(s, fuel) {
            None => None,
            Some(r) => Some((st, r)),
        }
    }
}

pub open spec fn sp_pm_members(s0: Seq<char>, st: PmState, fuel: nat) -> Option<
    (PmState, Seq<char>),
>
    decreases fuel,
{
    if fuel == 0 {
        None
    } else {
        match sp_quoted(sp_ws(s0)) {
            None => None,
            Some((key, s2)) => {
                let s3 = sp_ws(s2);
                if s3.len() == 0 || s3[0] != ':' {
                    None
                } else {
                    match sp_pm_dispatch(key, sp_ws(s3.skip(1)), st, (fuel - 1) as nat) {
                        None => None,
                        Some((st2, s4)) => {
                            let s5 = sp_ws(s4);
                            if s5.len() > 0 && s5[0] == ',' {
                                sp_pm_members(s5.skip(1), st2, (fuel - 1) as nat)
                            } else if s5.len() > 0 && s5[0] == '}' {
                                Some((st2, s5.skip(1)))
                            } else {
                                None
                            }
                        },
                    }
                }
            },
        }
    }
}

pub open spec fn sp_pm_obj(s0: Seq<char>, fuel: nat) -> Option<(PaymasterParamsSpec, Seq<char>)> {
    let s = sp_ws(s0);
    if s.len() > 0 && s[0] == '{' {
        let s1 = sp_ws(s.skip(1));
        if s1.len() > 0 && s1[0] == '}' {
            match sp_pm_finish(pm_state0()) {
                None => None,
                Some(v) => Some((v, s1.skip(1))),
            }
        } else {
            match sp_pm_members(s.skip(1), pm_state0(), fuel) {
                None => None,
                Some((st, r)) => match sp_pm_finish(st) {
                    None => None,
                    Some(v) => Some((v, r)),
                },
            }
        }
    } else {
        None
    }
}

// ---------------------------------------------------------------------------
// The custom-data object
// ---------------------------------------------------------------------------

pub open spec fn sp_cd_dispatch(key: Seq<char>, s: Seq<char>, st: CdState, fuel: nat) -> Option<
    (CdState, Seq<char>),
> {
    if key == "paymasterParams"@ {
        if st.paymaster_params is Some {
            None
        } else {
            match sp_pm_obj(s, fuel) {
                None => None,
                Some((v, r)) => Some((CdState { paymaster_params: Some(v), ..st }, r)),
            }
        }
    } else if key == "gasPerPubdata"@ {
        if st.gas_per_pubdata is Some {
            None
        } else {
            match sp_num(s) {
                None => None,
                Some((n, r)) => Some((CdState { gas_per_pubdata: Some(n), ..st }, r)),
            }
        }
    } else {
        match sp_skip_value(s, fuel) {
            None => None,
            Some(r) => Some((st, r)),
        }
    }
}

pub open spec fn sp_cd_members(s0: Seq<char>, st: CdState, fuel: nat) -> Option<
    (CdState, Seq<char>),
>
    decreases fuel,
{
    if fuel == 0 {
        None
    } else {
        match sp_quoted(sp_ws(s0)) {
            None => None,
            Some((key, s2)) => {
                let s3 = sp_ws(s2);
                if s3.len() == 0 || s3[0] != ':' {
                    None
                } else {
                    match sp_cd_dispatch(key, sp_ws(s3.skip(1)), st, (fuel - 1) as nat) {
                        None => None,
                        Some((st2, s4)) => {
                            let s5 = sp_ws(s4);
                            if s5.len() > 0 && s5[0] == ',' {
                                sp_cd_members(s5.skip(1), st2, (fuel - 1) as nat)
                            } else if s5.len() > 0 && s5[0] == '}' {
                                Some((st2, s5.skip(1)))
                            } else {
                                None
                            }
                        },
                    }
                }
            },
        }
    }
}

pub open spec fn sp_cd_obj(s0: Seq<char>, fuel: nat) -> Option<(CustomDataSpec, Seq<char>)> {
    let s = sp_ws(s0);
    if s.len() > 0 && s[0] == '{' {
        let s1 = sp_ws(s.skip(1));
        if s1.len() > 0 && s1[0] == '}' {
            match sp_cd_finish(cd_state0()) {
                None => None,
                Some(v) => Some((v, s1.skip(1))),
            }
        } else {
            match sp_cd_members(s.skip(1), cd_state0(), fuel) {
                None => None,
                Some((st, r)) => match sp_cd_finish(st) {
                    None => None,
                    Some(v) => Some((v, r)),
                },
            }
        }
    } else {
        None
    }
}

// ---------------------------------------------------------------------------
// The transaction object
// ---------------------------------------------------------------------------

pub open spec fn sp_tx_dispatch(key: Seq<char>, s: Seq<char>, st: TxState, fuel: nat) -> Option<
    (TxState, Seq<char>),
> {
    if key == "chainId"@ {
        if st.chain_id is Some {
            None
        } else {
            match sp_num(s) {
                None => None,
                Some((n, r)) => if n > u32::MAX as u64 {
                    None
                } else {
                    Some((TxState { chain_id: Some(n as u32), ..st }, r))
                },
            }
        }
    } else if key == "from"@ {
        if st.from is Some {
            None
        } else {
            match sp_quoted(s) {
                None => None,
                Some((v, r)) => Some((TxState { from: Some(v), ..st }, r)),
            }
        }
    } else if key == "to"@ {
        if st.to is Some {
            None
        } else {
            match sp_quoted(s) {
                None => None,
                Some((v, r)) => Some((TxState { to: Some(v), ..st }, r)),
            }
        }
    } else if key == "data"@ {
        if st.data is Some {
            None
        } else {
            match sp_quoted(s) {
                None => None,
                Some((v, r)) => Some((TxState { data: Some(v), ..st }, r)),
            }
        }
    } else if key == "value"@ {
        if st.value is Some {
            None
        } else {
            match sp_quoted(s) {
                None => None,
                Some((v, r)) => Some((TxState { value: Some(v), ..st }, r)),
            }
        }
    } else if key == "customData"@ {
        if st.custom_data is Some {
            None
        } else {
            match sp_cd_obj(s, fuel) {
                None => None,
                Some((v, r)) => Some((TxState { custom_data: Some(v), ..st }, r)),
            }
        }
    } else if key == "maxFeePerGas"@ {
        if st.max_fee_per_gas is Some {
            None
        } else {
            match sp_quoted(s) {
                None => None,
                Some((v, r)) => Some((TxState { max_fee_per_gas: Some(v), ..st }, r)),
            }
        }
    } else if key == "gasLimit"@ {
        if st.gas_limit is Some {
            None
        } else {
            match sp_num(s) {
                None => None,
                Some((n, r)) => Some((TxState { gas_limit: Some(n), ..st }, r)),
            }
        }
    } else {
        match sp_skip_value(s, fuel) {
            None => None,
            Some(r) => Some((st, r)),
        }
    }
}

pub open spec fn sp_tx_members(s0: Seq<char>, st: TxState, fuel: nat) -> Option<
    (TxState, Seq<char>),
>
    decreases fuel,
{
    if fuel == 0 {
        None
    } else {
        match sp_quoted(sp_ws(s0)) {
            None => None,
            Some((key, s2)) => {
                let s3 = sp_ws(s2);
                if s3.len() == 0 || s3[0] != ':' {
                    None
                } else {
                    match sp_tx_dispatch(key, sp_ws(s3.skip(1)), st, (fuel - 1) as nat) {
                        None => None,
                        Some((st2, s4)) => {
                            let s5 = sp_ws(s4);
                            if s5.len() > 0 && s5[0] == ',' {
                                sp_tx_members(s5.skip(1), st2, (fuel - 1) as nat)
                            } else if s5.len() > 0 && s5[0] == '}' {
                                Some((st2, s5.skip(1)))
                            } else {
                                None
                            }
                        },
                    }
                }
            },
        }
    }
}

pub open spec fn sp_tx_obj(s0: Seq<char>, fuel: nat) -> Option<(TxDataSpec, Seq<char>)> {
    let s = sp_ws(s0);
    if s.len() > 0 && s[0] == '{' {
        let s1 = sp_ws(s.skip(1));
        if s1.len() > 0 && s1[0] == '}' {
            match sp_tx_finish(tx_state0()) {
                None => None,
                Some(v) => Some((v, s1.skip(1))),
            }
        } else {
            match sp_tx_members(s.skip(1), tx_state0(), fuel) {
                None => None,
                Some((st, r)) => match sp_tx_finish(st) {
                    None => None,
                    Some(v) => Some((v, r)),
                },
            }
        }
    } else {
        None
    }
}

// ---------------------------------------------------------------------------
// The response object
// ---------------------------------------------------------------------------

pub open spec fn sp_resp_dispatch(key: Seq<char>, s: Seq<char>, st: RespState, fuel: nat) -> Option<
    (RespState, Seq<char>),
> {
    if key == "txData"@ {
        if st.tx_data is Some {
            None
        } else {
            match sp_tx_obj(s, fuel) {
                None => None,
                Some((v, r)) => Some((RespState { tx_data: Some(v), ..st }, r)),
            }
        }
    } else if key == "gasLimit"@ {
        if st.gas_limit is Some {
            None
        } else {
            match sp_quoted(s) {
                None => None,
                Some((v, r)) => Some((RespState { gas_limit: Some(v), ..st }, r)),
            }
        }
    } else if key == "gasPrice"@ {
        if st.gas_price is Some {
            None
        } else {
            match sp_quoted(s) {
                None => None,
                Some((v, r)) => Some((RespState { gas_price: Some(v), ..st }, r)),
            }
        }
    } else if key == "tokenAddress"@ {
        if st.token_address is Some {
            None
        } else {
            match sp_quoted(s) {
                None => None,
                Some((v, r)) => Some((RespState { token_address: Some(v), ..st }, r)),
            }
        }
    } else if key == "tokenPrice"@ {
        if st.token_price is Some {
            None
        } else {
            match sp_quoted(s) {
                None => None,
                Some((v, r)) => Some((RespState { token_price: Some(v), ..st }, r)),
            }
        }
    } else if key == "feeTokenAmount"@ {
        if st.fee_token_amount is Some {
            None
        } else {
            match sp_quoted(s) {
                None => None,
                Some((v, r)) => Some((RespState { fee_token_amount: Some(v), ..st }, r)),
            }
        }
    } else if key == "feeTokendecimals"@ {
        if st.fee_token_decimals is Some {
            None
        } else {
            match sp_quoted(s) {
                None => None,
                Some((v, r)) => Some((RespState { fee_token_decimals: Some(v), ..st }, r)),
            }
        }
    } else if key == "feeUSD"@ {
        if st.fee_usd is Some {
            None
        } else {
            match sp_quoted(s) {
                None => None,
                Some((v, r)) => Some((RespState { fee_usd: Some(v), ..st }, r)),
            }
        }
    } else if key == "markup"@ {
        if st.markup is Some {
            None
        } else {
            match sp_quoted(s) {
                None => None,
                Some((v, r)) => Some((RespState { markup: Some(v), ..st }, r)),
            }
        }
    } else if key == "expirationTime"@ {
        if st.expiration_time is Some {
            None
        } else {
            match sp_quoted(s) {
                None => None,
                Some((v, r)) => Some((RespState { expiration_time: Some(v), ..st }, r)),
            }
        }
    } else if key == "expiresIn"@ {
        if st.expires_in is Some {
            None
        } else {
            match sp_quoted(s) {
                None => None,
                Some((v, r)) => Some((RespState { expires_in: Some(v), ..st }, r)),
            }
        }
    } else if key == "maxNonce"@ {
        if st.max_nonce is Some {
            None
        } else {
            match sp_quoted(s) {
                None => None,
                Some((v, r)) => Some((RespState { max_nonce: Some(v), ..st }, r)),
            }
        }
    } else if key == "protocolAddress"@ {
        if st.protocol_address is Some {
            None
        } else {
            match sp_quoted(s) {
                None => None,
                Some((v, r)) => Some((RespState { protocol_address: Some(v), ..st }, r)),
            }
        }
    } else if key == "sponsorshipRatio"@ {
        if st.sponsorship_ratio is Some {
            None
        } else {
            match sp_quoted(s) {
                None => None,
                Some((v, r)) => Some((RespState { sponsorship_ratio: Some(v), ..st }, r)),
            }
        }
    } else if key == "estimatedFinalFeeTokenAmount"@ {
        if st.estimated_final_fee_token_amount is Some {
            None
        } else {
            match sp_quoted(s) {
                None => None,
                Some((v, r)) => Some(
                    (RespState { estimated_final_fee_token_amount: Some(v), ..st }, r),
                ),
            }
        }
    } else if key == "estimatedFinalFeeUsd"@ {
        if st.estimated_final_fee_usd is Some {
            None
        } else {
            match sp_quoted(s) {
                None => None,
                Some((v, r)) => Some((RespState { estimated_final_fee_usd: Some(v), ..st }, r)),
            }
        }
    } else {
        match sp_skip_value(s, fuel) {
            None => None,
            Some(r) => Some((st, r)),
        }
    }
}

/// What comes after a member's value: a comma and further members, or the
/// closing brace.
pub open spec fn sp_resp_after(s: Seq<char>, st: RespState, fuel: nat) -> Option<
    (RespState, Seq<char>),
>
    decreases fuel,
{
    let s5 = sp_ws(s);
    if s5.len() > 0 && s5[0] == ',' {
        if fuel == 0 {
            None
        } else {
            sp_resp_members(s5.skip(1), st, (fuel - 1) as nat)
        }
    } else if s5.len() > 0 && s5[0] == '}' {
        Some((st, s5.skip(1)))
    } else {
        None
    }
}

pub open spec fn sp_resp_members(s0: Seq<char>, st: RespState, fuel: nat) -> Option<
    (RespState, Seq<char>),
>
    decreases fuel,
{
    if fuel == 0 {
        None
    } else {
        match sp_quoted(sp_ws(s0)) {
            None => None,
            Some((key, s2)) => {
                let s3 = sp_ws(s2);
                if s3.len() == 0 || s3[0] != ':' {
                    None
                } else {
                    match sp_resp_dispatch(key, sp_ws(s3.skip(1)), st, (fuel - 1) as nat) {
                        None => None,
                        Some((st2, s4)) => sp_resp_after(s4, st2, (fuel - 1) as nat),
                    }
                }
            },
        }
    }
}

pub open spec fn sp_resp_obj(s0: Seq<char>, fuel: nat) -> Option<(ResponseSpec, Seq<char>)> {
    let s = sp_ws(s0);
    if s.len() > 0 && s[0] == '{' {
        let s1 = sp_ws(s.skip(1));
        if s1.len() > 0 && s1[0] == '}' {
            match sp_resp_finish(resp_state0()) {
                None => None,
                Some(v) => Some((v, s1.skip(1))),
            }
        } else {
            match sp_resp_members(s.skip(1), resp_state0(), fuel) {
                None => None,
                Some((st, r)) => match sp_resp_finish(st) {
                    None => None,
                    Some(v) => Some((v, r)),
                },
            }
        }
    } else {
        None
    }
}

pub open spec fn decode_fuel(s: Seq<char>) -> nat {
    if s.len() <= usize::MAX - 64 {
        s.len() + 64
    } else {
        usize::MAX as nat
    }
}

/// Read a whole response; the text must hold exactly one JSON object of the
/// response shape, with nothing but whitespace after it.
pub open spec fn sp_decode_response(s: Seq<char>) -> Option<ResponseSpec> {
    match sp_resp_obj(s, decode_fuel(s)) {
        None => None,
        Some((r, rest)) => if sp_ws(rest).len() == 0 {
            Some(r)
        } else {
            None
        },
    }
}

// ---------------------------------------------------------------------------
// Executable reader
// ---------------------------------------------------------------------------

struct PmSt {
    paymaster: Option<String>,
    paymaster_input: Option<String>,
}

struct CdSt {
    paymaster_params: Option<PaymasterParams>,
    gas_per_pubdata: Option<u64>,
}

struct TxSt {
    chain_id: Option<u32>,
    from: Option<String>,
    to: Option<String>,
    data: Option<String>,
    value: Option<String>,
    custom_data: Option<CustomData>,
    max_fee_per_gas: Option<String>,
    gas_limit: Option<u64>,
}

struct RespSt {
    tx_data: Option<TxData>,
    gas_limit: Option<String>,
    gas_price: Option<String>,
    token_address: Option<String>,
    token_price: Option<String>,
    fee_token_amount: Option<String>,
    fee_token_decimals: Option<String>,
    fee_usd: Option<String>,
    markup: Option<String>,
    expiration_time: Option<String>,
    expires_in: Option<String>,
    max_nonce: Option<String>,
    protocol_address: Option<String>,
    sponsorship_ratio: Option<String>,
    estimated_final_fee_token_amount: Option<String>,
    estimated_final_fee_usd: Option<String>,
}

impl View for PmSt {
    type V = PmState;

    closed spec fn view(&self) -> PmState {
        PmState {
            paymaster: view_opt_string(self.paymaster),
            paymaster_input: view_opt_string(self.paymaster_input),
        }
    }
}

pub open spec fn view_opt_pm(o: Option<PaymasterParams>) -> Option<PaymasterParamsSpec> {
    match o {
        Some(p) => Some(p@),
        None => None,
    }
}

pub open spec fn view_opt_cd(o: Option<CustomData>) -> Option<CustomDataSpec> {
    match o {
        Some(c) => Some(c@),
        None => None,
    }
}

pub open spec fn view_opt_tx(o: Option<TxData>) -> Option<TxDataSpec> {
    match o {
        Some(t) => Some(t@),
        None => None,
    }
}

impl View for CdSt {
    type V = CdState;

    closed spec fn view(&self) -> CdState {
        CdState {
            paymaster_params: view_opt_pm(self.paymaster_params),
            gas_per_pubdata: self.gas_per_pubdata,
        }
    }
}

impl View for TxSt {
    type V = TxState;

    closed spec fn view(&self) -> TxState {
        TxState {
            chain_id: self.chain_id,
            from: view_opt_string(self.from),
            to: view_opt_string(self.to),
            data: view_opt_string(self.data),
            value: view_opt_string(self.value),
            custom_data: view_opt_cd(self.custom_data),
            max_fee_per_gas: view_opt_string(self.max_fee_per_gas),
            gas_limit: self.gas_limit,
        }
    }
}

impl View for RespSt {
    type V = RespState;

    closed spec fn view(&self) -> RespState {
        RespState {
            tx_data: view_opt_tx(self.tx_data),
            gas_limit: view_opt_string(self.gas_limit),
            gas_price: view_opt_string(self.gas_price),
            token_address: view_opt_string(self.token_address),
            token_price: view_opt_string(self.token_price),
            fee_token_amount: view_opt_string(self.fee_token_amount),
            fee_token_decimals: view_opt_string(self.fee_token_decimals),
            fee_usd: view_opt_string(self.fee_usd),
            markup: view_opt_string(self.markup),
            expiration_time: view_opt_string(self.expiration_time),
            expires_in: view_opt_string(self.expires_in),
            max_nonce: view_opt_string(self.max_nonce),
            protocol_address: view_opt_string(self.protocol_address),
            sponsorship_ratio: view_opt_string(self.sponsorship_ratio),
            estimated_final_fee_token_amount: view_opt_string(
                self.estimated_final_fee_token_amount,
            ),
            estimated_final_fee_usd: view_opt_string(self.estimated_final_fee_usd),
        }
    }
}

fn key_is(k: &String, lit: &str) -> (b: bool)
    ensures
        b == (k@ == lit@),
{
    k.eq(&lit.to_owned())
}

fn skip1<'a>(s: &'a str) -> (r: &'a str)
    requires
        s@.len() > 0,
    ensures
        r@ == s@.skip(1),
{
    let len = s.unicode_len();
    let r = s.substring_char(1, len);
    proof {
        assert(r@ =~= s@.skip(1));
    }
    r
}

fn is_numberish_char(c: char) -> (b: bool)
    ensures
        b == is_numberish(c),
{
    ('0' <= c && c <= '9') || c == '-' || c == '+' || c == '.' || c == 'e' || c == 'E'
}

fn p_skip_numberish<'a>(s: &'a str) -> (r: &'a str)
    ensures
        r@ == sp_skip_numberish(s@),
{
    let len = s.unicode_len();
    let mut j: usize = 0;
    proof {
        assert(s@.skip(0) =~= s@);
    }
    while j < len
        invariant
            0 <= j <= len,
            len == s@.len(),
            sp_skip_numberish(s@) == sp_skip_numberish(s@.skip(j as int)),
        decreases len - j,
    {
        proof {
            assert(s@.skip(j as int)[0] == s@[j as int]);
        }
        if !is_numberish_char(s.get_char(j)) {
            let r = s.substring_char(j, len);
            proof {
                assert(r@ =~= s@.skip(j as int));
            }
            return r;
        }
        proof {
            assert(s@.skip(j as int).skip(1) =~= s@.skip(j as int + 1));
        }
        j += 1;
    }
    proof {
        assert(s@.skip(len as int).len() == 0);
    }
    let r = s.substring_char(len, len);
    proof {
        assert(r@ =~= s@.skip(len as int));
    }
    r
}

fn p_skip_value<'a>(s0: &'a str, fuel: usize) -> (r: Option<&'a str>)
    ensures
        match r {
            Some(v) => sp_skip_value(s0@, fuel as nat) == Some(v@),
            None => sp_skip_value(s0@, fuel as nat) is None,
        },
    decreases fuel,
{
    if fuel == 0 {
        return None;
    }
    let s = p_ws(s0);
    let len = s.unicode_len();
    if len == 0 {
        return None;
    }
    let c = s.get_char(0);
    if c == '"' {
        match p_quoted(s) {
            None => None,
            Some((_, r)) => Some(r),
        }
    } else if c == '{' {
        p_skip_obj(skip1(s), fuel - 1)
    } else if c == '[' {
        p_skip_arr(skip1(s), fuel - 1)
    } else if is_numberish_char(c) {
        Some(p_skip_numberish(s))
    } else if c == 't' {
        p_lit(s, "true")
    } else if c == 'f' {
        p_lit(s, "false")
    } else if c == 'n' {
        p_lit(s, "null")
    } else {
        None
    }
}

fn p_skip_obj<'a>(s0: &'a str, fuel: usize) -> (r: Option<&'a str>)
    ensures
        match r {
            Some(v) => sp_skip_obj(s0@, fuel as nat) == Some(v@),
            None => sp_skip_obj(s0@, fuel as nat) is None,
        },
    decreases fuel,
{
    if fuel == 0 {
        return None;
    }
    let s = p_ws(s0);
    let len = s.unicode_len();
    if len > 0 && s.get_char(0) == '}' {
        return Some(skip1(s));
    }
    let (_, s2) = match p_quoted(s) {
        None => {
            return None;
        },
        Some(v) => v,
    };
    let s3 = p_ws(s2);
    if s3.unicode_len() == 0 {
        return None;
    }
    if s3.get_char(0) != ':' {
        return None;
    }
    let s4 = match p_skip_value(skip1(s3), fuel - 1) {
        None => {
            return None;
        },
        Some(v) => v,
    };
    let s5 = p_ws(s4);
    if s5.unicode_len() == 0 {
        return None;
    }
    let c = s5.get_char(0);
    if c == ',' {
        p_skip_obj(skip1(s5), fuel - 1)
    } else if c == '}' {
        Some(skip1(s5))
    } else {
        None
    }
}

fn p_skip_arr<'a>(s0: &'a str, fuel: usize) -> (r: Option<&'a str>)
    ensures
        match r {
            Some(v) => sp_skip_arr(s0@, fuel as nat) == Some(v@),
            None => sp_skip_arr(s0@, fuel as nat) is None,
        },
    decreases fuel,
{
    if fuel == 0 {
        return None;
    }
    let s = p_ws(s0);
    let len = s.unicode_len();
    if len > 0 && s.get_char(0) == ']' {
        return Some(skip1(s));
    }
    let s2 = match p_skip_value(s, fuel - 1) {
        None => {
            return None;
        },
        Some(v) => v,
    };
    let s3 = p_ws(s2);
    if s3.unicode_len() == 0 {
        return None;
    }
    let c = s3.get_char(0);
    if c == ',' {
        p_skip_arr(skip1(s3), fuel - 1)
    } else if c == ']' {
        Some(skip1(s3))
    } else {
        None
    }
}

fn p_pm_dispatch<'a>(key: &String, s: &'a str, st: PmSt, fuel: usize) -> (r: Option<
    (PmSt, &'a str),
>)
    ensures
        match r {
            Some(v) => sp_pm_dispatch(key@, s@, st@, fuel as nat) == Some((v.0@, v.1@)),
            None => sp_pm_dispatch(key@, s@, st@, fuel as nat) is None,
        },
{
    if key_is(key, "paymaster") {
        if st.paymaster.is_some() {
            return None;
        }
        match p_quoted(s) {
            None => None,
            Some((v, r)) => Some((PmSt { paymaster: Some(v), ..st }, r)),
        }
    } else if key_is(key, "paymasterInput") {
        if st.paymaster_input.is_some() {
            return None;
        }
        match p_quoted(s) {
            None => None,
            Some((v, r)) => Some((PmSt { paymaster_input: Some(v), ..st }, r)),
        }
    } else {
        match p_skip_value(s, fuel) {
            None => None,
            Some(r) => Some((st, r)),
        }
    }
}

fn p_pm_members<'a>(s0: &'a str, st: PmSt, fuel: usize) -> (r: Option<(PmSt, &'a str)>)
    ensures
        match r {
            Some(v) => sp_pm_members(s0@, st@, fuel as nat) == Some((v.0@, v.1@)),
            None => sp_pm_members(s0@, st@, fuel as nat) is None,
        },
    decreases fuel,
{
    if fuel == 0 {
        return None;
    }
    let (key, s2) = match p_quoted(p_ws(s0)) {
        None => {
            return None;
        },
        Some(v) => v,
    };
    let s3 = p_ws(s2);
    if s3.unicode_len() == 0 {
        return None;
    }
    if s3.get_char(0) != ':' {
        return None;
    }
    let (st2, s4) = match p_pm_dispatch(&key, p_ws(skip1(s3)), st, fuel - 1) {
        None => {
            return None;
        },
        Some(v) => v,
    };
    let s5 = p_ws(s4);
    if s5.unicode_len() == 0 {
        return None;
    }
    let c = s5.get_char(0);
    if c == ',' {
        p_pm_members(skip1(s5), st2, fuel - 1)
    } else if c == '}' {
        Some((st2, skip1(s5)))
    } else {
        None
    }
}

fn p_pm_finish(st: PmSt) -> (r: Option<PaymasterParams>)
    ensures
        match r {
            Some(v) => sp_pm_finish(st@) == Some(v@),
            None => sp_pm_finish(st@) is None,
        },
{
    match (st.paymaster, st.paymaster_input) {
        (Some(paymaster), Some(paymaster_input)) => Some(
            PaymasterParams { paymaster, paymaster_input },
        ),
        _ => None,
    }
}

fn p_pm_obj<'a>(s0: &'a str, fuel: usize) -> (r: Option<(PaymasterParams, &'a str)>)
    ensures
        match r {
            Some(v) => sp_pm_obj(s0@, fuel as nat) == Some((v.0@, v.1@)),
            None => sp_pm_obj(s0@, fuel as nat) is None,
        },
{
    let s = p_ws(s0);
    if s.unicode_len() == 0 {
        return None;
    }
    if s.get_char(0) != '{' {
        return None;
    }
    let inner = skip1(s);
    let s1 = p_ws(inner);
    if s1.unicode_len() > 0 && s1.get_char(0) == '}' {
        match p_pm_finish(PmSt { paymaster: None, paymaster_input: None }) {
            None => None,
            Some(v) => Some((v, skip1(s1))),
        }
    } else {
        match p_pm_members(inner, PmSt { paymaster: None, paymaster_input: None }, fuel) {
            None => None,
            Some((st, r)) => match p_pm_finish(st) {
                None => None,
                Some(v) => Some((v, r)),
            },
        }
    }
}

fn p_cd_dispatch<'a>(key: &String, s: &'a str, st: CdSt, fuel: usize) -> (r: Option<
    (CdSt, &'a str),
>)
    ensures
        match r {
            Some(v) => sp_cd_dispatch(key@, s@, st@, fuel as nat) == Some((v.0@, v.1@)),
            None => sp_cd_dispatch(key@, s@, st@, fuel as nat) is None,
        },
{
    if key_is(key, "paymasterParams") {
        if st.paymaster_params.is_some() {
            return None;
        }
        match p_pm_obj(s, fuel) {
            None => None,
            Some((v, r)) => Some((CdSt { paymaster_params: Some(v), ..st }, r)),
        }
    } else if key_is(key, "gasPerPubdata") {
        if st.gas_per_pubdata.is_some() {
            return None;
        }
        match p_u64(s) {
            None => None,
            Some((n, r)) => Some((CdSt { gas_per_pubdata: Some(n), ..st }, r)),
        }
    } else {
        match p_skip_value(s, fuel) {
            None => None,
            Some(r) => Some((st, r)),
        }
    }
}

fn p_cd_members<'a>(s0: &'a str, st: CdSt, fuel: usize) -> (r: Option<(CdSt, &'a str)>)
    ensures
        match r {
            Some(v) => sp_cd_members(s0@, st@, fuel as nat) == Some((v.0@, v.1@)),
            None => sp_cd_members(s0@, st@, fuel as nat) is None,
        },
    decreases fuel,
{
    if fuel == 0 {
        return None;
    }
    let (key, s2) = match p_quoted(p_ws(s0)) {
        None => {
            return None;
        },
        Some(v) => v,
    };
    let s3 = p_ws(s2);
    if s3.unicode_len() == 0 {
        return None;
    }
    if s3.get_char(0) != ':' {
        return None;
    }
    let (st2, s4) = match p_cd_dispatch(&key, p_ws(skip1(s3)), st, fuel - 1) {
        None => {
            return None;
        },
        Some(v) => v,
    };
    let s5 = p_ws(s4);
    if s5.unicode_len() == 0 {
        return None;
    }
    let c = s5.get_char(0);
    if c == ',' {
        p_cd_members(skip1(s5), st2, fuel - 1)
    } else if c == '}' {
        Some((st2, skip1(s5)))
    } else {
        None
    }
}

fn p_cd_finish(st: CdSt) -> (r: Option<CustomData>)
    ensures
        match r {
            Some(v) => sp_cd_finish(st@) == Some(v@),
            None => sp_cd_finish(st@) is None,
        },
{
    match (st.paymaster_params, st.gas_per_pubdata) {
        (Some(paymaster_params), Some(gas_per_pubdata)) => Some(
            CustomData { paymaster_params, gas_per_pubdata },
        ),
        _ => None,
    }
}

fn p_cd_obj<'a>(s0: &'a str, fuel: usize) -> (r: Option<(CustomData, &'a str)>)
    ensures
        match r {
            Some(v) => sp_cd_obj(s0@, fuel as nat) == Some((v.0@, v.1@)),
            None => sp_cd_obj(s0@, fuel as nat) is None,
        },
{
    let s = p_ws(s0);
    if s.unicode_len() == 0 {
        return None;
    }
    if s.get_char(0) != '{' {
        return None;
    }
    let inner = skip1(s);
    let s1 = p_ws(inner);
    if s1.unicode_len() > 0 && s1.get_char(0) == '}' {
        match p_cd_finish(CdSt { paymaster_params: None, gas_per_pubdata: None }) {
            None => None,
            Some(v) => Some((v, skip1(s1))),
        }
    } else {
        match p_cd_members(inner, CdSt { paymaster_params: None, gas_per_pubdata: None }, fuel) {
            None => None,
            Some((st, r)) => match p_cd_finish(st) {
                None => None,
                Some(v) => Some((v, r)),
            },
        }
    }
}

fn tx_st0() -> (r: TxSt)
    ensures
        r@ == tx_state0(),
{
    TxSt {
        chain_id: None,
        from: None,
        to: None,
        data: None,
        value: None,
        custom_data: None,
        max_fee_per_gas: None,
        gas_limit: None,
    }
}

fn p_tx_dispatch<'a>(key: &String, s: &'a str, st: TxSt, fuel: usize) -> (r: Option<
    (TxSt, &'a str),
>)
    ensures
        match r {
            Some(v) => sp_tx_dispatch(key@, s@, st@, fuel as nat) == Some((v.0@, v.1@)),
            None => sp_tx_dispatch(key@, s@, st@, fuel as nat) is None,
        },
{
    if key_is(key, "chainId") {
        if st.chain_id.is_some() {
            return None;
        }
        match p_u64(s) {
            None => None,
            Some((n, r)) => {
                if n > 0xffff_ffffu64 {
                    None
                } else {
                    Some((TxSt { chain_id: Some(n as u32), ..st }, r))
                }
            },
        }
    } else if key_is(key, "from") {
        if st.from.is_some() {
            return None;
        }
        match p_quoted(s) {
            None => None,
            Some((v, r)) => Some((TxSt { from: Some(v), ..st }, r)),
        }
    } else if key_is(key, "to") {
        if st.to.is_some() {
            return None;
        }
        match p_quoted(s) {
            None => None,
            Some((v, r)) => Some((TxSt { to: Some(v), ..st }, r)),
        }
    } else if key_is(key, "data") {
        if st.data.is_some() {
            return None;
        }
        match p_quoted(s) {
            None => None,
            Some((v, r)) => Some((TxSt { data: Some(v), ..st }, r)),
        }
    } else if key_is(key, "value") {
        if st.value.is_some() {
            return None;
        }
        match p_quoted(s) {
            None => None,
            Some((v, r)) => Some((TxSt { value: Some(v), ..st }, r)),
        }
    } else if key_is(key, "customData") {
        if st.custom_data.is_some() {
            return None;
        }
        match p_cd_obj(s, fuel) {
            None => None,
            Some((v, r)) => Some((TxSt { custom_data: Some(v), ..st }, r)),
        }
    } else if key_is(key, "maxFeePerGas") {
        if st.max_fee_per_gas.is_some() {
            return None;
        }
        match p_quoted(s) {
            None => None,
            Some((v, r)) => Some((TxSt { max_fee_per_gas: Some(v), ..st }, r)),
        }
    } else if key_is(key, "gasLimit") {
        if st.gas_limit.is_some() {
            return None;
        }
        match p_u64(s) {
            None => None,
            Some((n, r)) => Some((TxSt { gas_limit: Some(n), ..st }, r)),
        }
    } else {
        match p_skip_value(s, fuel) {
            None => None,
            Some(r) => Some((st, r)),
        }
    }
}

fn p_tx_members<'a>(s0: &'a str, st: TxSt, fuel: usize) -> (r: Option<(TxSt, &'a str)>)
    ensures
        match r {
            Some(v) => sp_tx_members(s0@, st@, fuel as nat) == Some((v.0@, v.1@)),
            None => sp_tx_members(s0@, st@, fuel as nat) is None,
        },
    decreases fuel,
{
    if fuel == 0 {
        return None;
    }
    let (key, s2) = match p_quoted(p_ws(s0)) {
        None => {
            return None;
        },
        Some(v) => v,
    };
    let s3 = p_ws(s2);
    if s3.unicode_len() == 0 {
        return None;
    }
    if s3.get_char(0) != ':' {
        return None;
    }
    let (st2, s4) = match p_tx_dispatch(&key, p_ws(skip1(s3)), st, fuel - 1) {
        None => {
            return None;
        },
        Some(v) => v,
    };
    let s5 = p_ws(s4);
    if s5.unicode_len() == 0 {
        return None;
    }
    let c = s5.get_char(0);
    if c == ',' {
        p_tx_members(skip1(s5), st2, fuel - 1)
    } else if c == '}' {
        Some((st2, skip1(s5)))
    } else {
        None
    }
}

fn p_tx_finish(st: TxSt) -> (r: Option<TxData>)
    ensures
        match r {
            Some(v) => sp_tx_finish(st@) == Some(v@),
            None => sp_tx_finish(st@) is None,
        },
{
    match (st.chain_id, st.from, st.to, st.data, st.value, st.custom_data, st.max_fee_per_gas, st.gas_limit) {
        (
            Some(chain_id),
            Some(from),
            Some(to),
            Some(data),
            Some(value),
            Some(custom_data),
            Some(max_fee_per_gas),
            Some(gas_limit),
        ) => Some(
            TxData { chain_id, from, to, data, value, custom_data, max_fee_per_gas, gas_limit },
        ),
        _ => None,
    }
}

fn p_tx_obj<'a>(s0: &'a str, fuel: usize) -> (r: Option<(TxData, &'a str)>)
    ensures
        match r {
            Some(v) => sp_tx_obj(s0@, fuel as nat) == Some((v.0@, v.1@)),
            None => sp_tx_obj(s0@, fuel as nat) is None,
        },
{
    let s = p_ws(s0);
    if s.unicode_len() == 0 {
        return None;
    }
    if s.get_char(0) != '{' {
        return None;
    }
    let inner = skip1(s);
    let s1 = p_ws(inner);
    if s1.unicode_len() > 0 && s1.get_char(0) == '}' {
        match p_tx_finish(tx_st0()) {
            None => None,
            Some(v) => Some((v, skip1(s1))),
        }
    } else {
        match p_tx_members(inner, tx_st0(), fuel) {
            None => None,
            Some((st, r)) => match p_tx_finish(st) {
                None => None,
                Some(v) => Some((v, r)),
            },
        }
    }
}

fn resp_st0() -> (r: RespSt)
    ensures
        r@ == resp_state0(),
{
    RespSt {
        tx_data: None,
        gas_limit: None,
        gas_price: None,
        token_address: None,
        token_price: None,
        fee_token_amount: None,
        fee_token_decimals: None,
        fee_usd: None,
        markup: None,
        expiration_time: None,
        expires_in: None,
        max_nonce: None,
        protocol_address: None,
        sponsorship_ratio: None,
        estimated_final_fee_token_amount: None,
        estimated_final_fee_usd: None,
    }
}

fn p_resp_dispatch<'a>(key: &String, s: &'a str, st: RespSt, fuel: usize) -> (r: Option<
    (RespSt, &'a str),
>)
    ensures
        match r {
            Some(v) => sp_resp_dispatch(key@, s@, st@, fuel as nat) == Some((v.0@, v.1@)),
            None => sp_resp_dispatch(key@, s@, st@, fuel as nat) is None,
        },
{
    if key_is(key, "txData") {
        if st.tx_data.is_some() {
            return None;
        }
        match p_tx_obj(s, fuel) {
            None => None,
            Some((v, r)) => Some((RespSt { tx_data: Some(v), ..st }, r)),
        }
    } else if key_is(key, "gasLimit") {
        if st.gas_limit.is_some() {
            return None;
        }
        match p_quoted(s) {
            None => None,
            Some((v, r)) => Some((RespSt { gas_limit: Some(v), ..st }, r)),
        }
    } else if key_is(key, "gasPrice") {
        if st.gas_price.is_some() {
            return None;
        }
        match p_quoted(s) {
            None => None,
            Some((v, r)) => Some((RespSt { gas_price: Some(v), ..st }, r)),
        }
    } else if key_is(key, "tokenAddress") {
        if st.token_address.is_some() {
            return None;
        }
        match p_quoted(s) {
            None => None,
            Some((v, r)) => Some((RespSt { token_address: Some(v), ..st }, r)),
        }
    } else if key_is(key, "tokenPrice") {
        if st.token_price.is_some() {
            return None;
        }
        match p_quoted(s) {
            None => None,
            Some((v, r)) => Some((RespSt { token_price: Some(v), ..st }, r)),
        }
    } else if key_is(key, "feeTokenAmount") {
        if st.fee_token_amount.is_some() {
            return None;
        }
        match p_quoted(s) {
            None => None,
            Some((v, r)) => Some((RespSt { fee_token_amount: Some(v), ..st }, r)),
        }
    } else if key_is(key, "feeTokendecimals") {
        if st.fee_token_decimals.is_some() {
            return None;
        }
        match p_quoted(s) {
            None => None,
            Some((v, r)) => Some((RespSt { fee_token_decimals: Some(v), ..st }, r)),
        }
    } else if key_is(key, "feeUSD") {
        if st.fee_usd.is_some() {
            return None;
        }
        match p_quoted(s) {
            None => None,
            Some((v, r)) => Some((RespSt { fee_usd: Some(v), ..st }, r)),
        }
    } else if key_is(key, "markup") {
        if st.markup.is_some() {
            return None;
        }
        match p_quoted(s) {
            None => None,
            Some((v, r)) => Some((RespSt { markup: Some(v), ..st }, r)),
        }
    } else if key_is(key, "expirationTime") {
        if st.expiration_time.is_some() {
            return None;
        }
        match p_quoted(s) {
            None => None,
            Some((v, r)) => Some((RespSt { expiration_time: Some(v), ..st }, r)),
        }
    } else if key_is(key, "expiresIn") {
        if st.expires_in.is_some() {
            return None;
        }
        match p_quoted(s) {
            None => None,
            Some((v, r)) => Some((RespSt { expires_in: Some(v), ..st }, r)),
        }
    } else if key_is(key, "maxNonce") {
        if st.max_nonce.is_some() {
            return None;
        }
        match p_quoted(s) {
            None => None,
            Some((v, r)) => Some((RespSt { max_nonce: Some(v), ..st }, r)),
        }
    } else if key_is(key, "protocolAddress") {
        if st.protocol_address.is_some() {
            return None;
        }
        match p_quoted(s) {
            None => None,
            Some((v, r)) => Some((RespSt { protocol_address: Some(v), ..st }, r)),
        }
    } else if key_is(key, "sponsorshipRatio") {
        if st.sponsorship_ratio.is_some() {
            return None;
        }
        match p_quoted(s) {
            None => None,
            Some((v, r)) => Some((RespSt { sponsorship_ratio: Some(v), ..st }, r)),
        }
    } else if key_is(key, "estimatedFinalFeeTokenAmount") {
        if st.estimated_final_fee_token_amount.is_some() {
            return None;
        }
        match p_quoted(s) {
            None => None,
            Some((v, r)) => Some(
                (RespSt { estimated_final_fee_token_amount: Some(v), ..st }, r),
            ),
        }
    } else if key_is(key, "estimatedFinalFeeUsd") {
        if st.estimated_final_fee_usd.is_some() {
            return None;
        }
        match p_quoted(s) {
            None => None,
            Some((v, r)) => Some((RespSt { estimated_final_fee_usd: Some(v), ..st }, r)),
        }
    } else {
        match p_skip_value(s, fuel) {
            None => None,
            Some(r) => Some((st, r)),
        }
    }
}

fn p_resp_members<'a>(s0: &'a str, st: RespSt, fuel: usize) -> (r: Option<(RespSt, &'a str)>)
    ensures
        match r {
            Some(v) => sp_resp_members(s0@, st@, fuel as nat) == Some((v.0@, v.1@)),
            None => sp_resp_members(s0@, st@, fuel as nat) is None,
        },
    decreases fuel,
{
    if fuel == 0 {
        return None;
    }
    let (key, s2) = match p_quoted(p_ws(s0)) {
        None => {
            return None;
        },
        Some(v) => v,
    };
    let s3 = p_ws(s2);
    if s3.unicode_len() == 0 {
        return None;
    }
    if s3.get_char(0) != ':' {
        return None;
    }
    let (st2, s4) = match p_resp_dispatch(&key, p_ws(skip1(s3)), st, fuel - 1) {
        None => {
            return None;
        },
        Some(v) => v,
    };
    p_resp_after(s4, st2, fuel - 1)
}

fn p_resp_after<'a>(s: &'a str, st: RespSt, fuel: usize) -> (r: Option<(RespSt, &'a str)>)
    ensures
        match r {
            Some(v) => sp_resp_after(s@, st@, fuel as nat) == Some((v.0@, v.1@)),
            None => sp_resp_after(s@, st@, fuel as nat) is None,
        },
    decreases fuel,
{
    let s5 = p_ws(s);
    if s5.unicode_len() == 0 {
        return None;
    }
    let c = s5.get_char(0);
    if c == ',' {
        if fuel == 0 {
            None
        } else {
            p_resp_members(skip1(s5), st, fuel - 1)
        }
    } else if c == '}' {
        Some((st, skip1(s5)))
    } else {
        None
    }
}

fn p_resp_finish(st: RespSt) -> (r: Option<Response>)
    ensures
        match r {
            Some(v) => sp_resp_finish(st@) == Some(v@),
            None => sp_resp_finish(st@) is None,
        },
{
    let RespSt {
        tx_data,
        gas_limit,
        gas_price,
        token_address,
        token_price,
        fee_token_amount,
        fee_token_decimals,
        fee_usd,
        markup,
        expiration_time,
        expires_in,
        max_nonce,
        protocol_address,
        sponsorship_ratio,
        estimated_final_fee_token_amount,
        estimated_final_fee_usd,
    } = st;
    match (tx_data, gas_limit, gas_price, token_address, token_price, fee_token_amount, fee_token_decimals, fee_usd) {
        (
            Some(tx_data),
            Some(gas_limit),
            Some(gas_price),
            Some(token_address),
            Some(token_price),
            Some(fee_token_amount),
            Some(fee_token_decimals),
            Some(fee_usd),
        ) => match (markup, expiration_time, expires_in) {
            (Some(markup), Some(expiration_time), Some(expires_in)) => Some(
                Response {
                    tx_data,
                    gas_limit,
                    gas_price,
                    token_address,
                    token_price,
                    fee_token_amount,
                    fee_token_decimals,
                    fee_usd,
                    markup,
                    expiration_time,
                    expires_in,
                    max_nonce,
                    protocol_address,
                    sponsorship_ratio,
                    estimated_final_fee_token_amount,
                    estimated_final_fee_usd,
                },
            ),
            _ => None,
        },
        _ => None,
    }
}

fn p_resp_obj<'a>(s0: &'a str, fuel: usize) -> (r: Option<(Response, &'a str)>)
    ensures
        match r {
            Some(v) => sp_resp_obj(s0@, fuel as nat) == Some((v.0@, v.1@)),
            None => sp_resp_obj(s0@, fuel as nat) is None,
        },
{
    let s = p_ws(s0);
    if s.unicode_len() == 0 {
        return None;
    }
    if s.get_char(0) != '{' {
        return None;
    }
    let inner = skip1(s);
    let s1 = p_ws(inner);
    if s1.unicode_len() > 0 && s1.get_char(0) == '}' {
        match p_resp_finish(resp_st0()) {
            None => None,
            Some(v) => Some((v, skip1(s1))),
        }
    } else {
        match p_resp_members(inner, resp_st0(), fuel) {
            None => None,
            Some((st, r)) => match p_resp_finish(st) {
                None => None,
                Some(v) => Some((v, r)),
            },
        }
    }
}

/// Read a whole response from JSON text.
pub fn decode_response(s: &str) -> (r: Option<Response>)
    ensures
        match r {
            Some(v) => sp_decode_response(s@) == Some(v@),
            None => sp_decode_response(s@) is None,
        },
{
    let len = s.unicode_len();
    let fuel: usize = if len <= usize::MAX - 64 {
        len + 64
    } else {
        usize::MAX
    };
    proof {
        assert(fuel as nat == decode_fuel(s@));
    }
    match p_resp_obj(s, fuel) {
        None => None,
        Some((resp, rest)) => {
            let tail = p_ws(rest);
            if tail.unicode_len() == 0 {
                Some(resp)
            } else {
                None
            }
        },
    }
}


// ---------------------------------------------------------------------------
// Laws: the reader over the printer
// ---------------------------------------------------------------------------

pub open spec fn tx_data_quote_free(t: TxDataSpec) -> bool {
    no_quote(t.from) && no_quote(t.to) && no_quote(t.data) && no_quote(t.value) && no_quote(
        t.custom_data.paymaster_params.paymaster,
    ) && no_quote(t.custom_data.paymaster_params.paymaster_input) && no_quote(t.max_fee_per_gas)
}

pub open spec fn opt_quote_free(o: Option<Seq<char>>) -> bool {
    o is Some ==> no_quote(o->0)
}

pub open spec fn response_quote_free(r: ResponseSpec) -> bool {
    tx_data_quote_free(r.tx_data) && no_quote(r.gas_limit) && no_quote(r.gas_price) && no_quote(
        r.token_address,
    ) && no_quote(r.token_price) && no_quote(r.fee_token_amount) && no_quote(r.fee_token_decimals)
        && no_quote(r.fee_usd) && no_quote(r.markup) && no_quote(r.expiration_time) && no_quote(
        r.expires_in,
    ) && opt_quote_free(r.max_nonce) && opt_quote_free(r.protocol_address) && opt_quote_free(
        r.sponsorship_ratio,
    ) && opt_quote_free(r.estimated_final_fee_token_amount) && opt_quote_free(
        r.estimated_final_fee_usd,
    )
}

/// Facts for one member head: the key reads back and the colon follows.
proof fn lemma_member_head(k: Seq<char>, v_text: Seq<char>)
    requires
        no_quote(k),
    ensures
        sp_quoted(str_val(k, ":"@ + v_text)) == Some((k, ":"@ + v_text)),
        sp_ws(str_val(k, ":"@ + v_text)) == str_val(k, ":"@ + v_text),
        str_val(k, ":"@ + v_text).len() > 0 && str_val(k, ":"@ + v_text)[0] == '"',
        sp_ws(":"@ + v_text) == ":"@ + v_text,
        (":"@ + v_text).len() > 0 && (":"@ + v_text)[0] == ':',
        (":"@ + v_text).skip(1) == v_text,
{
    reveal_strlit("\"");
    reveal_strlit(":");
    lemma_peel_quoted(k, ":"@ + v_text);
    assert(str_val(k, ":"@ + v_text)[0] == '"');
    assert((":"@ + v_text)[0] == ':');
    assert((":"@ + v_text).skip(1) =~= v_text);
}

/// Facts for one string value: it reads back with both quotes consumed.
proof fn lemma_value_str(v: Seq<char>, cont: Seq<char>)
    requires
        no_quote(v),
    ensures
        sp_quoted(str_val(v, cont)) == Some((v, cont)),
        sp_ws(str_val(v, cont)) == str_val(v, cont),
        str_val(v, cont).len() > 0 && str_val(v, cont)[0] == '"',
{
    reveal_strlit("\"");
    lemma_peel_quoted(v, cont);
    assert(str_val(v, cont)[0] == '"');
}

/// Facts for one numeric value followed by a comma or brace.
proof fn lemma_value_num(n: u64, cont: Seq<char>)
    requires
        cont.len() > 0,
        !is_digit(cont[0]),
        !is_ws(cont[0]),
    ensures
        sp_num(spec_num(n as nat) + cont) == Some((n, cont)),
        sp_ws(spec_num(n as nat) + cont) == spec_num(n as nat) + cont,
        (spec_num(n as nat) + cont).len() > 0,
{
    lemma_peel_num(n, cont);
    crate::json::lemma_spec_num_digits(n as nat);
    assert((spec_num(n as nat) + cont)[0] == spec_num(n as nat)[0]);
    assert(is_digit((spec_num(n as nat) + cont)[0]));
}

/// Facts for a comma continuation.
proof fn lemma_cont_comma(x: Seq<char>)
    ensures
        (","@ + x).len() > 0 && (","@ + x)[0] == ',',
        sp_ws(","@ + x) == ","@ + x,
        (","@ + x).skip(1) == x,
{
    reveal_strlit(",");
    assert((","@ + x)[0] == ',');
    assert((","@ + x).skip(1) =~= x);
}

/// Facts for a closing-brace continuation.
proof fn lemma_cont_brace(x: Seq<char>)
    ensures
        ("}"@ + x).len() > 0 && ("}"@ + x)[0] == '}',
        sp_ws("}"@ + x) == "}"@ + x,
        ("}"@ + x).skip(1) == x,
{
    reveal_strlit("}");
    assert(("}"@ + x)[0] == '}');
    assert(("}"@ + x).skip(1) =~= x);
}

/// Law: a printed paymaster-parameters object, followed by anything, reads
/// back unchanged with exactly the following text left over.
pub proof fn lemma_pm_round_trip(p: PaymasterParamsSpec, rest: Seq<char>, fuel: nat)
    requires
        no_quote(p.paymaster),
        no_quote(p.paymaster_input),
        fuel >= 8,
    ensures
        sp_pm_obj(pm_chain(p, rest), fuel) == Some((p, rest)),
{
    reveal_with_fuel(sp_pm_members, 4);
    reveal_strlit("{");
    reveal_strlit("}");
    reveal_strlit("\"");
    reveal_strlit("paymaster");
    reveal_strlit("paymasterInput");
    let m2 = member_str("paymasterInput"@, p.paymaster_input, "}"@ + rest);
    let m1 = member_str("paymaster"@, p.paymaster, ","@ + m2);
    let s = pm_chain(p, rest);
    assert(s[0] == '{');
    assert(!is_ws('{'));
    assert(sp_ws(s) == s);
    assert(s.skip(1) =~= m1);
    assert(no_quote("paymaster"@));
    assert(no_quote("paymasterInput"@));
    lemma_member_head("paymaster"@, str_val(p.paymaster, ","@ + m2));
    lemma_value_str(p.paymaster, ","@ + m2);
    lemma_cont_comma(m2);
    lemma_member_head("paymasterInput"@, str_val(p.paymaster_input, "}"@ + rest));
    assert("paymasterInput"@ != "paymaster"@);
    lemma_value_str(p.paymaster_input, "}"@ + rest);
    lemma_cont_brace(rest);
    assert(PaymasterParamsSpec {
        paymaster: p.paymaster,
        paymaster_input: p.paymaster_input,
    } =~= p);
}

/// Law: a printed custom-data object reads back unchanged.
pub proof fn lemma_cd_round_trip(c: CustomDataSpec, rest: Seq<char>, fuel: nat)
    requires
        no_quote(c.paymaster_params.paymaster),
        no_quote(c.paymaster_params.paymaster_input),
        fuel >= 16,
    ensures
        sp_cd_obj(cd_chain(c, rest), fuel) == Some((c, rest)),
{
    reveal_with_fuel(sp_cd_members, 4);
    reveal_strlit("{");
    reveal_strlit("}");
    reveal_strlit("\"");
    reveal_strlit("paymasterParams");
    reveal_strlit("gasPerPubdata");
    let m2 = member_num("gasPerPubdata"@, c.gas_per_pubdata, "}"@ + rest);
    let pm_text = pm_chain(c.paymaster_params, ","@ + m2);
    let m1 = member_obj("paymasterParams"@, pm_text);
    let s = cd_chain(c, rest);
    assert(s[0] == '{');
    assert(sp_ws(s) == s);
    assert(s.skip(1) =~= m1);
    assert(no_quote("paymasterParams"@));
    assert(no_quote("gasPerPubdata"@));
    lemma_member_head("paymasterParams"@, pm_text);
    assert(pm_text[0] == '{');
    assert(sp_ws(pm_text) == pm_text);
    lemma_pm_round_trip(c.paymaster_params, ","@ + m2, (fuel - 1) as nat);
    lemma_cont_comma(m2);
    assert("gasPerPubdata"@ != "paymasterParams"@);
    lemma_member_head("gasPerPubdata"@, spec_num(c.gas_per_pubdata as nat) + ("}"@ + rest));
    lemma_cont_brace(rest);
    lemma_value_num(c.gas_per_pubdata, "}"@ + rest);
    assert(CustomDataSpec {
        paymaster_params: c.paymaster_params,
        gas_per_pubdata: c.gas_per_pubdata,
    } =~= c);
}

/// The back half of the transaction object: members from `value` on.
#[verifier::rlimit(100)]
proof fn lemma_tx_tail_round_trip(t: TxDataSpec, rest: Seq<char>, st: TxState, fuel: nat)
    requires
        tx_data_quote_free(t),
        fuel >= 26,
        st.value is None,
        st.custom_data is None,
        st.max_fee_per_gas is None,
        st.gas_limit is None,
    ensures
        sp_tx_members(tx_m5(t, rest), st, fuel) == Some(
            (
                TxState {
                    value: Some(t.value),
                    custom_data: Some(t.custom_data),
                    max_fee_per_gas: Some(t.max_fee_per_gas),
                    gas_limit: Some(t.gas_limit),
                    ..st
                },
                rest,
            ),
        ),
{
    reveal_with_fuel(sp_tx_members, 6);
    reveal_strlit("{");
    reveal_strlit("}");
    reveal_strlit("\"");
    reveal_strlit("chainId");
    reveal_strlit("from");
    reveal_strlit("to");
    reveal_strlit("data");
    reveal_strlit("value");
    reveal_strlit("customData");
    reveal_strlit("maxFeePerGas");
    reveal_strlit("gasLimit");
    assert(no_quote("value"@));
    assert(no_quote("customData"@));
    assert(no_quote("maxFeePerGas"@));
    assert(no_quote("gasLimit"@));
    // value
    lemma_member_head("value"@, str_val(t.value, ","@ + tx_m6(t, rest)));
    lemma_value_str(t.value, ","@ + tx_m6(t, rest));
    lemma_cont_comma(tx_m6(t, rest));
    // customData
    let cd_text = cd_chain(t.custom_data, ","@ + tx_m7(t, rest));
    lemma_member_head("customData"@, cd_text);
    assert(cd_text[0] == '{');
    assert(sp_ws(cd_text) == cd_text);
    lemma_cd_round_trip(t.custom_data, ","@ + tx_m7(t, rest), (fuel - 2) as nat);
    lemma_cont_comma(tx_m7(t, rest));
    // maxFeePerGas
    lemma_member_head("maxFeePerGas"@, str_val(t.max_fee_per_gas, ","@ + tx_m8(t, rest)));
    lemma_value_str(t.max_fee_per_gas, ","@ + tx_m8(t, rest));
    lemma_cont_comma(tx_m8(t, rest));
    // gasLimit
    lemma_member_head("gasLimit"@, spec_num(t.gas_limit as nat) + ("}"@ + rest));
    lemma_cont_brace(rest);
    lemma_value_num(t.gas_limit, "}"@ + rest);
}

/// Law: a printed transaction object reads back unchanged.
#[verifier::rlimit(100)]
pub proof fn lemma_tx_round_trip(t: TxDataSpec, rest: Seq<char>, fuel: nat)
    requires
        tx_data_quote_free(t),
        fuel >= 34,
    ensures
        sp_tx_obj(tx_chain(t, rest), fuel) == Some((t, rest)),
{
    reveal_with_fuel(sp_tx_members, 5);
    reveal_strlit("{");
    reveal_strlit("}");
    reveal_strlit("\"");
    reveal_strlit("chainId");
    reveal_strlit("from");
    reveal_strlit("to");
    reveal_strlit("data");
    reveal_strlit("value");
    reveal_strlit("customData");
    reveal_strlit("maxFeePerGas");
    reveal_strlit("gasLimit");
    let s = tx_chain(t, rest);
    assert(s[0] == '{');
    assert(sp_ws(s) == s);
    let m1 = member_num("chainId"@, t.chain_id as u64, ","@ + tx_m2(t, rest));
    assert(s.skip(1) =~= m1);
    assert(no_quote("chainId"@));
    assert(no_quote("from"@));
    assert(no_quote("to"@));
    assert(no_quote("data"@));
    // chainId
    lemma_member_head(
        "chainId"@,
        spec_num((t.chain_id as u64) as nat) + (","@ + tx_m2(t, rest)),
    );
    lemma_cont_comma(tx_m2(t, rest));
    lemma_value_num(t.chain_id as u64, ","@ + tx_m2(t, rest));
    assert(t.chain_id as u64 <= u32::MAX as u64);
    assert((t.chain_id as u64) as u32 == t.chain_id);
    // from
    lemma_member_head("from"@, str_val(t.from, ","@ + tx_m3(t, rest)));
    assert("from"@ != "chainId"@);
    lemma_value_str(t.from, ","@ + tx_m3(t, rest));
    lemma_cont_comma(tx_m3(t, rest));
    // to
    lemma_member_head("to"@, str_val(t.to, ","@ + tx_m4(t, rest)));
    lemma_value_str(t.to, ","@ + tx_m4(t, rest));
    lemma_cont_comma(tx_m4(t, rest));
    // data
    lemma_member_head("data"@, str_val(t.data, ","@ + tx_m5(t, rest)));
    assert("data"@ != "from"@) by {
        assert("data"@[0] == 'd');
        assert("from"@[0] == 'f');
    }
    lemma_value_str(t.data, ","@ + tx_m5(t, rest));
    lemma_cont_comma(tx_m5(t, rest));
    // the remaining members
    let st4 = TxState {
        chain_id: Some(t.chain_id),
        from: Some(t.from),
        to: Some(t.to),
        data: Some(t.data),
        ..tx_state0()
    };
    lemma_tx_tail_round_trip(t, rest, st4, (fuel - 4) as nat);
    assert(TxDataSpec {
        chain_id: t.chain_id,
        from: t.from,
        to: t.to,
        data: t.data,
        value: t.value,
        custom_data: t.custom_data,
        max_fee_per_gas: t.max_fee_per_gas,
        gas_limit: t.gas_limit,
    } =~= t);
}


proof fn lemma_ro5(r: ResponseSpec, st: RespState, fuel: nat)
    requires
        opt_quote_free(r.estimated_final_fee_usd),
        st.estimated_final_fee_usd is None,
        fuel >= 4,
    ensures
        sp_resp_after(ro5(r), st, fuel) == Some(
            (
                RespState { estimated_final_fee_usd: r.estimated_final_fee_usd, ..st },
                Seq::<char>::empty(),
            ),
        ),
{
    reveal_with_fuel(sp_resp_after, 3);
    reveal_strlit("{");
    reveal_strlit("}");
    reveal_strlit("\"");
    reveal_strlit("txData");
    reveal_strlit("gasLimit");
    reveal_strlit("gasPrice");
    reveal_strlit("tokenAddress");
    reveal_strlit("tokenPrice");
    reveal_strlit("feeTokenAmount");
    reveal_strlit("feeTokendecimals");
    reveal_strlit("feeUSD");
    reveal_strlit("markup");
    reveal_strlit("expirationTime");
    reveal_strlit("expiresIn");
    reveal_strlit("maxNonce");
    reveal_strlit("protocolAddress");
    reveal_strlit("sponsorshipRatio");
    reveal_strlit("estimatedFinalFeeTokenAmount");
    reveal_strlit("estimatedFinalFeeUsd");
    if r.estimated_final_fee_usd is Some {
        let v = r.estimated_final_fee_usd->0;
        lemma_cont_comma(member_str("estimatedFinalFeeUsd"@, v, "}"@));
        assert(no_quote("estimatedFinalFeeUsd"@));
        lemma_member_head("estimatedFinalFeeUsd"@, str_val(v, "}"@));
        lemma_value_str(v, "}"@);
        assert(sp_ws("}"@) == "}"@);
        assert("}"@.len() > 0 && "}"@[0] == '}');
        assert("}"@.skip(1) =~= Seq::<char>::empty());
        assert(RespState { estimated_final_fee_usd: Some(v), ..st } =~= RespState {
            estimated_final_fee_usd: r.estimated_final_fee_usd,
            ..st
        });
    } else {
        assert(ro5(r) == "}"@);
        assert(sp_ws("}"@) == "}"@);
        assert("}"@.len() > 0 && "}"@[0] == '}');
        assert("}"@.skip(1) =~= Seq::<char>::empty());
        assert(RespState { estimated_final_fee_usd: r.estimated_final_fee_usd, ..st } =~= st);
    }
}

proof fn lemma_ro4(r: ResponseSpec, st: RespState, fuel: nat)
    requires
        opt_quote_free(r.estimated_final_fee_token_amount),
        opt_quote_free(r.estimated_final_fee_usd),
        st.estimated_final_fee_token_amount is None,
        st.estimated_final_fee_usd is None,
        fuel >= 6,
    ensures
        sp_resp_after(ro4(r), st, fuel) == Some(
            (
                RespState {
                    estimated_final_fee_token_amount: r.estimated_final_fee_token_amount,
                    estimated_final_fee_usd: r.estimated_final_fee_usd,
                    ..st
                },
                Seq::<char>::empty(),
            ),
        ),
{
    reveal_with_fuel(sp_resp_after, 3);
    reveal_strlit("{");
    reveal_strlit("}");
    reveal_strlit("\"");
    reveal_strlit("txData");
    reveal_strlit("gasLimit");
    reveal_strlit("gasPrice");
    reveal_strlit("tokenAddress");
    reveal_strlit("tokenPrice");
    reveal_strlit("feeTokenAmount");
    reveal_strlit("feeTokendecimals");
    reveal_strlit("feeUSD");
    reveal_strlit("markup");
    reveal_strlit("expirationTime");
    reveal_strlit("expiresIn");
    reveal_strlit("maxNonce");
    reveal_strlit("protocolAddress");
    reveal_strlit("sponsorshipRatio");
    reveal_strlit("estimatedFinalFeeTokenAmount");
    reveal_strlit("estimatedFinalFeeUsd");
    if r.estimated_final_fee_token_amount is Some {
        let v = r.estimated_final_fee_token_amount->0;
        lemma_cont_comma(member_str("estimatedFinalFeeTokenAmount"@, v, ro5(r)));
        assert(no_quote("estimatedFinalFeeTokenAmount"@));
        lemma_member_head("estimatedFinalFeeTokenAmount"@, str_val(v, ro5(r)));
        lemma_value_str(v, ro5(r));
        lemma_ro5(r, RespState { estimated_final_fee_token_amount: Some(v), ..st }, (fuel - 2) as nat);
    } else {
        assert(ro4(r) == ro5(r));
        lemma_ro5(r, st, fuel);
        assert(RespState { estimated_final_fee_usd: r.estimated_final_fee_usd, ..st } =~= RespState {
            estimated_final_fee_token_amount: r.estimated_final_fee_token_amount,
            estimated_final_fee_usd: r.estimated_final_fee_usd,
            ..st
        });
    }
}

proof fn lemma_ro3(r: ResponseSpec, st: RespState, fuel: nat)
    requires
        opt_quote_free(r.sponsorship_ratio),
        opt_quote_free(r.estimated_final_fee_token_amount),
        opt_quote_free(r.estimated_final_fee_usd),
        st.sponsorship_ratio is None,
        st.estimated_final_fee_token_amount is None,
        st.estimated_final_fee_usd is None,
        fuel >= 8,
    ensures
        sp_resp_after(ro3(r), st, fuel) == Some(
            (
                RespState {
                    sponsorship_ratio: r.sponsorship_ratio,
                    estimated_final_fee_token_amount: r.estimated_final_fee_token_amount,
                    estimated_final_fee_usd: r.estimated_final_fee_usd,
                    ..st
                },
                Seq::<char>::empty(),
            ),
        ),
{
    reveal_with_fuel(sp_resp_after, 3);
    reveal_strlit("{");
    reveal_strlit("}");
    reveal_strlit("\"");
    reveal_strlit("txData");
    reveal_strlit("gasLimit");
    reveal_strlit("gasPrice");
    reveal_strlit("tokenAddress");
    reveal_strlit("tokenPrice");
    reveal_strlit("feeTokenAmount");
    reveal_strlit("feeTokendecimals");
    reveal_strlit("feeUSD");
    reveal_strlit("markup");
    reveal_strlit("expirationTime");
    reveal_strlit("expiresIn");
    reveal_strlit("maxNonce");
    reveal_strlit("protocolAddress");
    reveal_strlit("sponsorshipRatio");
    reveal_strlit("estimatedFinalFeeTokenAmount");
    reveal_strlit("estimatedFinalFeeUsd");
    assert("sponsorshipRatio"@ != "feeTokendecimals"@) by {
        assert("sponsorshipRatio"@[0] == 's');
        assert("feeTokendecimals"@[0] == 'f');
    }
    if r.sponsorship_ratio is Some {
        let v = r.sponsorship_ratio->0;
        lemma_cont_comma(member_str("sponsorshipRatio"@, v, ro4(r)));
        assert(no_quote("sponsorshipRatio"@));
        lemma_member_head("sponsorshipRatio"@, str_val(v, ro4(r)));
        lemma_value_str(v, ro4(r));
        lemma_ro4(r, RespState { sponsorship_ratio: Some(v), ..st }, (fuel - 2) as nat);
    } else {
        assert(ro3(r) == ro4(r));
        lemma_ro4(r, st, fuel);
        assert(RespState {
            estimated_final_fee_token_amount: r.estimated_final_fee_token_amount,
            estimated_final_fee_usd: r.estimated_final_fee_usd,
            ..st
        } =~= RespState {
            sponsorship_ratio: r.sponsorship_ratio,
            estimated_final_fee_token_amount: r.estimated_final_fee_token_amount,
            estimated_final_fee_usd: r.estimated_final_fee_usd,
            ..st
        });
    }
}

proof fn lemma_ro2(r: ResponseSpec, st: RespState, fuel: nat)
    requires
        opt_quote_free(r.protocol_address),
        opt_quote_free(r.sponsorship_ratio),
        opt_quote_free(r.estimated_final_fee_token_amount),
        opt_quote_free(r.estimated_final_fee_usd),
        st.protocol_address is None,
        st.sponsorship_ratio is None,
        st.estimated_final_fee_token_amount is None,
        st.estimated_final_fee_usd is None,
        fuel >= 10,
    ensures
        sp_resp_after(ro2(r), st, fuel) == Some(
            (
                RespState {
                    protocol_address: r.protocol_address,
                    sponsorship_ratio: r.sponsorship_ratio,
                    estimated_final_fee_token_amount: r.estimated_final_fee_token_amount,
                    estimated_final_fee_usd: r.estimated_final_fee_usd,
                    ..st
                },
                Seq::<char>::empty(),
            ),
        ),
{
    reveal_with_fuel(sp_resp_after, 3);
    reveal_strlit("{");
    reveal_strlit("}");
    reveal_strlit("\"");
    reveal_strlit("txData");
    reveal_strlit("gasLimit");
    reveal_strlit("gasPrice");
    reveal_strlit("tokenAddress");
    reveal_strlit("tokenPrice");
    reveal_strlit("feeTokenAmount");
    reveal_strlit("feeTokendecimals");
    reveal_strlit("feeUSD");
    reveal_strlit("markup");
    reveal_strlit("expirationTime");
    reveal_strlit("expiresIn");
    reveal_strlit("maxNonce");
    reveal_strlit("protocolAddress");
    reveal_strlit("sponsorshipRatio");
    reveal_strlit("estimatedFinalFeeTokenAmount");
    reveal_strlit("estimatedFinalFeeUsd");
    if r.protocol_address is Some {
        let v = r.protocol_address->0;
        lemma_cont_comma(member_str("protocolAddress"@, v, ro3(r)));
        assert(no_quote("protocolAddress"@));
        lemma_member_head("protocolAddress"@, str_val(v, ro3(r)));
        lemma_value_str(v, ro3(r));
        lemma_ro3(r, RespState { protocol_address: Some(v), ..st }, (fuel - 2) as nat);
    } else {
        assert(ro2(r) == ro3(r));
        lemma_ro3(r, st, fuel);
        assert(RespState {
            sponsorship_ratio: r.sponsorship_ratio,
            estimated_final_fee_token_amount: r.estimated_final_fee_token_amount,
            estimated_final_fee_usd: r.estimated_final_fee_usd,
            ..st
        } =~= RespState {
            protocol_address: r.protocol_address,
            sponsorship_ratio: r.sponsorship_ratio,
            estimated_final_fee_token_amount: r.estimated_final_fee_token_amount,
            estimated_final_fee_usd: r.estimated_final_fee_usd,
            ..st
        });
    }
}

proof fn lemma_ro1(r: ResponseSpec, st: RespState, fuel: nat)
    requires
        opt_quote_free(r.max_nonce),
        opt_quote_free(r.protocol_address),
        opt_quote_free(r.sponsorship_ratio),
        opt_quote_free(r.estimated_final_fee_token_amount),
        opt_quote_free(r.estimated_final_fee_usd),
        st.max_nonce is None,
        st.protocol_address is None,
        st.sponsorship_ratio is None,
        st.estimated_final_fee_token_amount is None,
        st.estimated_final_fee_usd is None,
        fuel >= 12,
    ensures
        sp_resp_after(ro1(r), st, fuel) == Some(
            (
                RespState {
                    max_nonce: r.max_nonce,
                    protocol_address: r.protocol_address,
                    sponsorship_ratio: r.sponsorship_ratio,
                    estimated_final_fee_token_amount: r.estimated_final_fee_token_amount,
                    estimated_final_fee_usd: r.estimated_final_fee_usd,
                    ..st
                },
                Seq::<char>::empty(),
            ),
        ),
{
    reveal_with_fuel(sp_resp_after, 3);
    reveal_strlit("{");
    reveal_strlit("}");
    reveal_strlit("\"");
    reveal_strlit("txData");
    reveal_strlit("gasLimit");
    reveal_strlit("gasPrice");
    reveal_strlit("tokenAddress");
    reveal_strlit("tokenPrice");
    reveal_strlit("feeTokenAmount");
    reveal_strlit("feeTokendecimals");
    reveal_strlit("feeUSD");
    reveal_strlit("markup");
    reveal_strlit("expirationTime");
    reveal_strlit("expiresIn");
    reveal_strlit("maxNonce");
    reveal_strlit("protocolAddress");
    reveal_strlit("sponsorshipRatio");
    reveal_strlit("estimatedFinalFeeTokenAmount");
    reveal_strlit("estimatedFinalFeeUsd");
    assert("maxNonce"@ != "gasLimit"@) by {
        assert("maxNonce"@[0] == 'm');
        assert("gasLimit"@[0] == 'g');
    }
    assert("maxNonce"@ != "gasPrice"@) by {
        assert("maxNonce"@[0] == 'm');
        assert("gasPrice"@[0] == 'g');
    }
    if r.max_nonce is Some {
        let v = r.max_nonce->0;
        lemma_cont_comma(member_str("maxNonce"@, v, ro2(r)));
        assert(no_quote("maxNonce"@));
        lemma_member_head("maxNonce"@, str_val(v, ro2(r)));
        lemma_value_str(v, ro2(r));
        lemma_ro2(r, RespState { max_nonce: Some(v), ..st }, (fuel - 2) as nat);
    } else {
        assert(ro1(r) == ro2(r));
        lemma_ro2(r, st, fuel);
        assert(RespState {
            protocol_address: r.protocol_address,
            sponsorship_ratio: r.sponsorship_ratio,
            estimated_final_fee_token_amount: r.estimated_final_fee_token_amount,
            estimated_final_fee_usd: r.estimated_final_fee_usd,
            ..st
        } =~= RespState {
            max_nonce: r.max_nonce,
            protocol_address: r.protocol_address,
            sponsorship_ratio: r.sponsorship_ratio,
            estimated_final_fee_token_amount: r.estimated_final_fee_token_amount,
            estimated_final_fee_usd: r.estimated_final_fee_usd,
            ..st
        });
    }
}

/// Members from `markup` on, then the optional tail.
#[verifier::rlimit(100)]
proof fn lemma_resp_tail3(r: ResponseSpec, st: RespState, fuel: nat)
    requires
        response_quote_free(r),
        st.markup is None,
        st.expiration_time is None,
        st.expires_in is None,
        st.max_nonce is None,
        st.protocol_address is None,
        st.sponsorship_ratio is None,
        st.estimated_final_fee_token_amount is None,
        st.estimated_final_fee_usd is None,
        fuel >= 30,
    ensures
        sp_resp_members(resp_m9(r), st, fuel) == Some(
            (
                RespState {
                    markup: Some(r.markup),
                    expiration_time: Some(r.expiration_time),
                    expires_in: Some(r.expires_in),
                    max_nonce: r.max_nonce,
                    protocol_address: r.protocol_address,
                    sponsorship_ratio: r.sponsorship_ratio,
                    estimated_final_fee_token_amount: r.estimated_final_fee_token_amount,
                    estimated_final_fee_usd: r.estimated_final_fee_usd,
                    ..st
                },
                Seq::<char>::empty(),
            ),
        ),
{
    reveal_with_fuel(sp_resp_members, 5);
    reveal_with_fuel(sp_resp_after, 5);
    reveal_strlit("{");
    reveal_strlit("}");
    reveal_strlit("\"");
    reveal_strlit("txData");
    reveal_strlit("gasLimit");
    reveal_strlit("gasPrice");
    reveal_strlit("tokenAddress");
    reveal_strlit("tokenPrice");
    reveal_strlit("feeTokenAmount");
    reveal_strlit("feeTokendecimals");
    reveal_strlit("feeUSD");
    reveal_strlit("markup");
    reveal_strlit("expirationTime");
    reveal_strlit("expiresIn");
    reveal_strlit("maxNonce");
    reveal_strlit("protocolAddress");
    reveal_strlit("sponsorshipRatio");
    reveal_strlit("estimatedFinalFeeTokenAmount");
    reveal_strlit("estimatedFinalFeeUsd");
    assert(no_quote("markup"@));
    assert(no_quote("expirationTime"@));
    assert(no_quote("expiresIn"@));
    assert("markup"@ != "txData"@) by {
        assert("markup"@[0] == 'm');
        assert("txData"@[0] == 't');
    }
    assert("markup"@ != "feeUSD"@) by {
        assert("markup"@[0] == 'm');
        assert("feeUSD"@[0] == 'f');
    }
    assert("expirationTime"@ != "feeTokenAmount"@) by {
        assert("expirationTime"@[0] == 'e');
        assert("feeTokenAmount"@[0] == 'f');
    }
    lemma_member_head("markup"@, str_val(r.markup, ","@ + resp_m10(r)));
    lemma_value_str(r.markup, ","@ + resp_m10(r));
    lemma_cont_comma(resp_m10(r));
    lemma_member_head("expirationTime"@, str_val(r.expiration_time, ","@ + resp_m11(r)));
    lemma_value_str(r.expiration_time, ","@ + resp_m11(r));
    lemma_cont_comma(resp_m11(r));
    lemma_member_head("expiresIn"@, str_val(r.expires_in, ro1(r)));
    lemma_value_str(r.expires_in, ro1(r));
    let st11 = RespState {
        markup: Some(r.markup),
        expiration_time: Some(r.expiration_time),
        expires_in: Some(r.expires_in),
        ..st
    };
    lemma_ro1(r, st11, (fuel - 5) as nat);
}

/// Members from `feeTokenAmount` on, then the optional tail.
#[verifier::rlimit(100)]
proof fn lemma_resp_back_round_trip(r: ResponseSpec, st: RespState, fuel: nat)
    requires
        response_quote_free(r),
        st.fee_token_amount is None,
        st.fee_token_decimals is None,
        st.fee_usd is None,
        st.markup is None,
        st.expiration_time is None,
        st.expires_in is None,
        st.max_nonce is None,
        st.protocol_address is None,
        st.sponsorship_ratio is None,
        st.estimated_final_fee_token_amount is None,
        st.estimated_final_fee_usd is None,
        fuel >= 40,
    ensures
        sp_resp_members(resp_m6(r), st, fuel) == Some(
            (
                RespState {
                    fee_token_amount: Some(r.fee_token_amount),
                    fee_token_decimals: Some(r.fee_token_decimals),
                    fee_usd: Some(r.fee_usd),
                    markup: Some(r.markup),
                    expiration_time: Some(r.expiration_time),
                    expires_in: Some(r.expires_in),
                    max_nonce: r.max_nonce,
                    protocol_address: r.protocol_address,
                    sponsorship_ratio: r.sponsorship_ratio,
                    estimated_final_fee_token_amount: r.estimated_final_fee_token_amount,
                    estimated_final_fee_usd: r.estimated_final_fee_usd,
                    ..st
                },
                Seq::<char>::empty(),
            ),
        ),
{
    reveal_with_fuel(sp_resp_members, 5);
    reveal_with_fuel(sp_resp_after, 5);
    reveal_strlit("{");
    reveal_strlit("}");
    reveal_strlit("\"");
    reveal_strlit("txData");
    reveal_strlit("gasLimit");
    reveal_strlit("gasPrice");
    reveal_strlit("tokenAddress");
    reveal_strlit("tokenPrice");
    reveal_strlit("feeTokenAmount");
    reveal_strlit("feeTokendecimals");
    reveal_strlit("feeUSD");
    reveal_strlit("markup");
    reveal_strlit("expirationTime");
    reveal_strlit("expiresIn");
    reveal_strlit("maxNonce");
    reveal_strlit("protocolAddress");
    reveal_strlit("sponsorshipRatio");
    reveal_strlit("estimatedFinalFeeTokenAmount");
    reveal_strlit("estimatedFinalFeeUsd");
    assert(no_quote("feeTokenAmount"@));
    assert(no_quote("feeTokendecimals"@));
    assert(no_quote("feeUSD"@));
    assert("feeUSD"@ != "txData"@) by {
        assert("feeUSD"@[0] == 'f');
        assert("txData"@[0] == 't');
    }
    lemma_member_head("feeTokenAmount"@, str_val(r.fee_token_amount, ","@ + resp_m7(r)));
    lemma_value_str(r.fee_token_amount, ","@ + resp_m7(r));
    lemma_cont_comma(resp_m7(r));
    lemma_member_head("feeTokendecimals"@, str_val(r.fee_token_decimals, ","@ + resp_m8(r)));
    lemma_value_str(r.fee_token_decimals, ","@ + resp_m8(r));
    lemma_cont_comma(resp_m8(r));
    lemma_member_head("feeUSD"@, str_val(r.fee_usd, ","@ + resp_m9(r)));
    lemma_value_str(r.fee_usd, ","@ + resp_m9(r));
    lemma_cont_comma(resp_m9(r));
    let st8 = RespState {
        fee_token_amount: Some(r.fee_token_amount),
        fee_token_decimals: Some(r.fee_token_decimals),
        fee_usd: Some(r.fee_usd),
        ..st
    };
    lemma_resp_tail3(r, st8, (fuel - 6) as nat);
}

/// Members from `tokenAddress` on.
#[verifier::rlimit(100)]
proof fn lemma_resp_mid_round_trip(r: ResponseSpec, st: RespState, fuel: nat)
    requires
        response_quote_free(r),
        st.token_address is None,
        st.token_price is None,
        st.fee_token_amount is None,
        st.fee_token_decimals is None,
        st.fee_usd is None,
        st.markup is None,
        st.expiration_time is None,
        st.expires_in is None,
        st.max_nonce is None,
        st.protocol_address is None,
        st.sponsorship_ratio is None,
        st.estimated_final_fee_token_amount is None,
        st.estimated_final_fee_usd is None,
        fuel >= 46,
    ensures
        sp_resp_members(resp_m4(r), st, fuel) == Some(
            (
                RespState {
                    token_address: Some(r.token_address),
                    token_price: Some(r.token_price),
                    fee_token_amount: Some(r.fee_token_amount),
                    fee_token_decimals: Some(r.fee_token_decimals),
                    fee_usd: Some(r.fee_usd),
                    markup: Some(r.markup),
                    expiration_time: Some(r.expiration_time),
                    expires_in: Some(r.expires_in),
                    max_nonce: r.max_nonce,
                    protocol_address: r.protocol_address,
                    sponsorship_ratio: r.sponsorship_ratio,
                    estimated_final_fee_token_amount: r.estimated_final_fee_token_amount,
                    estimated_final_fee_usd: r.estimated_final_fee_usd,
                    ..st
                },
                Seq::<char>::empty(),
            ),
        ),
{
    reveal_with_fuel(sp_resp_members, 6);
    reveal_with_fuel(sp_resp_after, 6);
    reveal_strlit("{");
    reveal_strlit("}");
    reveal_strlit("\"");
    reveal_strlit("txData");
    reveal_strlit("gasLimit");
    reveal_strlit("gasPrice");
    reveal_strlit("tokenAddress");
    reveal_strlit("tokenPrice");
    reveal_strlit("feeTokenAmount");
    reveal_strlit("feeTokendecimals");
    reveal_strlit("feeUSD");
    reveal_strlit("markup");
    reveal_strlit("expirationTime");
    reveal_strlit("expiresIn");
    reveal_strlit("maxNonce");
    reveal_strlit("protocolAddress");
    reveal_strlit("sponsorshipRatio");
    reveal_strlit("estimatedFinalFeeTokenAmount");
    reveal_strlit("estimatedFinalFeeUsd");
    assert(no_quote("tokenAddress"@));
    assert(no_quote("tokenPrice"@));
    lemma_member_head("tokenAddress"@, str_val(r.token_address, ","@ + resp_m5(r)));
    lemma_value_str(r.token_address, ","@ + resp_m5(r));
    lemma_cont_comma(resp_m5(r));
    lemma_member_head("tokenPrice"@, str_val(r.token_price, ","@ + resp_m6(r)));
    lemma_value_str(r.token_price, ","@ + resp_m6(r));
    lemma_cont_comma(resp_m6(r));
    let st5 = RespState {
        token_address: Some(r.token_address),
        token_price: Some(r.token_price),
        ..st
    };
    lemma_resp_back_round_trip(r, st5, (fuel - 4) as nat);
}

/// Members from `gasLimit` on.
#[verifier::rlimit(100)]
proof fn lemma_resp_front_round_trip(r: ResponseSpec, st: RespState, fuel: nat)
    requires
        response_quote_free(r),
        st.gas_limit is None,
        st.gas_price is None,
        st.token_address is None,
        st.token_price is None,
        st.fee_token_amount is None,
        st.fee_token_decimals is None,
        st.fee_usd is None,
        st.markup is None,
        st.expiration_time is None,
        st.expires_in is None,
        st.max_nonce is None,
        st.protocol_address is None,
        st.sponsorship_ratio is None,
        st.estimated_final_fee_token_amount is None,
        st.estimated_final_fee_usd is None,
        fuel >= 50,
    ensures
        sp_resp_members(resp_m2(r), st, fuel) == Some(
            (
                RespState {
                    gas_limit: Some(r.gas_limit),
                    gas_price: Some(r.gas_price),
                    token_address: Some(r.token_address),
                    token_price: Some(r.token_price),
                    fee_token_amount: Some(r.fee_token_amount),
                    fee_token_decimals: Some(r.fee_token_decimals),
                    fee_usd: Some(r.fee_usd),
                    markup: Some(r.markup),
                    expiration_time: Some(r.expiration_time),
                    expires_in: Some(r.expires_in),
                    max_nonce: r.max_nonce,
                    protocol_address: r.protocol_address,
                    sponsorship_ratio: r.sponsorship_ratio,
                    estimated_final_fee_token_amount: r.estimated_final_fee_token_amount,
                    estimated_final_fee_usd: r.estimated_final_fee_usd,
                    ..st
                },
                Seq::<char>::empty(),
            ),
        ),
{
    reveal_with_fuel(sp_resp_members, 6);
    reveal_with_fuel(sp_resp_after, 6);
    reveal_strlit("{");
    reveal_strlit("}");
    reveal_strlit("\"");
    reveal_strlit("txData");
    reveal_strlit("gasLimit");
    reveal_strlit("gasPrice");
    reveal_strlit("tokenAddress");
    reveal_strlit("tokenPrice");
    reveal_strlit("feeTokenAmount");
    reveal_strlit("feeTokendecimals");
    reveal_strlit("feeUSD");
    reveal_strlit("markup");
    reveal_strlit("expirationTime");
    reveal_strlit("expiresIn");
    reveal_strlit("maxNonce");
    reveal_strlit("protocolAddress");
    reveal_strlit("sponsorshipRatio");
    reveal_strlit("estimatedFinalFeeTokenAmount");
    reveal_strlit("estimatedFinalFeeUsd");
    assert(no_quote("gasLimit"@));
    assert(no_quote("gasPrice"@));
    assert("gasPrice"@ != "gasLimit"@) by {
        assert("gasPrice"@[3] == 'P');
        assert("gasLimit"@[3] == 'L');
    }
    lemma_member_head("gasLimit"@, str_val(r.gas_limit, ","@ + resp_m3(r)));
    lemma_value_str(r.gas_limit, ","@ + resp_m3(r));
    lemma_cont_comma(resp_m3(r));
    lemma_member_head("gasPrice"@, str_val(r.gas_price, ","@ + resp_m4(r)));
    lemma_value_str(r.gas_price, ","@ + resp_m4(r));
    lemma_cont_comma(resp_m4(r));
    let st3 = RespState { gas_limit: Some(r.gas_limit), gas_price: Some(r.gas_price), ..st };
    lemma_resp_mid_round_trip(r, st3, (fuel - 4) as nat);
}

/// Law: a printed response reads back unchanged.
#[verifier::rlimit(100)]
pub proof fn lemma_response_round_trip(r: ResponseSpec)
    requires
        response_quote_free(r),
    ensures
        sp_decode_response(spec_encode_response(r)) == Some(r),
{
    reveal_with_fuel(sp_resp_members, 3);
    reveal_with_fuel(sp_resp_after, 3);
    reveal_strlit("{");
    reveal_strlit("}");
    reveal_strlit("\"");
    reveal_strlit("txData");
    reveal_strlit("gasLimit");
    reveal_strlit("gasPrice");
    reveal_strlit("tokenAddress");
    reveal_strlit("tokenPrice");
    reveal_strlit("feeTokenAmount");
    reveal_strlit("feeTokendecimals");
    reveal_strlit("feeUSD");
    reveal_strlit("markup");
    reveal_strlit("expirationTime");
    reveal_strlit("expiresIn");
    reveal_strlit("maxNonce");
    reveal_strlit("protocolAddress");
    reveal_strlit("sponsorshipRatio");
    reveal_strlit("estimatedFinalFeeTokenAmount");
    reveal_strlit("estimatedFinalFeeUsd");
    let s = spec_encode_response(r);
    let fuel = decode_fuel(s);
    assert(fuel >= 64);
    assert(s[0] == '{');
    assert(sp_ws(s) == s);
    assert(s.skip(1) =~= resp_m1(r));
    assert(no_quote("txData"@));
    let tx_text = tx_chain(r.tx_data, ","@ + resp_m2(r));
    lemma_member_head("txData"@, tx_text);
    assert(tx_text[0] == '{');
    assert(sp_ws(tx_text) == tx_text);
    lemma_tx_round_trip(r.tx_data, ","@ + resp_m2(r), (fuel - 1) as nat);
    lemma_cont_comma(resp_m2(r));
    let st1 = RespState { tx_data: Some(r.tx_data), ..resp_state0() };
    lemma_resp_front_round_trip(r, st1, (fuel - 2) as nat);
    assert(ResponseSpec {
        tx_data: r.tx_data,
        gas_limit: r.gas_limit,
        gas_price: r.gas_price,
        token_address: r.token_address,
        token_price: r.token_price,
        fee_token_amount: r.fee_token_amount,
        fee_token_decimals: r.fee_token_decimals,
        fee_usd: r.fee_usd,
        markup: r.markup,
        expiration_time: r.expiration_time,
        expires_in: r.expires_in,
        max_nonce: r.max_nonce,
        protocol_address: r.protocol_address,
        sponsorship_ratio: r.sponsorship_ratio,
        estimated_final_fee_token_amount: r.estimated_final_fee_token_amount,
        estimated_final_fee_usd: r.estimated_final_fee_usd,
    } =~= r);
    assert(sp_ws(Seq::<char>::empty()).len() == 0);
}

} // verus!
