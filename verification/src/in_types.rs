//! Outbound payloads: the request the two endpoints accept, and its JSON text.
//!
//! Optional fields are omitted from the serialized payload when unset: the
//! remote API treats an absent key as "use default", so the printer emits a
//! key segment only for a value that is present, never a null.

use vstd::prelude::*;
use vstd::string::*;
use crate::json::{
    contains_sub, num_to_string, spec_bool, spec_num, spec_digit_char,
};

verus! {

/// Transaction fields as the caller supplies them: hex-encoded strings,
/// passed through without validation.
#[derive(Clone, Debug, PartialEq, Eq)]
pub struct TxData {
    pub from: String,
    pub to: String,
    pub data: String,
}

#[verifier::ext_equal]
pub ghost struct TxDataSpec {
    pub from: Seq<char>,
    pub to: Seq<char>,
    pub data: Seq<char>,
}

impl View for TxData {
    type V = TxDataSpec;

    open spec fn view(&self) -> TxDataSpec {
        TxDataSpec { from: self.from@, to: self.to@, data: self.data@ }
    }
}

/// The outbound payload. The sponsored variant carries a sponsorship ratio
/// and a replay limit and no fee-token address; the fee-paying variant
/// carries the fee-token address (when configured) and neither of the two.
#[derive(Clone, Debug, PartialEq, Eq)]
pub struct Request {
    pub chain_id: u32,
    pub fee_token_address: Option<String>,
    pub sponsorship_ratio: Option<u8>,
    pub replay_limit: Option<u8>,
    pub tx_data: TxData,
    pub is_testnet: bool,
}

#[verifier::ext_equal]
pub ghost struct RequestSpec {
    pub chain_id: u32,
    pub fee_token_address: Option<Seq<char>>,
    pub sponsorship_ratio: Option<u8>,
    pub replay_limit: Option<u8>,
    pub tx_data: TxDataSpec,
    pub is_testnet: bool,
}

impl View for Request {
    type V = RequestSpec;

    open spec fn view(&self) -> RequestSpec {
        RequestSpec {
            chain_id: self.chain_id,
            fee_token_address: match self.fee_token_address {
                Some(ref s) => Some(s@),
                None => None,
            },
            sponsorship_ratio: self.sponsorship_ratio,
            replay_limit: self.replay_limit,
            tx_data: self.tx_data@,
            is_testnet: self.is_testnet,
        }
    }
}

/// The request built by the sponsored operation: ratio fixed at 100, replay
/// limit fixed at 1, no fee-token address.
pub open spec fn spec_sponsored_request(
    chain_id: u32,
    testnet: bool,
    from: Seq<char>,
    to: Seq<char>,
    data: Seq<char>,
) -> RequestSpec {
    RequestSpec {
        chain_id: chain_id,
        fee_token_address: None,
        sponsorship_ratio: Some(100u8),
        replay_limit: Some(1u8),
        tx_data: TxDataSpec { from, to, data },
        is_testnet: testnet,
    }
}

/// The request built by the fee-paying operation: no sponsorship fields, the
/// fee-token address exactly as configured.
pub open spec fn spec_paymaster_request(
    chain_id: u32,
    testnet: bool,
    fee_token_address: Option<Seq<char>>,
    from: Seq<char>,
    to: Seq<char>,
    data: Seq<char>,
) -> RequestSpec {
    RequestSpec {
        chain_id: chain_id,
        fee_token_address: fee_token_address,
        sponsorship_ratio: None,
        replay_limit: None,
        tx_data: TxDataSpec { from, to, data },
        is_testnet: testnet,
    }
}

/// Segment for an optional string-valued key: nothing when absent.
pub open spec fn opt_str_seg(o: Option<Seq<char>>, pre: Seq<char>) -> Seq<char> {
    match o {
        None => Seq::<char>::empty(),
        Some(v) => (pre + v) + "\""@,
    }
}

/// Segment for an optional number-valued key: nothing when absent.
pub open spec fn opt_num_seg(o: Option<u8>, pre: Seq<char>) -> Seq<char> {
    match o {
        None => Seq::<char>::empty(),
        Some(n) => pre + spec_num(n as nat),
    }
}

/// The canonical JSON text of a request: camelCase keys in declaration order,
/// no whitespace, optional keys omitted when their value is absent.
pub open spec fn spec_encode_request(r: RequestSpec) -> Seq<char> {
    ("{\"chainId\":"@ + spec_num(r.chain_id as nat)) + (opt_str_seg(
        r.fee_token_address,
        ",\"feeTokenAddress\":\""@,
    ) + (opt_num_seg(r.sponsorship_ratio, ",\"sponsorshipRatio\":"@) + (opt_num_seg(
        r.replay_limit,
        ",\"replayLimit\":"@,
    ) + ((",\"txData\":{\"from\":\""@ + r.tx_data.from) + (("\",\"to\":\""@ + r.tx_data.to) + ((
    "\",\"data\":\""@ + r.tx_data.data) + (("\"},\"isTestnet\":"@ + spec_bool(r.is_testnet))
        + "}"@)))))))
}

/// Print a request as its canonical JSON text.
pub fn encode_request(r: &Request) -> (out: String)
    ensures
        out@ == spec_encode_request(r@),
{
    let mut acc = String::from_str("}");
    let mut x = String::from_str("\"},\"isTestnet\":");
    x.append(if r.is_testnet {
        "true"
    } else {
        "false"
    });
    x.append(acc.as_str());
    acc = x;
    let mut x = String::from_str("\",\"data\":\"");
    x.append(r.tx_data.data.as_str());
    x.append(acc.as_str());
    acc = x;
    let mut x = String::from_str("\",\"to\":\"");
    x.append(r.tx_data.to.as_str());
    x.append(acc.as_str());
    acc = x;
    let mut x = String::from_str(",\"txData\":{\"from\":\"");
    x.append(r.tx_data.from.as_str());
    x.append(acc.as_str());
    acc = x;
    match &r.replay_limit {
        Some(n) => {
            let mut x = String::from_str(",\"replayLimit\":");
            let num = num_to_string(*n as u64);
            x.append(num.as_str());
            x.append(acc.as_str());
            acc = x;
        },
        None => {
            proof {
                assert(opt_num_seg(r@.replay_limit, ",\"replayLimit\":"@) + acc@ =~= acc@);
            }
        },
    }
    match &r.sponsorship_ratio {
        Some(n) => {
            let mut x = String::from_str(",\"sponsorshipRatio\":");
            let num = num_to_string(*n as u64);
            x.append(num.as_str());
            x.append(acc.as_str());
            acc = x;
        },
        None => {
            proof {
                assert(opt_num_seg(r@.sponsorship_ratio, ",\"sponsorshipRatio\":"@) + acc@
                    =~= acc@);
            }
        },
    }
    match &r.fee_token_address {
        Some(v) => {
            let mut x = String::from_str(",\"feeTokenAddress\":\"");
            x.append(v.as_str());
            x.append("\"");
            x.append(acc.as_str());
            acc = x;
        },
        None => {
            proof {
                assert(opt_str_seg(r@.fee_token_address, ",\"feeTokenAddress\":\""@) + acc@
                    =~= acc@);
            }
        },
    }
    let mut out = String::from_str("{\"chainId\":");
    let num = num_to_string(r.chain_id as u64);
    out.append(num.as_str());
    out.append(acc.as_str());
    out
}

/// Law: every sponsored payload fixes the sponsorship ratio at 100 and the
/// replay limit at 1, carries no fee-token address, and its serialized text
/// contains the two keys with those exact values.
pub proof fn lemma_sponsored_payload(
    chain_id: u32,
    testnet: bool,
    from: Seq<char>,
    to: Seq<char>,
    data: Seq<char>,
)
    ensures
        spec_sponsored_request(chain_id, testnet, from, to, data).sponsorship_ratio == Some(100u8),
        spec_sponsored_request(chain_id, testnet, from, to, data).replay_limit == Some(1u8),
        spec_sponsored_request(chain_id, testnet, from, to, data).fee_token_address is None,
        contains_sub(
            spec_encode_request(spec_sponsored_request(chain_id, testnet, from, to, data)),
            "\"sponsorshipRatio\":100"@,
        ),
        contains_sub(
            spec_encode_request(spec_sponsored_request(chain_id, testnet, from, to, data)),
            "\"replayLimit\":1"@,
        ),
{
    reveal_strlit("\"sponsorshipRatio\":100");
    reveal_strlit("\"replayLimit\":1");
    reveal_strlit(",\"sponsorshipRatio\":");
    reveal_strlit(",\"replayLimit\":");
    let r = spec_sponsored_request(chain_id, testnet, from, to, data);
    let enc = spec_encode_request(r);
    let a = "{\"chainId\":"@ + spec_num(chain_id as nat);
    assert(spec_num(100) =~= seq!['1', '0', '0']) by {
        assert(spec_num(1) =~= seq![spec_digit_char(1)]);
        assert(spec_num(10) =~= spec_num(1).push('0'));
        assert(spec_num(100) =~= spec_num(10).push('0'));
    }
    assert(spec_num(1) =~= seq!['1']);
    let n1 = "\"sponsorshipRatio\":100"@;
    let i1 = a.len() as int + 1;
    assert(enc.subrange(i1, i1 + n1.len()) =~= n1);
    assert(contains_sub(enc, n1));
    let n2 = "\"replayLimit\":1"@;
    let i2 = a.len() as int + 24;
    assert(enc.subrange(i2, i2 + n2.len()) =~= n2);
    assert(contains_sub(enc, n2));
}

/// Law: every fee-paying payload carries neither a sponsorship ratio nor a
/// replay limit, and carries the fee-token address exactly when one is
/// configured; when it is, the serialized text contains the key.
pub proof fn lemma_paymaster_payload(
    chain_id: u32,
    testnet: bool,
    fee_token_address: Option<Seq<char>>,
    from: Seq<char>,
    to: Seq<char>,
    data: Seq<char>,
)
    ensures
        spec_paymaster_request(
            chain_id,
            testnet,
            fee_token_address,
            from,
            to,
            data,
        ).sponsorship_ratio is None,
        spec_paymaster_request(
            chain_id,
            testnet,
            fee_token_address,
            from,
            to,
            data,
        ).replay_limit is None,
        spec_paymaster_request(chain_id, testnet, fee_token_address, from, to, data)
            .fee_token_address == fee_token_address,
        fee_token_address is Some ==> contains_sub(
            spec_encode_request(
                spec_paymaster_request(chain_id, testnet, fee_token_address, from, to, data),
            ),
            "\"feeTokenAddress\":\""@,
        ),
{
    reveal_strlit("\"feeTokenAddress\":\"");
    reveal_strlit(",\"feeTokenAddress\":\"");
    let r = spec_paymaster_request(chain_id, testnet, fee_token_address, from, to, data);
    let enc = spec_encode_request(r);
    let a = "{\"chainId\":"@ + spec_num(chain_id as nat);
    if fee_token_address is Some {
        let n3 = "\"feeTokenAddress\":\""@;
        let i3 = a.len() as int + 1;
        assert(enc.subrange(i3, i3 + n3.len()) =~= n3);
        assert(contains_sub(enc, n3));
    }
}

} // verus!
