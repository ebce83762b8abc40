//! The method names under which each handler group is registered.
//!
//! The names and their request-level semantics belong to the handler
//! implementations in the surrounding node; the assembler's only duty is
//! to register each group under its own names and to keep the groups
//! from colliding. The catalog below lists a representative name set for
//! each group so that collision freedom is a provable statement rather
//! than a convention.

use vstd::prelude::*;

verus! {

/// Names served by the system-information handler: account metadata
/// queries such as the next transaction sequence number of an account.
pub open spec fn system_method_names() -> Seq<Seq<char>> {
    seq!["system_accountNextIndex"@, "account_nextIndex"@]
}

/// Names served by the transaction-fee-estimation handler.
pub open spec fn payment_method_names() -> Seq<Seq<char>> {
    seq!["payment_queryInfo"@, "payment_queryFeeDetails"@]
}

/// Names served by the smart-contract-call handler: read-only simulated
/// contract invocation against current state.
pub open spec fn contracts_method_names() -> Seq<Seq<char>> {
    seq!["contracts_call"@, "contracts_getStorage"@, "contracts_rentProjection"@]
}

/// Names the Ethereum-compatibility handler always serves, whatever
/// signers are installed.
pub open spec fn eth_base_method_names() -> Seq<Seq<char>> {
    seq![
        "eth_blockNumber"@,
        "eth_accounts"@,
        "eth_getBalance"@,
        "eth_call"@,
        "eth_estimateGas"@,
        "eth_sendRawTransaction"@,
        "eth_getLogs"@,
        "net_version"@,
        "web3_clientVersion"@,
    ]
}

/// Names that reach a node-held signing key. They are exposed only while
/// a signer is installed, so without the development signer a request
/// for them falls through to the dispatcher's method-not-found answer.
pub open spec fn eth_signing_method_names() -> Seq<Seq<char>> {
    seq!["eth_sign"@, "eth_sendTransaction"@]
}

/// Names served by the Ethereum-compatibility handler, as a function of
/// whether the development signer was installed.
pub open spec fn eth_method_names(dev_signer: bool) -> Seq<Seq<char>> {
    if dev_signer {
        eth_base_method_names() + eth_signing_method_names()
    } else {
        eth_base_method_names()
    }
}

/// Every name the assembled dispatcher serves, in registration order.
pub open spec fn all_method_names(dev_signer: bool) -> Seq<Seq<char>> {
    system_method_names() + payment_method_names() + contracts_method_names()
        + eth_method_names(dev_signer)
}

/// The names a vector of method strings stands for.
pub open spec fn names_of(methods: Seq<String>) -> Seq<Seq<char>> {
    methods.map_values(|s: String| s@)
}

/// Builds the system-information handler's name list.
pub fn system_methods() -> (r: Vec<String>)
    ensures
        names_of(r@) == system_method_names(),
{
    let mut r: Vec<String> = Vec::new();
    r.push("system_accountNextIndex".to_owned());
    r.push("account_nextIndex".to_owned());
    proof {
        assert(names_of(r@) =~= system_method_names());
    }
    r
}

/// Builds the transaction-fee-estimation handler's name list.
pub fn payment_methods() -> (r: Vec<String>)
    ensures
        names_of(r@) == payment_method_names(),
{
    let mut r: Vec<String> = Vec::new();
    r.push("payment_queryInfo".to_owned());
    r.push("payment_queryFeeDetails".to_owned());
    proof {
        assert(names_of(r@) =~= payment_method_names());
    }
    r
}

/// Builds the smart-contract-call handler's name list.
pub fn contracts_methods() -> (r: Vec<String>)
    ensures
        names_of(r@) == contracts_method_names(),
{
    let mut r: Vec<String> = Vec::new();
    r.push("contracts_call".to_owned());
    r.push("contracts_getStorage".to_owned());
    r.push("contracts_rentProjection".to_owned());
    proof {
        assert(names_of(r@) =~= contracts_method_names());
    }
    r
}

/// Builds the Ethereum-compatibility handler's name list; the signing
/// methods are appended only when a signer is installed.
pub fn eth_methods(dev_signer: bool) -> (r: Vec<String>)
    ensures
        names_of(r@) == eth_method_names(dev_signer),
{
    let mut r: Vec<String> = Vec::new();
    r.push("eth_blockNumber".to_owned());
    r.push("eth_accounts".to_owned());
    r.push("eth_getBalance".to_owned());
    r.push("eth_call".to_owned());
    r.push("eth_estimateGas".to_owned());
    r.push("eth_sendRawTransaction".to_owned());
    r.push("eth_getLogs".to_owned());
    r.push("net_version".to_owned());
    r.push("web3_clientVersion".to_owned());
    if dev_signer {
        r.push("eth_sign".to_owned());
        r.push("eth_sendTransaction".to_owned());
        proof {
            assert(names_of(r@) =~= eth_method_names(dev_signer));
        }
    } else {
        proof {
            assert(names_of(r@) =~= eth_method_names(dev_signer));
        }
    }
    r
}

/// No two registered methods share a name, whichever way the
/// development-signer flag was set.
#[verifier::rlimit(100)]
pub proof fn lemma_method_names_distinct(dev_signer: bool)
    ensures
        all_method_names(dev_signer).no_duplicates(),
{
    reveal_strlit("system_accountNextIndex");
    reveal_strlit("account_nextIndex");
    reveal_strlit("payment_queryInfo");
    reveal_strlit("payment_queryFeeDetails");
    reveal_strlit("contracts_call");
    reveal_strlit("contracts_getStorage");
    reveal_strlit("contracts_rentProjection");
    reveal_strlit("eth_blockNumber");
    reveal_strlit("eth_accounts");
    reveal_strlit("eth_getBalance");
    reveal_strlit("eth_call");
    reveal_strlit("eth_estimateGas");
    reveal_strlit("eth_sendRawTransaction");
    reveal_strlit("eth_getLogs");
    reveal_strlit("net_version");
    reveal_strlit("web3_clientVersion");
    reveal_strlit("eth_sign");
    reveal_strlit("eth_sendTransaction");
    // Each pair of names differs in its length, its first character, or
    // the character after the namespace prefix; spelling those facts out
    // lets the solver separate every pair.
    assert("system_accountNextIndex"@.len() == 23 && "system_accountNextIndex"@[0] == 's');
    assert("account_nextIndex"@.len() == 17 && "account_nextIndex"@[0] == 'a');
    assert("payment_queryInfo"@.len() == 17 && "payment_queryInfo"@[0] == 'p');
    assert("payment_queryFeeDetails"@.len() == 23 && "payment_queryFeeDetails"@[0] == 'p');
    assert("contracts_call"@.len() == 14 && "contracts_call"@[0] == 'c');
    assert("contracts_getStorage"@.len() == 20 && "contracts_getStorage"@[0] == 'c');
    assert("contracts_rentProjection"@.len() == 24 && "contracts_rentProjection"@[0] == 'c');
    assert("eth_blockNumber"@.len() == 15 && "eth_blockNumber"@[0] == 'e');
    assert("eth_accounts"@.len() == 12 && "eth_accounts"@[0] == 'e');
    assert("eth_getBalance"@.len() == 14 && "eth_getBalance"@[0] == 'e');
    assert("eth_call"@.len() == 8 && "eth_call"@[0] == 'e');
    assert("eth_estimateGas"@.len() == 15 && "eth_estimateGas"@[0] == 'e');
    assert("eth_sendRawTransaction"@.len() == 22 && "eth_sendRawTransaction"@[0] == 'e');
    assert("eth_getLogs"@.len() == 11 && "eth_getLogs"@[0] == 'e');
    assert("net_version"@.len() == 11 && "net_version"@[0] == 'n');
    assert("web3_clientVersion"@.len() == 18 && "web3_clientVersion"@[0] == 'w');
    assert("eth_sign"@.len() == 8 && "eth_sign"@[0] == 'e');
    assert("eth_sendTransaction"@.len() == 19 && "eth_sendTransaction"@[0] == 'e');
    assert("eth_blockNumber"@[4] == 'b' && "eth_estimateGas"@[4] == 'e');
    assert("eth_call"@[4] == 'c' && "eth_sign"@[4] == 's');
}

} // verus!
