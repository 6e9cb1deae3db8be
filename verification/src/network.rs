//! The network that a node runs on.

use crate::error::MetricError;
use vstd::prelude::*;
use vstd::string::StrSliceExecFns;

verus! {

/// The networks that a node can report.
#[derive(Clone, Copy, Debug, PartialEq, Eq, Structural)]
pub enum Network {
    /// The main network.
    Bitcoin,
    /// The public test network.
    Testnet,
    /// The signed test network.
    Signet,
    /// A local regression-test network.
    Regtest,
}

/// The network that a node means by `name`, if it is one of the four names
/// that a node uses: `main`, `test`, `signet` and `regtest`.
pub open spec fn recognized_network(name: Seq<char>) -> Option<Network> {
    if name == "main"@ {
        Some(Network::Bitcoin)
    } else if name == "test"@ {
        Some(Network::Testnet)
    } else if name == "signet"@ {
        Some(Network::Signet)
    } else if name == "regtest"@ {
        Some(Network::Regtest)
    } else {
        None
    }
}

impl Network {
    /// The name by which a node reports this network.
    pub open spec fn spec_core_name(&self) -> Seq<char> {
        match self {
            Network::Bitcoin => "main"@,
            Network::Testnet => "test"@,
            Network::Signet => "signet"@,
            Network::Regtest => "regtest"@,
        }
    }

    /// The name by which a node reports this network.
    pub fn core_name(&self) -> (name: &'static str)
        ensures
            name@ == self.spec_core_name(),
    {
        match self {
            Network::Bitcoin => "main",
            Network::Testnet => "test",
            Network::Signet => "signet",
            Network::Regtest => "regtest",
        }
    }
}

/// Whether two strings hold the same characters.
fn same_text(a: &str, b: &str) -> (same: bool)
    ensures
        same == (a@ == b@),
{
    let n = a.unicode_len();
    if n != b.unicode_len() {
        return false;
    }
    let mut i: usize = 0;
    while i < n
        invariant
            n == a@.len(),
            n == b@.len(),
            i <= n,
            forall|j: int| 0 <= j < i ==> a@[j] == b@[j],
        decreases n - i,
    {
        if a.get_char(i) != b.get_char(i) {
            return false;
        }
        i += 1;
    }
    proof {
        assert(a@ =~= b@);
    }
    true
}

/// The network that the node reported as `reported`, taken as it stands: a
/// name outside the recognised four is an error, never another network.
pub fn get_chain(reported: &str) -> (r: Result<Network, MetricError>)
    ensures
        r == (match recognized_network(reported@) {
            Some(network) => Ok::<Network, MetricError>(network),
            None => Err::<Network, MetricError>(MetricError::UnknownNetwork),
        }),
{
    if same_text(reported, "main") {
        Ok(Network::Bitcoin)
    } else if same_text(reported, "test") {
        Ok(Network::Testnet)
    } else if same_text(reported, "signet") {
        Ok(Network::Signet)
    } else if same_text(reported, "regtest") {
        Ok(Network::Regtest)
    } else {
        Err(MetricError::UnknownNetwork)
    }
}

/// Every network is recognised by the name it is reported under, so the four
/// names are distinct and `get_chain` inverts `core_name`.
pub proof fn lemma_core_name_is_recognized(network: Network)
    ensures
        recognized_network(network.spec_core_name()) == Some(network),
{
    reveal_strlit("main");
    reveal_strlit("test");
    reveal_strlit("signet");
    reveal_strlit("regtest");
    assert("main"@.len() == 4 && "main"@[0] == 'm');
    assert("test"@.len() == 4 && "test"@[0] == 't');
    assert("signet"@.len() == 6);
    assert("regtest"@.len() == 7);
}

} // verus!
