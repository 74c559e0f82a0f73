//! Chains, their CAIP-2 identifiers, and the network names of the x402 protocol.

use vstd::prelude::*;

verus! {

/// A Solana cluster that the protocol names.
#[derive(Clone, Copy, Debug, PartialEq, Eq, Structural, Hash)]
pub enum SolanaCluster {
    Mainnet,
    Devnet,
}

/// A CAIP-2 chain identifier: an EIP-155 chain with its numeric chain id, or a
/// Solana cluster.
#[derive(Clone, Copy, Debug, PartialEq, Eq, Structural, Hash)]
pub enum ChainId {
    Eip155(u64),
    Solana(SolanaCluster),
}

/// The chain that an x402 network name stands for, if the name is known.
pub open spec fn network_chain(name: Seq<char>) -> Option<ChainId> {
    if name == "base"@ {
        Some(ChainId::Eip155(8453))
    } else if name == "base-sepolia"@ {
        Some(ChainId::Eip155(84532))
    } else if name == "avalanche"@ {
        Some(ChainId::Eip155(43114))
    } else if name == "avalanche-fuji"@ {
        Some(ChainId::Eip155(43113))
    } else if name == "polygon"@ {
        Some(ChainId::Eip155(137))
    } else if name == "polygon-amoy"@ {
        Some(ChainId::Eip155(80002))
    } else if name == "sei"@ {
        Some(ChainId::Eip155(1329))
    } else if name == "sei-testnet"@ {
        Some(ChainId::Eip155(1328))
    } else if name == "xdc"@ {
        Some(ChainId::Eip155(50))
    } else if name == "xrpl-evm"@ {
        Some(ChainId::Eip155(1440000))
    } else if name == "solana"@ {
        Some(ChainId::Solana(SolanaCluster::Mainnet))
    } else if name == "solana-devnet"@ {
        Some(ChainId::Solana(SolanaCluster::Devnet))
    } else {
        None
    }
}

/// The x402 network name of a chain, if the chain has one.
pub open spec fn chain_network(chain: ChainId) -> Option<Seq<char>> {
    match chain {
        ChainId::Eip155(8453) => Some("base"@),
        ChainId::Eip155(84532) => Some("base-sepolia"@),
        ChainId::Eip155(43114) => Some("avalanche"@),
        ChainId::Eip155(43113) => Some("avalanche-fuji"@),
        ChainId::Eip155(137) => Some("polygon"@),
        ChainId::Eip155(80002) => Some("polygon-amoy"@),
        ChainId::Eip155(1329) => Some("sei"@),
        ChainId::Eip155(1328) => Some("sei-testnet"@),
        ChainId::Eip155(50) => Some("xdc"@),
        ChainId::Eip155(1440000) => Some("xrpl-evm"@),
        ChainId::Solana(SolanaCluster::Mainnet) => Some("solana"@),
        ChainId::Solana(SolanaCluster::Devnet) => Some("solana-devnet"@),
        _ => None,
    }
}

/// Whether two strings hold the same characters.
fn str_equals(a: &str, b: &str) -> (r: bool)
    ensures
        r == (a@ == b@),
{
    let a_owned = a.to_owned();
    let b_owned = b.to_owned();
    a_owned == b_owned
}

impl ChainId {
    /// The chain that an x402 network name stands for, or `None` for a name the
    /// protocol does not know.
    pub fn from_network_name(name: &str) -> (r: Option<ChainId>)
        ensures
            r == network_chain(name@),
    {
        if str_equals(name, "base") {
            Some(ChainId::Eip155(8453))
        } else if str_equals(name, "base-sepolia") {
            Some(ChainId::Eip155(84532))
        } else if str_equals(name, "avalanche") {
            Some(ChainId::Eip155(43114))
        } else if str_equals(name, "avalanche-fuji") {
            Some(ChainId::Eip155(43113))
        } else if str_equals(name, "polygon") {
            Some(ChainId::Eip155(137))
        } else if str_equals(name, "polygon-amoy") {
            Some(ChainId::Eip155(80002))
        } else if str_equals(name, "sei") {
            Some(ChainId::Eip155(1329))
        } else if str_equals(name, "sei-testnet") {
            Some(ChainId::Eip155(1328))
        } else if str_equals(name, "xdc") {
            Some(ChainId::Eip155(50))
        } else if str_equals(name, "xrpl-evm") {
            Some(ChainId::Eip155(1440000))
        } else if str_equals(name, "solana") {
            Some(ChainId::Solana(SolanaCluster::Mainnet))
        } else if str_equals(name, "solana-devnet") {
            Some(ChainId::Solana(SolanaCluster::Devnet))
        } else {
            None
        }
    }

    /// The x402 network name of this chain, or `None` for a chain the protocol
    /// does not name.
    pub fn as_network_name(&self) -> (r: Option<&'static str>)
        ensures
            match r {
                Some(name) => chain_network(*self) == Some(name@),
                None => chain_network(*self) is None,
            },
    {
        match *self {
            ChainId::Eip155(8453) => Some("base"),
            ChainId::Eip155(84532) => Some("base-sepolia"),
            ChainId::Eip155(43114) => Some("avalanche"),
            ChainId::Eip155(43113) => Some("avalanche-fuji"),
            ChainId::Eip155(137) => Some("polygon"),
            ChainId::Eip155(80002) => Some("polygon-amoy"),
            ChainId::Eip155(1329) => Some("sei"),
            ChainId::Eip155(1328) => Some("sei-testnet"),
            ChainId::Eip155(50) => Some("xdc"),
            ChainId::Eip155(1440000) => Some("xrpl-evm"),
            ChainId::Solana(SolanaCluster::Mainnet) => Some("solana"),
            ChainId::Solana(SolanaCluster::Devnet) => Some("solana-devnet"),
            _ => None,
        }
    }
}

/// A chain in the EIP-155 namespace, given by its numeric chain id.
#[derive(Clone, Copy, Debug, PartialEq, Eq, Structural)]
pub struct Eip155ChainReference {
    pub chain_id: u64,
}

impl Eip155ChainReference {
    /// The EIP-155 chain with the given chain id.
    pub fn new(chain_id: u64) -> (r: Eip155ChainReference)
        ensures
            r.chain_id == chain_id,
    {
        Eip155ChainReference { chain_id }
    }

    /// The numeric chain id.
    pub fn inner(&self) -> (r: u64)
        ensures
            r == self.chain_id,
    {
        self.chain_id
    }

    /// The CAIP-2 identifier of this chain.
    pub fn to_chain_id(&self) -> (r: ChainId)
        ensures
            r == ChainId::Eip155(self.chain_id),
    {
        ChainId::Eip155(self.chain_id)
    }
}

/// A known network name leads to a chain whose network name is that name again.
pub proof fn lemma_network_name_round_trip(name: Seq<char>)
    ensures
        network_chain(name) matches Some(chain) ==> chain_network(chain) == Some(name),
{
}

/// The lengths and first characters of the network names: any two of the names
/// differ in one of them.
proof fn lemma_network_names_differ()
    ensures
        "base"@.len() == 4 && "base"@[0] == 'b',
        "base-sepolia"@.len() == 12 && "base-sepolia"@[0] == 'b',
        "avalanche"@.len() == 9 && "avalanche"@[0] == 'a',
        "avalanche-fuji"@.len() == 14 && "avalanche-fuji"@[0] == 'a',
        "polygon"@.len() == 7 && "polygon"@[0] == 'p',
        "polygon-amoy"@.len() == 12 && "polygon-amoy"@[0] == 'p',
        "sei"@.len() == 3 && "sei"@[0] == 's',
        "sei-testnet"@.len() == 11 && "sei-testnet"@[0] == 's',
        "xdc"@.len() == 3 && "xdc"@[0] == 'x',
        "xrpl-evm"@.len() == 8 && "xrpl-evm"@[0] == 'x',
        "solana"@.len() == 6 && "solana"@[0] == 's',
        "solana-devnet"@.len() == 13 && "solana-devnet"@[0] == 's',
{
    reveal_strlit("base");
    reveal_strlit("base-sepolia");
    reveal_strlit("avalanche");
    reveal_strlit("avalanche-fuji");
    reveal_strlit("polygon");
    reveal_strlit("polygon-amoy");
    reveal_strlit("sei");
    reveal_strlit("sei-testnet");
    reveal_strlit("xdc");
    reveal_strlit("xrpl-evm");
    reveal_strlit("solana");
    reveal_strlit("solana-devnet");
}

/// A chain that has a network name is the chain that its name leads to.
pub proof fn lemma_chain_round_trip(chain: ChainId)
    ensures
        chain_network(chain) matches Some(name) ==> network_chain(name) == Some(chain),
{
    lemma_network_names_differ();
}

/// Each network name of the protocol stands for its standard chain: Base
/// mainnet is EIP-155 chain 8453 and Base Sepolia 84532, Avalanche C-Chain 43114
/// and Fuji 43113, Polygon 137 and Amoy 80002, Sei 1329 and its testnet 1328,
/// XDC 50, XRPL EVM 1440000; `solana` and `solana-devnet` are the Solana mainnet
/// and devnet clusters.
pub proof fn lemma_network_names_name_standard_chains()
    ensures
        network_chain("base"@) == Some(ChainId::Eip155(8453)),
        network_chain("base-sepolia"@) == Some(ChainId::Eip155(84532)),
        network_chain("avalanche"@) == Some(ChainId::Eip155(43114)),
        network_chain("avalanche-fuji"@) == Some(ChainId::Eip155(43113)),
        network_chain("polygon"@) == Some(ChainId::Eip155(137)),
        network_chain("polygon-amoy"@) == Some(ChainId::Eip155(80002)),
        network_chain("sei"@) == Some(ChainId::Eip155(1329)),
        network_chain("sei-testnet"@) == Some(ChainId::Eip155(1328)),
        network_chain("xdc"@) == Some(ChainId::Eip155(50)),
        network_chain("xrpl-evm"@) == Some(ChainId::Eip155(1440000)),
        network_chain("solana"@) == Some(ChainId::Solana(SolanaCluster::Mainnet)),
        network_chain("solana-devnet"@) == Some(ChainId::Solana(SolanaCluster::Devnet)),
{
    lemma_network_names_differ();
}

/// Each chain with a network name is named by its standard name: a mainnet by the
/// bare name, a testnet by the name with its testnet's suffix.
pub proof fn lemma_standard_chains_have_standard_names()
    ensures
        chain_network(ChainId::Eip155(8453)) == Some("base"@),
        chain_network(ChainId::Eip155(84532)) == Some("base-sepolia"@),
        chain_network(ChainId::Eip155(43114)) == Some("avalanche"@),
        chain_network(ChainId::Eip155(43113)) == Some("avalanche-fuji"@),
        chain_network(ChainId::Eip155(137)) == Some("polygon"@),
        chain_network(ChainId::Eip155(80002)) == Some("polygon-amoy"@),
        chain_network(ChainId::Eip155(1329)) == Some("sei"@),
        chain_network(ChainId::Eip155(1328)) == Some("sei-testnet"@),
        chain_network(ChainId::Eip155(50)) == Some("xdc"@),
        chain_network(ChainId::Eip155(1440000)) == Some("xrpl-evm"@),
        chain_network(ChainId::Solana(SolanaCluster::Mainnet)) == Some("solana"@),
        chain_network(ChainId::Solana(SolanaCluster::Devnet)) == Some("solana-devnet"@),
{
}

/// A chain id that is not in the protocol's list has no network name, and no
/// name leads to it: Ethereum mainnet, chain 1, is one.
pub proof fn lemma_unlisted_chain_has_no_name(id: u64)
    requires
        id != 8453 && id != 84532 && id != 43114 && id != 43113 && id != 137 && id != 80002
            && id != 1329 && id != 1328 && id != 50 && id != 1440000,
    ensures
        chain_network(ChainId::Eip155(id)) is None,
        forall|name: Seq<char>| network_chain(name) != Some(ChainId::Eip155(id)),
{
}

} // verus!
