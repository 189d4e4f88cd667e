//! The closed set of observed chains and the protocol family of each.

use vstd::prelude::*;

verus! {

/// The protocol family of a chain; it selects the adapter that talks to it.
#[derive(Debug, Copy, Clone, Hash, PartialEq, Eq, Structural)]
pub enum ChainType {
    Algorand,
    Esplora,
    Elrond,
    Ethers,
    Hedera,
    InternetComputer,
    Near,
    Pivx,
    Solana,
    Stellar,
    Substrate,
    Tendermint,
}

/// A chain the system can observe.
#[derive(Debug, Copy, Clone, Hash, PartialEq, Eq, Structural)]
pub enum Chain {
    Acala,
    Algorand,
    Arbitrum,
    Astar,
    Avalanche,
    Bifrost,
    Binance,
    Bitcoin,
    Celo,
    CosmosHub,
    Cronos,
    Elrond,
    Ethereum,
    Fantom,
    Harmony,
    Hedera,
    Heco,
    InternetComputer,
    Karura,
    KuCoin,
    Kusama,
    Moonbeam,
    Moonriver,
    Near,
    OKEx,
    Optimism,
    Osmosis,
    Pivx,
    Polkadot,
    Polygon,
    Rootstock,
    SecretNetwork,
    Solana,
    Stellar,
    Terra,
    XDai,
}

impl Chain {
    /// The family of each chain.
    pub open spec fn spec_chain_type(&self) -> ChainType {
        match self {
            Chain::Arbitrum
            | Chain::Astar
            | Chain::Avalanche
            | Chain::Bifrost
            | Chain::Binance
            | Chain::Celo
            | Chain::Cronos
            | Chain::Ethereum
            | Chain::Fantom
            | Chain::Harmony
            | Chain::Heco
            | Chain::KuCoin
            | Chain::Moonbeam
            | Chain::Moonriver
            | Chain::OKEx
            | Chain::Optimism
            | Chain::Polygon
            | Chain::Rootstock
            | Chain::XDai => ChainType::Ethers,
            Chain::Bitcoin => ChainType::Esplora,
            Chain::Elrond => ChainType::Elrond,
            Chain::Hedera => ChainType::Hedera,
            Chain::InternetComputer => ChainType::InternetComputer,
            Chain::Near => ChainType::Near,
            Chain::Pivx => ChainType::Pivx,
            Chain::Solana => ChainType::Solana,
            Chain::Stellar => ChainType::Stellar,
            Chain::CosmosHub | Chain::Osmosis | Chain::SecretNetwork | Chain::Terra => {
                ChainType::Tendermint
            },
            Chain::Acala | Chain::Karura | Chain::Kusama | Chain::Polkadot => ChainType::Substrate,
            Chain::Algorand => ChainType::Algorand,
        }
    }

    #[verifier::when_used_as_spec(spec_chain_type)]
    pub fn chain_type(&self) -> (family: ChainType)
        ensures
            family == self.spec_chain_type(),
    {
        match self {
            Chain::Arbitrum
            | Chain::Astar
            | Chain::Avalanche
            | Chain::Bifrost
            | Chain::Binance
            | Chain::Celo
            | Chain::Cronos
            | Chain::Ethereum
            | Chain::Fantom
            | Chain::Harmony
            | Chain::Heco
            | Chain::KuCoin
            | Chain::Moonbeam
            | Chain::Moonriver
            | Chain::OKEx
            | Chain::Optimism
            | Chain::Polygon
            | Chain::Rootstock
            | Chain::XDai => ChainType::Ethers,
            Chain::Bitcoin => ChainType::Esplora,
            Chain::Elrond => ChainType::Elrond,
            Chain::Hedera => ChainType::Hedera,
            Chain::InternetComputer => ChainType::InternetComputer,
            Chain::Near => ChainType::Near,
            Chain::Pivx => ChainType::Pivx,
            Chain::Solana => ChainType::Solana,
            Chain::Stellar => ChainType::Stellar,
            Chain::CosmosHub | Chain::Osmosis | Chain::SecretNetwork | Chain::Terra => {
                ChainType::Tendermint
            },
            Chain::Acala | Chain::Karura | Chain::Kusama | Chain::Polkadot => ChainType::Substrate,
            Chain::Algorand => ChainType::Algorand,
        }
    }
}

impl Chain {
    /// The name of each chain as it is shown to people.
    pub open spec fn spec_description(&self) -> Seq<char> {
        match self {
            Chain::Acala => "Acala"@,
            Chain::Algorand => "Algorand"@,
            Chain::Arbitrum => "Arbitrum"@,
            Chain::Astar => "Astar"@,
            Chain::Avalanche => "Avalanche C-Chain"@,
            Chain::Bifrost => "Bifrost"@,
            Chain::Binance => "Binance Smart Chain"@,
            Chain::Bitcoin => "Bitcoin"@,
            Chain::Celo => "Celo"@,
            Chain::CosmosHub => "Cosmos Hub"@,
            Chain::Cronos => "Cronos"@,
            Chain::Elrond => "Elrond"@,
            Chain::Ethereum => "Ethereum"@,
            Chain::Fantom => "Fantom"@,
            Chain::Harmony => "Harmony"@,
            Chain::Hedera => "Hedera"@,
            Chain::Heco => "Heco"@,
            Chain::InternetComputer => "Internet Computer"@,
            Chain::Karura => "Karura"@,
            Chain::KuCoin => "KuCoin"@,
            Chain::Kusama => "Kusama"@,
            Chain::Moonbeam => "Moonbeam"@,
            Chain::Moonriver => "Moonriver"@,
            Chain::Near => "NEAR"@,
            Chain::OKEx => "OKEx"@,
            Chain::Optimism => "Optimism"@,
            Chain::Osmosis => "Osmosis"@,
            Chain::Pivx => "PIVX"@,
            Chain::Polkadot => "Polkadot"@,
            Chain::Polygon => "Polygon PoS"@,
            Chain::Rootstock => "Rootstock"@,
            Chain::SecretNetwork => "Secret Network"@,
            Chain::Solana => "Solana"@,
            Chain::Stellar => "Stellar"@,
            Chain::Terra => "Terra"@,
            Chain::XDai => "xDai"@,
        }
    }

    /// Chain names shown on the website.
    pub fn description(&self) -> (name: &'static str)
        ensures
            name@ == self.spec_description(),
    {
        match self {
            Chain::Acala => "Acala",
            Chain::Algorand => "Algorand",
            Chain::Arbitrum => "Arbitrum",
            Chain::Astar => "Astar",
            Chain::Avalanche => "Avalanche C-Chain",
            Chain::Bifrost => "Bifrost",
            Chain::Binance => "Binance Smart Chain",
            Chain::Bitcoin => "Bitcoin",
            Chain::Celo => "Celo",
            Chain::CosmosHub => "Cosmos Hub",
            Chain::Cronos => "Cronos",
            Chain::Elrond => "Elrond",
            Chain::Ethereum => "Ethereum",
            Chain::Fantom => "Fantom",
            Chain::Harmony => "Harmony",
            Chain::Hedera => "Hedera",
            Chain::Heco => "Heco",
            Chain::InternetComputer => "Internet Computer",
            Chain::Karura => "Karura",
            Chain::KuCoin => "KuCoin",
            Chain::Kusama => "Kusama",
            Chain::Moonbeam => "Moonbeam",
            Chain::Moonriver => "Moonriver",
            Chain::Near => "NEAR",
            Chain::OKEx => "OKEx",
            Chain::Optimism => "Optimism",
            Chain::Osmosis => "Osmosis",
            Chain::Pivx => "PIVX",
            Chain::Polkadot => "Polkadot",
            Chain::Polygon => "Polygon PoS",
            Chain::Rootstock => "Rootstock",
            Chain::SecretNetwork => "Secret Network",
            Chain::Solana => "Solana",
            Chain::Stellar => "Stellar",
            Chain::Terra => "Terra",
            Chain::XDai => "xDai",
        }
    }

    /// The identifier of each chain: its name in lower case, as used in
    /// storage paths, in the configuration and on the command line.
    pub open spec fn spec_id(&self) -> Seq<char> {
        match self {
            Chain::Acala => "acala"@,
            Chain::Algorand => "algorand"@,
            Chain::Arbitrum => "arbitrum"@,
            Chain::Astar => "astar"@,
            Chain::Avalanche => "avalanche"@,
            Chain::Bifrost => "bifrost"@,
            Chain::Binance => "binance"@,
            Chain::Bitcoin => "bitcoin"@,
            Chain::Celo => "celo"@,
            Chain::CosmosHub => "cosmoshub"@,
            Chain::Cronos => "cronos"@,
            Chain::Elrond => "elrond"@,
            Chain::Ethereum => "ethereum"@,
            Chain::Fantom => "fantom"@,
            Chain::Harmony => "harmony"@,
            Chain::Hedera => "hedera"@,
            Chain::Heco => "heco"@,
            Chain::InternetComputer => "internetcomputer"@,
            Chain::Karura => "karura"@,
            Chain::KuCoin => "kucoin"@,
            Chain::Kusama => "kusama"@,
            Chain::Moonbeam => "moonbeam"@,
            Chain::Moonriver => "moonriver"@,
            Chain::Near => "near"@,
            Chain::OKEx => "okex"@,
            Chain::Optimism => "optimism"@,
            Chain::Osmosis => "osmosis"@,
            Chain::Pivx => "pivx"@,
            Chain::Polkadot => "polkadot"@,
            Chain::Polygon => "polygon"@,
            Chain::Rootstock => "rootstock"@,
            Chain::SecretNetwork => "secretnetwork"@,
            Chain::Solana => "solana"@,
            Chain::Stellar => "stellar"@,
            Chain::Terra => "terra"@,
            Chain::XDai => "xdai"@,
        }
    }

    pub fn id(&self) -> (id: &'static str)
        ensures
            id@ == self.spec_id(),
    {
        match self {
            Chain::Acala => "acala",
            Chain::Algorand => "algorand",
            Chain::Arbitrum => "arbitrum",
            Chain::Astar => "astar",
            Chain::Avalanche => "avalanche",
            Chain::Bifrost => "bifrost",
            Chain::Binance => "binance",
            Chain::Bitcoin => "bitcoin",
            Chain::Celo => "celo",
            Chain::CosmosHub => "cosmoshub",
            Chain::Cronos => "cronos",
            Chain::Elrond => "elrond",
            Chain::Ethereum => "ethereum",
            Chain::Fantom => "fantom",
            Chain::Harmony => "harmony",
            Chain::Hedera => "hedera",
            Chain::Heco => "heco",
            Chain::InternetComputer => "internetcomputer",
            Chain::Karura => "karura",
            Chain::KuCoin => "kucoin",
            Chain::Kusama => "kusama",
            Chain::Moonbeam => "moonbeam",
            Chain::Moonriver => "moonriver",
            Chain::Near => "near",
            Chain::OKEx => "okex",
            Chain::Optimism => "optimism",
            Chain::Osmosis => "osmosis",
            Chain::Pivx => "pivx",
            Chain::Polkadot => "polkadot",
            Chain::Polygon => "polygon",
            Chain::Rootstock => "rootstock",
            Chain::SecretNetwork => "secretnetwork",
            Chain::Solana => "solana",
            Chain::Stellar => "stellar",
            Chain::Terra => "terra",
            Chain::XDai => "xdai",
        }
    }

    /// The identifier as an owned string.
    pub fn to_string(&self) -> (id: String)
        ensures
            id@ == self.spec_id(),
    {
        self.id().to_owned()
    }

    /// The chains that are observed when none is chosen, in the order in
    /// which they are started.
    pub open spec fn spec_all_chains() -> Seq<Chain> {
        seq![
            Chain::Acala,
            Chain::Algorand,
            Chain::Arbitrum,
            Chain::Astar,
            Chain::Avalanche,
            Chain::Bifrost,
            Chain::Binance,
            Chain::Bitcoin,
            Chain::Celo,
            Chain::Cronos,
            Chain::Elrond,
            Chain::Ethereum,
            Chain::Fantom,
            Chain::Harmony,
            Chain::InternetComputer,
            Chain::Hedera,
            Chain::Karura,
            Chain::KuCoin,
            Chain::Kusama,
            Chain::Moonbeam,
            Chain::Moonriver,
            Chain::Near,
            Chain::OKEx,
            Chain::Optimism,
            Chain::Polkadot,
            Chain::Polygon,
            Chain::Rootstock,
            Chain::Solana,
            Chain::Stellar,
        ]
    }

    pub fn all_chains() -> (chains: Vec<Chain>)
        ensures
            chains@ == Chain::spec_all_chains(),
    {
        let chains = vec![
            Chain::Acala,
            Chain::Algorand,
            Chain::Arbitrum,
            Chain::Astar,
            Chain::Avalanche,
            Chain::Bifrost,
            Chain::Binance,
            Chain::Bitcoin,
            Chain::Celo,
            Chain::Cronos,
            Chain::Elrond,
            Chain::Ethereum,
            Chain::Fantom,
            Chain::Harmony,
            Chain::InternetComputer,
            Chain::Hedera,
            Chain::Karura,
            Chain::KuCoin,
            Chain::Kusama,
            Chain::Moonbeam,
            Chain::Moonriver,
            Chain::Near,
            Chain::OKEx,
            Chain::Optimism,
            Chain::Polkadot,
            Chain::Polygon,
            Chain::Rootstock,
            Chain::Solana,
            Chain::Stellar,
        ];
        assert(chains@ =~= Chain::spec_all_chains());
        chains
    }
}

/// Chain names shown on the website.
pub fn chain_description(chain: Chain) -> (name: &'static str)
    ensures
        name@ == chain.spec_description(),
{
    chain.description()
}

/// The note that is shown beside a chain, where it has one: the name of the
/// note.
pub fn chain_note(chain: Chain) -> (note: Option<&'static str>)
    ensures
        match note {
            Some(name) => chain == Chain::Solana && name@ == "solana"@,
            None => chain != Chain::Solana,
        },
{
    match chain {
        Chain::Solana => Some("solana"),
        _ => None,
    }
}

/// The core list of chains, in the order of declaration: the twenty-one
/// chains from Arbitrum to xDai. It is a list of its own and not the list
/// of [`Chain::all_chains`], which names the chains that are started when
/// none is chosen.
pub open spec fn spec_core_chains() -> Seq<Chain> {
    seq![
        Chain::Arbitrum,
        Chain::Avalanche,
        Chain::Binance,
        Chain::Celo,
        Chain::CosmosHub,
        Chain::Cronos,
        Chain::Ethereum,
        Chain::Fantom,
        Chain::Harmony,
        Chain::Heco,
        Chain::KuCoin,
        Chain::Moonriver,
        Chain::Near,
        Chain::OKEx,
        Chain::Optimism,
        Chain::Polygon,
        Chain::Rootstock,
        Chain::SecretNetwork,
        Chain::Solana,
        Chain::Terra,
        Chain::XDai,
    ]
}

/// The core list of chains.
pub fn all_chains() -> (chains: Vec<Chain>)
    ensures
        chains@ == spec_core_chains(),
        chains@.len() == 21,
{
    let chains = vec![
        Chain::Arbitrum,
        Chain::Avalanche,
        Chain::Binance,
        Chain::Celo,
        Chain::CosmosHub,
        Chain::Cronos,
        Chain::Ethereum,
        Chain::Fantom,
        Chain::Harmony,
        Chain::Heco,
        Chain::KuCoin,
        Chain::Moonriver,
        Chain::Near,
        Chain::OKEx,
        Chain::Optimism,
        Chain::Polygon,
        Chain::Rootstock,
        Chain::SecretNetwork,
        Chain::Solana,
        Chain::Terra,
        Chain::XDai,
    ];
    assert(chains@ =~= spec_core_chains());
    chains
}

/// A name that is the identifier of no chain.
#[derive(Debug, Clone, PartialEq, Eq)]
pub struct UnknownChain {
    pub name: String,
}

impl Chain {
    /// Every chain there is, in the order of declaration.
    pub open spec fn spec_every() -> Seq<Chain> {
        seq![
            Chain::Acala,
            Chain::Algorand,
            Chain::Arbitrum,
            Chain::Astar,
            Chain::Avalanche,
            Chain::Bifrost,
            Chain::Binance,
            Chain::Bitcoin,
            Chain::Celo,
            Chain::CosmosHub,
            Chain::Cronos,
            Chain::Elrond,
            Chain::Ethereum,
            Chain::Fantom,
            Chain::Harmony,
            Chain::Hedera,
            Chain::Heco,
            Chain::InternetComputer,
            Chain::Karura,
            Chain::KuCoin,
            Chain::Kusama,
            Chain::Moonbeam,
            Chain::Moonriver,
            Chain::Near,
            Chain::OKEx,
            Chain::Optimism,
            Chain::Osmosis,
            Chain::Pivx,
            Chain::Polkadot,
            Chain::Polygon,
            Chain::Rootstock,
            Chain::SecretNetwork,
            Chain::Solana,
            Chain::Stellar,
            Chain::Terra,
            Chain::XDai,
        ]
    }

    /// Every chain there is, listed or not: the list holds each chain.
    pub fn every() -> (chains: Vec<Chain>)
        ensures
            chains@ == Chain::spec_every(),
            forall|chain: Chain| chains@.contains(chain),
    {
        let chains = vec![
            Chain::Acala,
            Chain::Algorand,
            Chain::Arbitrum,
            Chain::Astar,
            Chain::Avalanche,
            Chain::Bifrost,
            Chain::Binance,
            Chain::Bitcoin,
            Chain::Celo,
            Chain::CosmosHub,
            Chain::Cronos,
            Chain::Elrond,
            Chain::Ethereum,
            Chain::Fantom,
            Chain::Harmony,
            Chain::Hedera,
            Chain::Heco,
            Chain::InternetComputer,
            Chain::Karura,
            Chain::KuCoin,
            Chain::Kusama,
            Chain::Moonbeam,
            Chain::Moonriver,
            Chain::Near,
            Chain::OKEx,
            Chain::Optimism,
            Chain::Osmosis,
            Chain::Pivx,
            Chain::Polkadot,
            Chain::Polygon,
            Chain::Rootstock,
            Chain::SecretNetwork,
            Chain::Solana,
            Chain::Stellar,
            Chain::Terra,
            Chain::XDai,
        ];
        assert(chains@ =~= Chain::spec_every());
        assert forall|chain: Chain| chains@.contains(chain) by {
            match chain {
                Chain::Acala => assert(chains@[0] == chain),
                Chain::Algorand => assert(chains@[1] == chain),
                Chain::Arbitrum => assert(chains@[2] == chain),
                Chain::Astar => assert(chains@[3] == chain),
                Chain::Avalanche => assert(chains@[4] == chain),
                Chain::Bifrost => assert(chains@[5] == chain),
                Chain::Binance => assert(chains@[6] == chain),
                Chain::Bitcoin => assert(chains@[7] == chain),
                Chain::Celo => assert(chains@[8] == chain),
                Chain::CosmosHub => assert(chains@[9] == chain),
                Chain::Cronos => assert(chains@[10] == chain),
                Chain::Elrond => assert(chains@[11] == chain),
                Chain::Ethereum => assert(chains@[12] == chain),
                Chain::Fantom => assert(chains@[13] == chain),
                Chain::Harmony => assert(chains@[14] == chain),
                Chain::Hedera => assert(chains@[15] == chain),
                Chain::Heco => assert(chains@[16] == chain),
                Chain::InternetComputer => assert(chains@[17] == chain),
                Chain::Karura => assert(chains@[18] == chain),
                Chain::KuCoin => assert(chains@[19] == chain),
                Chain::Kusama => assert(chains@[20] == chain),
                Chain::Moonbeam => assert(chains@[21] == chain),
                Chain::Moonriver => assert(chains@[22] == chain),
                Chain::Near => assert(chains@[23] == chain),
                Chain::OKEx => assert(chains@[24] == chain),
                Chain::Optimism => assert(chains@[25] == chain),
                Chain::Osmosis => assert(chains@[26] == chain),
                Chain::Pivx => assert(chains@[27] == chain),
                Chain::Polkadot => assert(chains@[28] == chain),
                Chain::Polygon => assert(chains@[29] == chain),
                Chain::Rootstock => assert(chains@[30] == chain),
                Chain::SecretNetwork => assert(chains@[31] == chain),
                Chain::Solana => assert(chains@[32] == chain),
                Chain::Stellar => assert(chains@[33] == chain),
                Chain::Terra => assert(chains@[34] == chain),
                Chain::XDai => assert(chains@[35] == chain),
            }
        }
        chains
    }

    /// The chain with the identifier `value`. A name is refused exactly when
    /// no chain has it for its identifier, and the refusal carries the name.
    pub fn try_from(value: &str) -> (parsed: Result<Chain, UnknownChain>)
        ensures
            match parsed {
                Ok(chain) => chain.spec_id() == value@,
                Err(unknown) => {
                    &&& unknown.name@ == value@
                    &&& forall|chain: Chain| chain.spec_id() != value@
                },
            },
    {
        let name = value.to_owned();
        let chains = Chain::every();
        let mut at: usize = 0;
        while at < chains.len()
            invariant
                name@ == value@,
                at <= chains.len(),
                forall|chain: Chain| chains@.contains(chain),
                forall|before: int| 0 <= before < at ==> chains@[before].spec_id() != value@,
            decreases chains.len() - at,
        {
            let chain = chains[at];
            if chain.to_string() == name {
                return Ok(chain);
            }
            at += 1;
        }
        proof {
            assert forall|chain: Chain| chain.spec_id() != value@ by {
                assert(chains@.contains(chain));
                let index = choose|index: int| 0 <= index < chains@.len() && chains@[index] == chain;
                assert(chains@[index].spec_id() != value@);
            }
        }
        Err(UnknownChain { name })
    }
}

/// The length of an identifier and its first four characters, which tell
/// the identifiers apart.
spec fn id_shape(chain: Chain) -> (nat, char, char, char, char) {
    match chain {
        Chain::Acala => (5, 'a', 'c', 'a', 'l'),
        Chain::Algorand => (8, 'a', 'l', 'g', 'o'),
        Chain::Arbitrum => (8, 'a', 'r', 'b', 'i'),
        Chain::Astar => (5, 'a', 's', 't', 'a'),
        Chain::Avalanche => (9, 'a', 'v', 'a', 'l'),
        Chain::Bifrost => (7, 'b', 'i', 'f', 'r'),
        Chain::Binance => (7, 'b', 'i', 'n', 'a'),
        Chain::Bitcoin => (7, 'b', 'i', 't', 'c'),
        Chain::Celo => (4, 'c', 'e', 'l', 'o'),
        Chain::CosmosHub => (9, 'c', 'o', 's', 'm'),
        Chain::Cronos => (6, 'c', 'r', 'o', 'n'),
        Chain::Elrond => (6, 'e', 'l', 'r', 'o'),
        Chain::Ethereum => (8, 'e', 't', 'h', 'e'),
        Chain::Fantom => (6, 'f', 'a', 'n', 't'),
        Chain::Harmony => (7, 'h', 'a', 'r', 'm'),
        Chain::Hedera => (6, 'h', 'e', 'd', 'e'),
        Chain::Heco => (4, 'h', 'e', 'c', 'o'),
        Chain::InternetComputer => (16, 'i', 'n', 't', 'e'),
        Chain::Karura => (6, 'k', 'a', 'r', 'u'),
        Chain::KuCoin => (6, 'k', 'u', 'c', 'o'),
        Chain::Kusama => (6, 'k', 'u', 's', 'a'),
        Chain::Moonbeam => (8, 'm', 'o', 'o', 'n'),
        Chain::Moonriver => (9, 'm', 'o', 'o', 'n'),
        Chain::Near => (4, 'n', 'e', 'a', 'r'),
        Chain::OKEx => (4, 'o', 'k', 'e', 'x'),
        Chain::Optimism => (8, 'o', 'p', 't', 'i'),
        Chain::Osmosis => (7, 'o', 's', 'm', 'o'),
        Chain::Pivx => (4, 'p', 'i', 'v', 'x'),
        Chain::Polkadot => (8, 'p', 'o', 'l', 'k'),
        Chain::Polygon => (7, 'p', 'o', 'l', 'y'),
        Chain::Rootstock => (9, 'r', 'o', 'o', 't'),
        Chain::SecretNetwork => (13, 's', 'e', 'c', 'r'),
        Chain::Solana => (6, 's', 'o', 'l', 'a'),
        Chain::Stellar => (7, 's', 't', 'e', 'l'),
        Chain::Terra => (5, 't', 'e', 'r', 'r'),
        Chain::XDai => (4, 'x', 'd', 'a', 'i'),
    }
}

proof fn lemma_id_shape(chain: Chain)
    ensures
        chain.spec_id().len() >= 4,
        id_shape(chain) == (
            chain.spec_id().len(),
            chain.spec_id()[0],
            chain.spec_id()[1],
            chain.spec_id()[2],
            chain.spec_id()[3],
        ),
{
    match chain {
        Chain::Acala => reveal_strlit("acala"),
        Chain::Algorand => reveal_strlit("algorand"),
        Chain::Arbitrum => reveal_strlit("arbitrum"),
        Chain::Astar => reveal_strlit("astar"),
        Chain::Avalanche => reveal_strlit("avalanche"),
        Chain::Bifrost => reveal_strlit("bifrost"),
        Chain::Binance => reveal_strlit("binance"),
        Chain::Bitcoin => reveal_strlit("bitcoin"),
        Chain::Celo => reveal_strlit("celo"),
        Chain::CosmosHub => reveal_strlit("cosmoshub"),
        Chain::Cronos => reveal_strlit("cronos"),
        Chain::Elrond => reveal_strlit("elrond"),
        Chain::Ethereum => reveal_strlit("ethereum"),
        Chain::Fantom => reveal_strlit("fantom"),
        Chain::Harmony => reveal_strlit("harmony"),
        Chain::Hedera => reveal_strlit("hedera"),
        Chain::Heco => reveal_strlit("heco"),
        Chain::InternetComputer => reveal_strlit("internetcomputer"),
        Chain::Karura => reveal_strlit("karura"),
        Chain::KuCoin => reveal_strlit("kucoin"),
        Chain::Kusama => reveal_strlit("kusama"),
        Chain::Moonbeam => reveal_strlit("moonbeam"),
        Chain::Moonriver => reveal_strlit("moonriver"),
        Chain::Near => reveal_strlit("near"),
        Chain::OKEx => reveal_strlit("okex"),
        Chain::Optimism => reveal_strlit("optimism"),
        Chain::Osmosis => reveal_strlit("osmosis"),
        Chain::Pivx => reveal_strlit("pivx"),
        Chain::Polkadot => reveal_strlit("polkadot"),
        Chain::Polygon => reveal_strlit("polygon"),
        Chain::Rootstock => reveal_strlit("rootstock"),
        Chain::SecretNetwork => reveal_strlit("secretnetwork"),
        Chain::Solana => reveal_strlit("solana"),
        Chain::Stellar => reveal_strlit("stellar"),
        Chain::Terra => reveal_strlit("terra"),
        Chain::XDai => reveal_strlit("xdai"),
    }
}

/// No two chains share an identifier: the chain that a name parses to is
/// the only one that is written so.
pub proof fn chain_ids_are_distinct(first: Chain, second: Chain)
    requires
        first.spec_id() == second.spec_id(),
    ensures
        first == second,
{
    lemma_id_shape(first);
    lemma_id_shape(second);
    assert(id_shape(first) == id_shape(second));
}

} // verus!
