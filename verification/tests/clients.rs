use realtps::chain::Chain;
use realtps::clients::algorand::{algorand_block_to_block, split_urls, AlgorandBlock};
use realtps::clients::cast::reinterpret;
use realtps::clients::electrum::{ElectrumBlock, ElectrumClient};
use realtps::clients::elrond;
use realtps::clients::elrond::{elrond_block_to_block, ElrondError, Hyperblock};
use realtps::clients::ethers::{ethers_block_to_block, EthersBlock, EthersError};
use realtps::clients::hedera;
use realtps::clients::hedera::{hedera_block_to_block, HederaBlock, HederaError};
use realtps::clients::icp;
use realtps::clients::icp::{icp_block_to_block, rosetta_block, rosetta_block_to_block, RosettaBlock};
use realtps::clients::near::{count_txs, near_block_to_block, NearError, NearHeader};
use realtps::clients::pivx;
use realtps::clients::pivx::{pivx_block_to_block, PivxBlockInfo};
use realtps::clients::solana::{
    calc_user_txs, solana_block_to_block, SolanaBlock, SolanaError, SolanaTransaction,
    VOTE_PROGRAM_ID,
};
use realtps::clients::stellar;
use realtps::clients::stellar::{stellar_ledger_to_block, StellarLedger};
use realtps::clients::substrate;
use realtps::clients::substrate::{
    block_from_parts, hex_be_to_u32, hex_le_to_u64, seconds_of_millis, storage_key,
    substrate_block_to_block, HexError, SubstrateBlock, SubstrateError,
};
use realtps::clients::tendermint::{tendermint_block_to_block, TendermintBlock, TendermintError};
use realtps::db::Block;
use realtps::hexadecimal::encode_hex;
use realtps::json::{array_len, member, str_member, u64_member, JsonError};
use serde_json::Value;

fn json(text: &str) -> Value {
    serde_json::from_str(text).unwrap()
}

#[test]
fn json_members() {
    let value = json(r#"{"a": 1, "b": "two", "c": [1, 2, 3], "d": null, "e": -1, "f": 1.5}"#);
    assert_eq!(u64_member(&value, "a"), Ok(1));
    assert_eq!(u64_member(&value, "b"), Err(JsonError::NotAU64));
    assert_eq!(u64_member(&value, "e"), Err(JsonError::NotAU64));
    assert_eq!(u64_member(&value, "f"), Err(JsonError::NotAU64));
    assert_eq!(u64_member(&value, "z"), Err(JsonError::MissingKey("z")));
    assert_eq!(str_member(&value, "b"), Ok("two".to_string()));
    assert_eq!(str_member(&value, "a"), Err(JsonError::NotAString));
    assert_eq!(str_member(&value, "z"), Err(JsonError::MissingKey("z")));
    assert_eq!(array_len(&value, "c"), Ok(3));
    assert_eq!(array_len(&value, "b"), Err(JsonError::NotAnArray));
    assert_eq!(array_len(&value, "z"), Err(JsonError::MissingKey("z")));
    assert_eq!(member(&value, "d"), Ok(&Value::Null));
    assert_eq!(member(&value, "c"), Ok(&json("[1, 2, 3]")));
    assert_eq!(member(&json("[1]"), "a"), Err(JsonError::MissingKey("a")));
    assert_eq!(member(&Value::Null, "a"), Err(JsonError::MissingKey("a")));
}

#[test]
fn hex_numbers_most_significant_first() {
    assert_eq!(hex_be_to_u32("0x0"), Ok(0));
    assert_eq!(hex_be_to_u32("0x"), Ok(0));
    assert_eq!(hex_be_to_u32("0x1a"), Ok(26));
    assert_eq!(hex_be_to_u32("0x1A"), Ok(26));
    assert_eq!(hex_be_to_u32("0xabc"), Ok(0xabc));
    assert_eq!(hex_be_to_u32("0x00e4e1c0"), Ok(15_000_000));
    assert_eq!(hex_be_to_u32("0x12345678"), Ok(0x12345678));
    assert_eq!(hex_be_to_u32("0xffffffff"), Ok(u32::MAX));
    assert_eq!(hex_be_to_u32("1a"), Err(HexError::MissingPrefix));
    assert_eq!(hex_be_to_u32(""), Err(HexError::MissingPrefix));
    assert_eq!(hex_be_to_u32("0X1a"), Err(HexError::MissingPrefix));
    assert_eq!(hex_be_to_u32("0x123456789"), Err(HexError::TooLong));
    assert_eq!(hex_be_to_u32("0x1g"), Err(HexError::Malformed));
    assert_eq!(hex_be_to_u32("0x 1"), Err(HexError::Malformed));
}

#[test]
fn hex_numbers_least_significant_byte_first() {
    assert_eq!(hex_le_to_u64("0x0100000000000000"), Ok(1));
    assert_eq!(hex_le_to_u64("0x0001000000000000"), Ok(256));
    assert_eq!(hex_le_to_u64("0x10a6b5c87e010000"), Ok(0x017e_c8b5_a610));
    assert_eq!(hex_le_to_u64("0xefcdab8967452301"), Ok(0x0123_4567_89ab_cdef));
    assert_eq!(hex_le_to_u64("0xEFCDAB8967452301"), Ok(0x0123_4567_89ab_cdef));
    assert_eq!(hex_le_to_u64("0xffffffffffffffff"), Ok(u64::MAX));
    assert_eq!(hex_le_to_u64("0100000000000000"), Err(HexError::MissingPrefix));
    assert_eq!(hex_le_to_u64("0x01000000000000000"), Err(HexError::TooLong));
    assert_eq!(hex_le_to_u64("0x01"), Err(HexError::Malformed));
    assert_eq!(hex_le_to_u64("0x010000000000000"), Err(HexError::Malformed));
    assert_eq!(hex_le_to_u64("0x01000000000000zz"), Err(HexError::Malformed));
}

#[test]
fn hex_text_of_bytes() {
    assert_eq!(encode_hex(&vec![]), "");
    assert_eq!(encode_hex(&vec![0x00, 0x0f, 0xa0, 0xff]), "000fa0ff");
    assert_eq!(encode_hex(&vec![1, 2, 3, 15, 16]), "0102030f10");
    assert_eq!(encode_hex(&b"Hello world!".to_vec()), "48656c6c6f20776f726c6421");
}

#[test]
fn storage_key_of_the_timestamp() {
    let key = storage_key("Timestamp", "Now");
    assert_eq!(key.len(), 32);
    assert_eq!(
        encode_hex(&key),
        "f0c365c3cf59d671eb72da0e7a4113c49f1f0515f462cdcf84e0f1d6045dfcbb"
    );
    let other = storage_key("Now", "Timestamp");
    assert_eq!(other[..16], key[16..]);
    assert_eq!(other[16..], key[..16]);
    assert_ne!(key[..16], key[16..]);
}

#[test]
fn substrate_answers() {
    assert_eq!(substrate::latest_block_number(&json(r#"{"number": "0xe4e1c0"}"#)), Ok(15_000_000));
    assert_eq!(
        substrate::latest_block_number(&json(r#"{"number": 5}"#)),
        Err(SubstrateError::Json(JsonError::NotAString))
    );
    assert_eq!(
        substrate::latest_block_number(&json(r#"{}"#)),
        Err(SubstrateError::Json(JsonError::MissingKey("number")))
    );
    assert_eq!(
        substrate::latest_block_number(&json(r#"{"number": "e4e1c0"}"#)),
        Err(SubstrateError::Hex(HexError::MissingPrefix))
    );
    assert_eq!(
        substrate::client_version(&json(r#"{"implName": "parity-polkadot"}"#)),
        Ok("parity-polkadot".to_string())
    );
    assert_eq!(
        substrate::client_version(&json(r#"{}"#)),
        Err(SubstrateError::Json(JsonError::MissingKey("implName")))
    );
    assert_eq!(substrate::block_number_argument(7), Ok(7));
    assert_eq!(substrate::block_number_argument(u32::MAX as u64), Ok(u32::MAX));
    assert_eq!(
        substrate::block_number_argument(u32::MAX as u64 + 1),
        Err(SubstrateError::BlockNumberTooLarge)
    );
    assert_eq!(substrate::block_hash(&json(r#""0xabc""#)), Ok("0xabc".to_string()));
    assert_eq!(
        substrate::block_hash(&Value::Null),
        Err(SubstrateError::Json(JsonError::NotAString))
    );
    assert!(substrate::block_is_absent(&Value::Null));
    assert!(!substrate::block_is_absent(&json("{}")));
    assert_eq!(substrate::timestamp(&json(r#""0x10a6b5c87e010000""#)), Ok(1_644_044_854));
    assert_eq!(substrate::timestamp(&json(r#""0xe703000000000000""#)), Ok(0));
    assert_eq!(substrate::timestamp(&json(r#""0xe803000000000000""#)), Ok(1));
    assert_eq!(
        substrate::timestamp(&json("17")),
        Err(SubstrateError::Json(JsonError::NotAString))
    );
    assert_eq!(
        substrate::timestamp(&json(r#""0x01""#)),
        Err(SubstrateError::Hex(HexError::Malformed))
    );
}

#[test]
fn substrate_block() {
    let answer = json(
        r#"{"block": {"header": {"parentHash": "0xparent", "number": "0x10"},
            "extrinsics": ["0x01", "0x02", "0x03"]}, "justifications": null}"#,
    );
    assert_eq!(
        substrate_block_to_block(Chain::Polkadot, &answer, 16, "0xhash".to_string(), 1234),
        Ok(Block {
            chain: Chain::Polkadot,
            block_number: 16,
            prev_block_number: Some(15),
            timestamp: 1234,
            num_txs: 3,
            hash: "0xhash".to_string(),
            parent_hash: "0xparent".to_string(),
        })
    );
    let genesis = substrate_block_to_block(Chain::Kusama, &answer, 0, "g".to_string(), 0).unwrap();
    assert_eq!(genesis.prev_block_number, None);
    assert_eq!(genesis.chain, Chain::Kusama);
    let convert = |text: &str| {
        substrate_block_to_block(Chain::Polkadot, &json(text), 16, "h".to_string(), 0)
    };
    assert_eq!(convert("{}"), Err(SubstrateError::Json(JsonError::MissingKey("block"))));
    assert_eq!(
        convert(r#"{"block": {}}"#),
        Err(SubstrateError::Json(JsonError::MissingKey("header")))
    );
    assert_eq!(
        convert(r#"{"block": {"header": {}}}"#),
        Err(SubstrateError::Json(JsonError::MissingKey("extrinsics")))
    );
    assert_eq!(
        convert(r#"{"block": {"header": {}, "extrinsics": 3}}"#),
        Err(SubstrateError::Json(JsonError::NotAnArray))
    );
    assert_eq!(
        convert(r#"{"block": {"header": {}, "extrinsics": []}}"#),
        Err(SubstrateError::Json(JsonError::MissingKey("parentHash")))
    );
    assert_eq!(
        convert(r#"{"block": {"header": {"parentHash": 1}, "extrinsics": []}}"#),
        Err(SubstrateError::Json(JsonError::NotAString))
    );
}

#[test]
fn elrond_envelope() {
    let data = json(r#"{"x": 1}"#);
    assert_eq!(elrond::response_data(&data, None), Ok(&data));
    assert_eq!(elrond::response_data(&data, Some("ignored".to_string())), Ok(&data));
    assert_eq!(
        elrond::response_data(&Value::Null, Some("boom".to_string())),
        Err(ElrondError::Remote("boom".to_string()))
    );
    assert_eq!(
        elrond::response_data(&Value::Null, None),
        Err(ElrondError::MissingErrorResponse)
    );
    assert_eq!(elrond::METABLOCK_SHARD, u32::MAX);
}

#[test]
fn elrond_answers() {
    assert_eq!(
        elrond::client_version(&json(
            r#"{"config": {"erd_latest_tag_software_version": "v1.2.3"}}"#
        )),
        Ok("v1.2.3".to_string())
    );
    assert_eq!(
        elrond::client_version(&json("{}")),
        Err(ElrondError::Json(JsonError::MissingKey("config")))
    );
    assert_eq!(
        elrond::client_version(&json(r#"{"config": {}}"#)),
        Err(ElrondError::Json(JsonError::MissingKey("erd_latest_tag_software_version")))
    );
    assert_eq!(
        elrond::client_version(&json(r#"{"config": {"erd_latest_tag_software_version": 1}}"#)),
        Err(ElrondError::Json(JsonError::NotAString))
    );
    assert_eq!(
        elrond::latest_block_number(&json(r#"{"status": {"erd_highest_final_nonce": 99}}"#)),
        Ok(99)
    );
    assert_eq!(
        elrond::latest_block_number(&json(r#"{"status": {"erd_highest_final_nonce": "99"}}"#)),
        Err(ElrondError::Json(JsonError::NotAU64))
    );
    assert_eq!(
        elrond::latest_block_number(&json(r#"{"status": {}}"#)),
        Err(ElrondError::Json(JsonError::MissingKey("erd_highest_final_nonce")))
    );
    assert_eq!(
        elrond::latest_block_number(&json("{}")),
        Err(ElrondError::Json(JsonError::MissingKey("status")))
    );
    assert_eq!(elrond::hyperblock_nonce(&json(r#"{"hyperblock": {"nonce": 41}}"#)), Ok(41));
    assert_eq!(
        elrond::hyperblock_nonce(&json(r#"{"hyperblock": {}}"#)),
        Err(ElrondError::Json(JsonError::MissingKey("nonce")))
    );
}

#[test]
fn elrond_hyperblock() {
    let data = json(
        r#"{"hyperblock": {"nonce": 42, "timestamp": 1650000000, "numTxs": 17,
            "hash": "abc", "prevBlockHash": "def", "round": 43}}"#,
    );
    let hyperblock = elrond::hyperblock(&data).unwrap();
    assert_eq!(
        hyperblock,
        Hyperblock {
            nonce: 42,
            timestamp: 1650000000,
            num_txs: 17,
            hash: "abc".to_string(),
            prev_block_hash: "def".to_string(),
        }
    );
    assert_eq!(
        elrond_block_to_block(hyperblock, 40),
        Block {
            chain: Chain::Elrond,
            block_number: 42,
            prev_block_number: Some(40),
            timestamp: 1650000000,
            num_txs: 17,
            hash: "abc".to_string(),
            parent_hash: "def".to_string(),
        }
    );
    let read = |text: &str| elrond::hyperblock(&json(text));
    assert_eq!(read("{}"), Err(ElrondError::Json(JsonError::MissingKey("hyperblock"))));
    assert_eq!(
        read(r#"{"hyperblock": {}}"#),
        Err(ElrondError::Json(JsonError::MissingKey("nonce")))
    );
    assert_eq!(
        read(r#"{"hyperblock": {"nonce": 1}}"#),
        Err(ElrondError::Json(JsonError::MissingKey("timestamp")))
    );
    assert_eq!(
        read(r#"{"hyperblock": {"nonce": 1, "timestamp": 2}}"#),
        Err(ElrondError::Json(JsonError::MissingKey("numTxs")))
    );
    assert_eq!(
        read(r#"{"hyperblock": {"nonce": 1, "timestamp": 2, "numTxs": 3}}"#),
        Err(ElrondError::Json(JsonError::MissingKey("hash")))
    );
    assert_eq!(
        read(r#"{"hyperblock": {"nonce": 1, "timestamp": 2, "numTxs": 3, "hash": "h"}}"#),
        Err(ElrondError::Json(JsonError::MissingKey("prevBlockHash")))
    );
    assert_eq!(
        read(r#"{"hyperblock": {"nonce": "1"}}"#),
        Err(ElrondError::Json(JsonError::NotAU64))
    );
}

#[test]
fn icp_answers() {
    assert_eq!(icp::BLOCKCHAIN, "Internet Computer");
    assert_eq!(icp::NETWORK, "00000000000000020101");
    assert_eq!(
        icp::client_version(&json(r#"{"rosetta_version": "1.4.10"}"#)),
        Ok("1.4.10".to_string())
    );
    assert_eq!(
        icp::client_version(&json("{}")),
        Err(JsonError::MissingKey("rosetta_version"))
    );
    assert_eq!(icp::client_version(&json(r#"{"rosetta_version": 1}"#)), Err(JsonError::NotAString));
    assert_eq!(icp::latest_block_number(&json(r#"{"index": 77, "hash": "x"}"#)), Ok(77));
    assert_eq!(icp::latest_block_number(&json("{}")), Err(JsonError::MissingKey("index")));
    assert_eq!(icp::latest_block_number(&json(r#"{"index": "77"}"#)), Err(JsonError::NotAU64));
}

#[test]
fn icp_block() {
    let block = json(
        r#"{"block_identifier": {"index": 77, "hash": "h77"},
            "parent_block_identifier": {"index": 76, "hash": "h76"},
            "timestamp": 1650000000999, "transactions": [{}, {}]}"#,
    );
    assert_eq!(
        icp_block_to_block(&block),
        Ok(Block {
            chain: Chain::InternetComputer,
            block_number: 77,
            prev_block_number: Some(76),
            timestamp: 1650000000,
            num_txs: 2,
            hash: "h77".to_string(),
            parent_hash: "h76".to_string(),
        })
    );
    let orphan = json(
        r#"{"block_identifier": {"index": 0, "hash": "h0"},
            "parent_block_identifier": {"index": null, "hash": "h0"},
            "timestamp": 999, "transactions": []}"#,
    );
    let converted = icp_block_to_block(&orphan).unwrap();
    assert_eq!(converted.prev_block_number, None);
    assert_eq!(converted.timestamp, 0);
    assert_eq!(converted.num_txs, 0);
    let convert = |text: &str| icp_block_to_block(&json(text));
    assert_eq!(convert("{}"), Err(JsonError::MissingKey("block_identifier")));
    assert_eq!(
        convert(r#"{"block_identifier": {}}"#),
        Err(JsonError::MissingKey("parent_block_identifier"))
    );
    assert_eq!(
        convert(r#"{"block_identifier": {}, "parent_block_identifier": {}}"#),
        Err(JsonError::MissingKey("index"))
    );
    assert_eq!(
        convert(r#"{"block_identifier": {"index": "1"}, "parent_block_identifier": {}}"#),
        Err(JsonError::NotAU64)
    );
    assert_eq!(
        convert(r#"{"block_identifier": {"index": 1}, "parent_block_identifier": {"index": 0}}"#),
        Err(JsonError::MissingKey("hash"))
    );
    assert_eq!(
        convert(
            r#"{"block_identifier": {"index": 1, "hash": "a"},
                "parent_block_identifier": {"index": 0, "hash": "b"}}"#
        ),
        Err(JsonError::MissingKey("timestamp"))
    );
    assert_eq!(
        convert(
            r#"{"block_identifier": {"index": 1, "hash": "a"},
                "parent_block_identifier": {"index": 0, "hash": "b"}, "timestamp": 5}"#
        ),
        Err(JsonError::MissingKey("transactions"))
    );
    assert_eq!(
        convert(
            r#"{"block_identifier": {"index": 1, "hash": "a"},
                "parent_block_identifier": {"index": 0, "hash": "b"}, "timestamp": 5,
                "transactions": {}}"#
        ),
        Err(JsonError::NotAnArray)
    );
}

fn transaction(keys: &[&str], programs: &[u8]) -> SolanaTransaction {
    SolanaTransaction {
        account_keys: keys.iter().map(|key| key.to_string()).collect(),
        program_id_indexes: programs.to_vec(),
    }
}

#[test]
fn solana_votes_are_not_counted() {
    let vote = VOTE_PROGRAM_ID;
    assert_eq!(vote, "Vote111111111111111111111111111111111111111");
    let user = "11111111111111111111111111111111";
    let only_votes = transaction(&["payer", vote], &[1, 1]);
    let mixed = transaction(&["payer", vote, user], &[1, 2]);
    let plain = transaction(&["payer", user], &[1]);
    let empty = transaction(&["payer"], &[]);
    assert_eq!(only_votes.is_vote(), Ok(true));
    assert_eq!(mixed.is_vote(), Ok(false));
    assert_eq!(plain.is_vote(), Ok(false));
    assert_eq!(empty.is_vote(), Ok(true));
    assert_eq!(calc_user_txs(&None), Ok(0));
    assert_eq!(calc_user_txs(&Some(vec![])), Ok(0));
    assert_eq!(
        calc_user_txs(&Some(vec![
            only_votes.clone(),
            mixed.clone(),
            plain.clone(),
            empty.clone(),
            only_votes.clone()
        ])),
        Ok(2)
    );
    let broken = transaction(&["payer"], &[0, 1]);
    assert_eq!(broken.is_vote(), Err(SolanaError::ProgramIndexOutOfRange));
    assert_eq!(
        calc_user_txs(&Some(vec![plain, broken])),
        Err(SolanaError::ProgramIndexOutOfRange)
    );
}

#[test]
fn solana_block() {
    let vote = VOTE_PROGRAM_ID;
    let block = SolanaBlock {
        parent_slot: 95,
        block_time: Some(1650000000),
        transactions: Some(vec![
            transaction(&["a", vote], &[1]),
            transaction(&["a", "b"], &[1]),
            transaction(&["a", "b", vote], &[2, 1]),
        ]),
        blockhash: "hash".to_string(),
        previous_blockhash: "prev".to_string(),
    };
    assert_eq!(
        solana_block_to_block(block.clone(), 100),
        Ok(Block {
            chain: Chain::Solana,
            block_number: 100,
            prev_block_number: Some(95),
            timestamp: 1650000000,
            num_txs: 2,
            hash: "hash".to_string(),
            parent_hash: "prev".to_string(),
        })
    );
    let mut timeless = block.clone();
    timeless.block_time = None;
    assert_eq!(solana_block_to_block(timeless, 100), Err(SolanaError::BlockTimeUnavailable));
    let mut early = block.clone();
    early.block_time = Some(-1);
    assert_eq!(solana_block_to_block(early, 100), Err(SolanaError::BlockTimeOutOfRange));
    let mut bare = block.clone();
    bare.transactions = None;
    assert_eq!(solana_block_to_block(bare, 100).unwrap().num_txs, 0);
    let mut broken = block;
    broken.transactions = Some(vec![transaction(&[], &[0])]);
    assert_eq!(solana_block_to_block(broken, 100), Err(SolanaError::ProgramIndexOutOfRange));
}

#[test]
fn ethers_block() {
    let block = EthersBlock {
        number: Some(15_000_000),
        timestamp: [1_655_000_000, 0, 0, 0],
        transactions: 210,
        hash: Some(vec![0xab, 0xcd]),
        parent_hash: vec![0x01, 0x02],
    };
    assert_eq!(
        ethers_block_to_block(Chain::Polygon, block.clone()),
        Ok(Block {
            chain: Chain::Polygon,
            block_number: 15_000_000,
            prev_block_number: Some(14_999_999),
            timestamp: 1_655_000_000,
            num_txs: 210,
            hash: "abcd".to_string(),
            parent_hash: "0102".to_string(),
        })
    );
    let mut genesis = block.clone();
    genesis.number = Some(0);
    assert_eq!(ethers_block_to_block(Chain::Ethereum, genesis).unwrap().prev_block_number, None);
    let mut pending = block.clone();
    pending.number = None;
    assert_eq!(ethers_block_to_block(Chain::Ethereum, pending), Err(EthersError::PendingBlock));
    let mut hashless = block.clone();
    hashless.hash = None;
    assert_eq!(ethers_block_to_block(Chain::Ethereum, hashless), Err(EthersError::PendingBlock));
    for word in 1..4 {
        let mut late = block.clone();
        late.timestamp[word] = 1;
        assert_eq!(
            ethers_block_to_block(Chain::Ethereum, late),
            Err(EthersError::TimestampOverflow)
        );
    }
}

#[test]
fn tendermint_block() {
    let response = TendermintBlock {
        time_seconds: 1650000000,
        transactions: 4,
        hash: "ABCD".to_string(),
        last_block_id_hash: Some("0123".to_string()),
    };
    assert_eq!(
        tendermint_block_to_block(Chain::Osmosis, response.clone(), 500),
        Ok(Block {
            chain: Chain::Osmosis,
            block_number: 500,
            prev_block_number: Some(499),
            timestamp: 1650000000,
            num_txs: 4,
            hash: "ABCD".to_string(),
            parent_hash: "0123".to_string(),
        })
    );
    let mut first = response.clone();
    first.last_block_id_hash = None;
    assert_eq!(
        tendermint_block_to_block(Chain::Osmosis, first.clone(), 1),
        Err(TendermintError::NoPreviousBlockId)
    );
    first.time_seconds = -5;
    assert_eq!(
        tendermint_block_to_block(Chain::Osmosis, first, 1),
        Err(TendermintError::TimeOutOfRange)
    );
}

#[test]
fn near_block() {
    let header = NearHeader {
        prev_height: Some(98),
        timestamp_nanosec: 1_650_000_000_999_999_999,
        hash: "h".to_string(),
        prev_hash: "p".to_string(),
    };
    assert_eq!(
        near_block_to_block(header.clone(), 100, 12),
        Block {
            chain: Chain::Near,
            block_number: 100,
            prev_block_number: Some(98),
            timestamp: 1_650_000_000,
            num_txs: 12,
            hash: "h".to_string(),
            parent_hash: "p".to_string(),
        }
    );
    let mut first = header;
    first.prev_height = None;
    assert_eq!(near_block_to_block(first, 0, 0).prev_block_number, None);
    assert_eq!(count_txs(&vec![]), Ok(0));
    assert_eq!(count_txs(&vec![3, 0, 4, 5]), Ok(12));
    assert_eq!(count_txs(&vec![usize::MAX, 1]), Err(NearError::TxCountOverflow));
    assert_eq!(count_txs(&vec![usize::MAX, 0]), Ok(usize::MAX as u64));
}

#[test]
fn stellar_ledger() {
    let ledger = StellarLedger {
        hash: "h".to_string(),
        prev_hash: "p".to_string(),
        closed_at: 1650000000,
        successful_transaction_count: u32::MAX,
        failed_transaction_count: u32::MAX,
    };
    assert_eq!(
        stellar_ledger_to_block(ledger.clone(), 40_000_000),
        Block {
            chain: Chain::Stellar,
            block_number: 40_000_000,
            prev_block_number: Some(39_999_999),
            timestamp: 1650000000,
            num_txs: 2 * (u32::MAX as u64),
            hash: "h".to_string(),
            parent_hash: "p".to_string(),
        }
    );
    assert_eq!(stellar_ledger_to_block(ledger, 0).prev_block_number, None);
    assert_eq!(stellar::latest_block_number(7), 7);
    assert_eq!(
        stellar::ledger_url("https://horizon.stellar.org", 123),
        "https://horizon.stellar.org/ledgers/123"
    );
}

#[test]
fn signed_numbers_taken_as_unsigned() {
    for number in [0i64, 1, 42, i64::MAX, -1, -2, i64::MIN, i64::MIN + 1] {
        assert_eq!(reinterpret(number), number as u64);
    }
}

#[test]
fn algorand_block() {
    let block = AlgorandBlock {
        hash: vec![0xde, 0xad],
        previous_block_hash: vec![0xbe, 0xef],
        timestamp: 1650000000,
        transactions: 9,
    };
    assert_eq!(
        algorand_block_to_block(block.clone(), 20_000_000),
        Block {
            chain: Chain::Algorand,
            block_number: 20_000_000,
            prev_block_number: Some(19_999_999),
            timestamp: 1650000000,
            num_txs: 9,
            hash: "dead".to_string(),
            parent_hash: "beef".to_string(),
        }
    );
    assert_eq!(algorand_block_to_block(block, 0).prev_block_number, None);
}

fn hedera_block(number: i64, count: i64, version: &str) -> HederaBlock {
    HederaBlock {
        count,
        hapi_version: version.to_string(),
        hash: "h".to_string(),
        number,
        previous_hash: "p".to_string(),
        timestamp_to: 1650000000,
    }
}

#[test]
fn hedera_answers() {
    let recent = vec![hedera_block(33, 5, "0.27.0"), hedera_block(32, 4, "0.26.0")];
    assert_eq!(hedera::client_version(&recent), Ok("0.27.0".to_string()));
    assert_eq!(hedera::latest_block_number(&recent), Ok(33));
    assert_eq!(hedera::client_version(&vec![]), Err(HederaError::NoBlocks));
    assert_eq!(hedera::latest_block_number(&vec![]), Err(HederaError::NoBlocks));
    assert_eq!(
        hedera::latest_block_number(&vec![hedera_block(-1, 0, "v")]),
        Ok(u64::MAX)
    );
    assert_eq!(
        hedera_block_to_block(hedera_block(33, 5, "0.27.0"), 33),
        Block {
            chain: Chain::Hedera,
            block_number: 33,
            prev_block_number: Some(32),
            timestamp: 1650000000,
            num_txs: 5,
            hash: "h".to_string(),
            parent_hash: "p".to_string(),
        }
    );
    assert_eq!(hedera_block_to_block(hedera_block(0, 0, "v"), 0).prev_block_number, None);
    assert_eq!(
        hedera::most_recent_block_url("https://mirror"),
        "https://mirror/api/v1/blocks?order=desc&limit=1"
    );
    assert_eq!(hedera::block_url("https://mirror", 33), "https://mirror/api/v1/blocks/33");
}

fn electrum_block(id: &str, height: u64, prev: &str) -> ElectrumBlock {
    ElectrumBlock {
        id: id.to_string(),
        height,
        version: 536870912,
        timestamp: 1650000000,
        tx_count: 2500,
        previousblockhash: prev.to_string(),
        nonce: 7,
    }
}

#[test]
fn electrum_client() {
    let client = ElectrumClient::new("https://blockstream.info/api/");
    assert_eq!(client.url, "https://blockstream.info/api/");
    assert_eq!(client.tip_hash_url(), "https://blockstream.info/api/blocks/tip/hash");
    assert_eq!(client.tip_height_url(), "https://blockstream.info/api/blocks/tip/height");
    assert_eq!(client.block_height_url(700000), "https://blockstream.info/api/block-height/700000");
    assert_eq!(client.block_url("00ab"), "https://blockstream.info/api/block/00ab");
    assert_eq!(client.client_version(&electrum_block("a", 1, "b")), "536870912");
    assert_eq!(client.latest_block_number("700000"), Some(700000));
    assert_eq!(client.latest_block_number("700000\n"), None);
    assert_eq!(client.latest_block_number(""), None);
    let block = electrum_block("h2", 700000, "h1");
    let prev = electrum_block("h1", 699999, "h0");
    assert_eq!(
        client.electrum_block_to_block(block, &prev, 700000),
        Block {
            chain: Chain::Bitcoin,
            block_number: 700000,
            prev_block_number: Some(699999),
            timestamp: 1650000000,
            num_txs: 2500,
            hash: "h2".to_string(),
            parent_hash: "h1".to_string(),
        }
    );
}

#[test]
fn pivx_explorer() {
    assert_eq!(pivx::CLIENT_VERSION, "https://chainz.cryptoid.info");
    assert_eq!(
        pivx::block_count_url("https://chainz.cryptoid.info"),
        "https://chainz.cryptoid.info/pivx/api.dws?q=getblockcount"
    );
    assert_eq!(
        pivx::block_hash_url("https://chainz.cryptoid.info", 3598398),
        "https://chainz.cryptoid.info/pivx/api.dws?q=getblockhash&height=3598398"
    );
    assert_eq!(
        pivx::block_url("https://chainz.cryptoid.info", "0000abcd"),
        "https://chainz.cryptoid.info/explorer/block.raw.dws?coin=pivx&hash=0000abcd.js"
    );
    let info = PivxBlockInfo {
        hash: "h".to_string(),
        previousblockhash: "p".to_string(),
        tx: vec!["t1".to_string(), "t2".to_string(), "t3".to_string()],
        time: 1650000000,
    };
    assert_eq!(
        pivx_block_to_block(info.clone(), 3598398),
        Block {
            chain: Chain::Pivx,
            block_number: 3598398,
            prev_block_number: Some(3598397),
            timestamp: 1650000000,
            num_txs: 3,
            hash: "h".to_string(),
            parent_hash: "p".to_string(),
        }
    );
    assert_eq!(pivx_block_to_block(info, 0).prev_block_number, None);
}

#[test]
fn algorand_addresses() {
    let pair = |a: &str, b: &str| Some((a.to_string(), b.to_string()));
    assert_eq!(split_urls("https://algod;https://indexer"), pair("https://algod", "https://indexer"));
    assert_eq!(split_urls("a;b;c"), pair("a", "b"));
    assert_eq!(split_urls("a;"), pair("a", ""));
    assert_eq!(split_urls(";b"), pair("", "b"));
    assert_eq!(split_urls(";"), pair("", ""));
    assert_eq!(split_urls("é;ü;x"), pair("é", "ü"));
    assert_eq!(split_urls("https://algod"), None);
    assert_eq!(split_urls(""), None);
}

#[test]
fn rosetta_block_from_plain_values() {
    let said = RosettaBlock {
        index: 77,
        parent_index: Some(76),
        hash: "h77".to_string(),
        parent_hash: "h76".to_string(),
        timestamp_millis: 1_650_000_000_999,
        transactions: 2,
    };
    assert_eq!(
        rosetta_block(&json(
            r#"{"block_identifier": {"index": 77, "hash": "h77"},
                "parent_block_identifier": {"index": 76, "hash": "h76"},
                "timestamp": 1650000000999, "transactions": [{}, {}]}"#
        )),
        Ok(said.clone())
    );
    assert_eq!(
        rosetta_block_to_block(said.clone()),
        Block {
            chain: Chain::InternetComputer,
            block_number: 77,
            prev_block_number: Some(76),
            timestamp: 1_650_000_000,
            num_txs: 2,
            hash: "h77".to_string(),
            parent_hash: "h76".to_string(),
        }
    );
    let mut edge = said;
    edge.parent_index = None;
    edge.transactions = 0;
    for (millis, seconds) in [(0u64, 0u64), (999, 0), (1000, 1), (1999, 1), (u64::MAX, u64::MAX / 1000)] {
        edge.timestamp_millis = millis;
        let block = rosetta_block_to_block(edge.clone());
        assert_eq!(block.timestamp, seconds);
        assert_eq!(block.prev_block_number, None);
        assert_eq!(block.num_txs, 0);
    }
}

#[test]
fn substrate_block_from_plain_values() {
    for (millis, seconds) in [(0u64, 0u64), (999, 0), (1000, 1), (1_644_044_854_800, 1_644_044_854), (u64::MAX, u64::MAX / 1000)] {
        assert_eq!(seconds_of_millis(millis), seconds);
    }
    assert_eq!(
        substrate::timestamp_millis(&json(r#""0x10a6b5c87e010000""#)),
        Ok(1_644_044_854_800)
    );
    let found = SubstrateBlock { parent_hash: "0xparent".to_string(), extrinsics: 3 };
    assert_eq!(
        substrate::substrate_block(&json(
            r#"{"block": {"header": {"parentHash": "0xparent"}, "extrinsics": [1, 2, 3]}}"#
        )),
        Ok(found.clone())
    );
    assert_eq!(
        block_from_parts(Chain::Acala, found.clone(), 16, "0xhash".to_string(), 1234),
        Block {
            chain: Chain::Acala,
            block_number: 16,
            prev_block_number: Some(15),
            timestamp: 1234,
            num_txs: 3,
            hash: "0xhash".to_string(),
            parent_hash: "0xparent".to_string(),
        }
    );
    assert_eq!(
        block_from_parts(Chain::Acala, found, 0, "g".to_string(), 0).prev_block_number,
        None
    );
}
