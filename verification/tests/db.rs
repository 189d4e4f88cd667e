use realtps::calculate::{Calculation, ChainCalcs, Tps};
use realtps::chain::Chain;
use realtps::db::{prev_of, CalculationLog, JsonDb, UtcTime};
use realtps::text::{parse_u64, to_decimal};

#[test]
fn records_lie_under_chain_and_kind() {
    let db = JsonDb;
    assert_eq!(db.block_file(Chain::Ethereum, 0), "db/ethereum/blocks/0");
    assert_eq!(db.block_file(Chain::Solana, 123456789), "db/solana/blocks/123456789");
    assert_eq!(
        db.block_file(Chain::InternetComputer, u64::MAX),
        "db/internetcomputer/blocks/18446744073709551615"
    );
    assert_eq!(db.highest_block_number_file(Chain::Near), "db/near/meta/highest_block_number");
    assert_eq!(db.tps_file(Chain::Near), "db/near/meta/tps");
    assert_eq!(db.calculation_log_file(Chain::Near), "db/near/meta/calculation_log");
    assert_eq!(db.dir(Chain::Near, "blocks"), "db/near/blocks");
    assert_eq!(db.dir(Chain::Near, "meta"), "db/near/meta");
    assert_eq!(db.file(Chain::Polkadot, "meta", "tps"), "db/polkadot/meta/tps");
}

#[test]
fn temporary_file_lies_beside_its_target() {
    let db = JsonDb;
    assert_eq!(db.temp_file("db/near/meta/tps", 42), "db/near/meta/tps.42.temp");
    assert_eq!(db.temp_file("db/near/meta/tps", 0), "db/near/meta/tps.0.temp");
    assert_eq!(
        db.temp_file("db/near/blocks/7", u32::MAX),
        "db/near/blocks/7.4294967295.temp"
    );
    let mut names = std::collections::HashSet::new();
    for _ in 0..50 {
        let name = db.new_temp_file("db/near/blocks/7");
        assert!(name.starts_with("db/near/blocks/7."));
        assert!(name.ends_with(".temp"));
        assert_ne!(name, "db/near/blocks/7");
        let suffix = &name["db/near/blocks/7.".len()..name.len() - ".temp".len()];
        assert_eq!(suffix.parse::<u32>().unwrap().to_string(), suffix);
        names.insert(name);
    }
    // Fifty draws of 32 bits that all agree would be no random suffix.
    assert!(names.len() > 1);
}

#[test]
fn decimal_text() {
    assert_eq!(to_decimal(0), "0");
    assert_eq!(to_decimal(7), "7");
    assert_eq!(to_decimal(10), "10");
    assert_eq!(to_decimal(1905), "1905");
    assert_eq!(to_decimal(u64::MAX), u64::MAX.to_string());
    for number in [0u64, 1, 9, 10, 99, 100, 12345, 1 << 40, u64::MAX - 1, u64::MAX] {
        assert_eq!(parse_u64(&to_decimal(number)), Some(number));
    }
}

#[test]
fn decimal_text_is_read_like_the_standard_library_does() {
    for text in [
        "0", "7", "007", "+5", "+", "", "-1", "1 ", " 1", "12a", "18446744073709551615",
        "18446744073709551616", "99999999999999999999999", "++1", "1+", "٣",
    ] {
        assert_eq!(parse_u64(text), text.parse::<u64>().ok(), "{text:?}");
    }
}

#[test]
fn predecessor_by_number() {
    assert_eq!(prev_of(0), None);
    assert_eq!(prev_of(1), Some(0));
    assert_eq!(prev_of(u64::MAX), Some(u64::MAX - 1));
}

fn calculation(newest: i64, oldest: i64) -> Calculation {
    Calculation {
        calcs: ChainCalcs { chain: Chain::Near, tps: Tps { num_txs: 1, seconds: 1 } },
        newest_block_timestamp: newest,
        oldest_block_timestamp: oldest,
    }
}

#[test]
fn calculation_log_takes_block_times_from_the_calculation() {
    let start = UtcTime { secs: 2000, nanos: 5 };
    let end = UtcTime { secs: 2001, nanos: 6 };
    let log = CalculationLog::new(start, end, &calculation(1000, 700));
    assert_eq!(log.calculating_start, start);
    assert_eq!(log.calculating_end, end);
    assert_eq!(log.newest_block_timestamp, UtcTime { secs: 1000, nanos: 0 });
    assert_eq!(log.oldest_block_timestamp, UtcTime { secs: 700, nanos: 0 });
    assert_eq!(UtcTime::from_secs(-3), UtcTime { secs: -3, nanos: 0 });
    assert_eq!(UtcTime { secs: 2, nanos: 5 }.total_nanos(), 2_000_000_005);
    assert_eq!(UtcTime { secs: -1, nanos: 5 }.total_nanos(), -999_999_995);
}

#[test]
fn data_is_stale_after_more_than_a_day() {
    let end = UtcTime { secs: 0, nanos: 0 };
    let log = |secs: i64, nanos: u32| {
        CalculationLog::new(UtcTime { secs, nanos }, end, &calculation(1000, 700))
    };
    assert!(!log(1000, 0).is_data_too_old());
    assert!(!log(1000 + 86400, 0).is_data_too_old());
    assert!(log(1000 + 86400, 1).is_data_too_old());
    assert!(log(1000 + 86401, 0).is_data_too_old());
    assert!(!log(0, 0).is_data_too_old());
    assert!(log(i64::MAX, 999_999_999).is_data_too_old());
    assert!(!log(i64::MIN, 0).is_data_too_old());
}
