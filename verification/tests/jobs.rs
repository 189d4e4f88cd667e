use realtps::chain::Chain;
use realtps::jobs::{get_chains, get_rpc_url, init_jobs, removal_order, Command, Job, RpcConfig};

#[test]
fn chosen_chain_or_all_listed() {
    assert_eq!(get_chains(Some(Chain::Near)), vec![Chain::Near]);
    assert_eq!(get_chains(Some(Chain::Terra)), vec![Chain::Terra]);
    assert_eq!(get_chains(None), Chain::all_chains());
}

#[test]
fn initial_jobs_per_command() {
    let chains = vec![Chain::Near, Chain::Solana];
    assert_eq!(
        init_jobs(&chains, Command::Import),
        vec![Job::Import(Chain::Near), Job::Import(Chain::Solana)]
    );
    assert_eq!(init_jobs(&chains, Command::Calculate), vec![Job::Calculate(chains.clone())]);
    assert_eq!(init_jobs(&chains, Command::Remove), vec![Job::Remove(chains.clone())]);
    assert_eq!(
        init_jobs(&chains, Command::Run),
        vec![
            Job::Import(Chain::Near),
            Job::Import(Chain::Solana),
            Job::Calculate(chains.clone()),
            Job::Remove(chains.clone()),
        ]
    );
    assert_eq!(init_jobs(&Vec::new(), Command::Import), Vec::<Job>::new());
    assert_eq!(
        init_jobs(&Vec::new(), Command::Run),
        vec![Job::Calculate(Vec::new()), Job::Remove(Vec::new())]
    );
}

#[test]
fn every_job_is_followed_by_itself() {
    let jobs = [
        Job::Import(Chain::Near),
        Job::Calculate(vec![Chain::Near, Chain::Solana]),
        Job::Remove(vec![Chain::Near]),
    ];
    for job in jobs {
        assert_eq!(job.clone().successors(true), vec![job.clone()]);
        assert_eq!(job.clone().successors(false), vec![job]);
    }
}

#[test]
fn waits_between_jobs() {
    assert_eq!(Job::Import(Chain::Solana).delay_after(true), 1000);
    assert_eq!(Job::Import(Chain::Ethereum).delay_after(true), 30000);
    assert_eq!(Job::Import(Chain::Bitcoin).delay_after(false), 1000);
    assert_eq!(Job::Calculate(vec![Chain::Near]).delay_after(true), 5000);
    assert_eq!(Job::Calculate(vec![Chain::Near]).delay_after(false), 1000);
    assert_eq!(Job::Remove(vec![Chain::Near]).delay_after(true), 24 * 60 * 60 * 1000);
    assert_eq!(Job::Remove(vec![Chain::Near]).delay_after(false), 1000);
}

#[test]
fn removal_order_is_a_rearrangement() {
    let chains = Chain::all_chains();
    let mut moved = false;
    for _ in 0..20 {
        let order = removal_order(chains.clone());
        assert_eq!(order.len(), chains.len());
        for chain in &chains {
            assert_eq!(order.iter().filter(|other| *other == chain).count(), 1);
        }
        moved = moved || order != chains;
    }
    // Twenty shuffles of 29 chains that all leave the order alone would
    // mean that nothing is shuffled.
    assert!(moved);
    assert_eq!(removal_order(Vec::new()), Vec::<Chain>::new());
    assert_eq!(removal_order(vec![Chain::Near, Chain::Near]), vec![Chain::Near, Chain::Near]);
}

#[test]
fn rpc_url_of_a_configured_chain() {
    let config = RpcConfig {
        chains: vec![
            (Chain::Near, "https://near".to_string()),
            (Chain::Solana, "https://solana".to_string()),
            (Chain::Near, "https://other".to_string()),
        ],
    };
    assert_eq!(get_rpc_url(Chain::Near, &config), Some(&"https://near".to_string()));
    assert_eq!(get_rpc_url(Chain::Solana, &config), Some(&"https://solana".to_string()));
    assert_eq!(get_rpc_url(Chain::Ethereum, &config), None);
    assert_eq!(get_rpc_url(Chain::Near, &RpcConfig { chains: Vec::new() }), None);
}

#[test]
fn rpc_config_is_a_map_from_chain_to_address() {
    let mut config = RpcConfig::new();
    assert!(config.chains.is_empty());
    assert_eq!(get_rpc_url(Chain::Near, &config), None);
    config.insert(Chain::Near, "https://near".to_string());
    config.insert(Chain::Solana, "https://solana".to_string());
    assert_eq!(get_rpc_url(Chain::Near, &config), Some(&"https://near".to_string()));
    assert_eq!(get_rpc_url(Chain::Solana, &config), Some(&"https://solana".to_string()));
    assert_eq!(get_rpc_url(Chain::Ethereum, &config), None);
    // A second address for a chain takes the place of the first.
    config.insert(Chain::Near, "https://other".to_string());
    assert_eq!(get_rpc_url(Chain::Near, &config), Some(&"https://other".to_string()));
    assert_eq!(get_rpc_url(Chain::Solana, &config), Some(&"https://solana".to_string()));
    assert_eq!(config.chains.len(), 2);
    assert_eq!(
        config.chains.iter().filter(|(chain, _)| *chain == Chain::Near).count(),
        1
    );
    config.insert(Chain::Solana, "https://solana2".to_string());
    config.insert(Chain::Ethereum, "https://eth".to_string());
    assert_eq!(config.chains.len(), 3);
    assert_eq!(get_rpc_url(Chain::Solana, &config), Some(&"https://solana2".to_string()));
    assert_eq!(get_rpc_url(Chain::Ethereum, &config), Some(&"https://eth".to_string()));
    assert_eq!(get_rpc_url(Chain::Near, &config), Some(&"https://other".to_string()));
}
