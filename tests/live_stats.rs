use shadow_harvester::pool::WalletStatus;
use shadow_harvester::stats::{LiveStats, WalletStats};

fn live() -> LiveStats {
    LiveStats {
        wallets: vec![
            WalletStats { name: "Wallet 1".to_string(), address: "addr1".to_string(), solved_count: 2, reward_micro: 1_500_000 },
            WalletStats { name: "Wallet 2".to_string(), address: "addr2".to_string(), solved_count: 0, reward_micro: 0 },
        ],
        statuses: vec![WalletStatus::Mining, WalletStatus::Waiting],
        challenge_id: "D05C03".to_string(),
        deadline: "2025-11-05T23:59:59Z".to_string(),
        day: 2,
        next_challenge: None,
        network_solutions: 0,
        reward_per_solution: None,
    }
}

#[test]
fn wallet_refresh_touches_one_entry() {
    let mut l = live();
    l.refresh_wallet(1, 4, 2_000_000);
    assert_eq!(l.wallets[1].solved_count, 4);
    assert_eq!(l.wallets[1].reward_micro, 2_000_000);
    assert_eq!(l.wallets[1].name, "Wallet 2");
    assert_eq!(l.wallets[0].solved_count, 2);
    l.refresh_wallet(7, 9, 9);
    assert_eq!(l.wallets.len(), 2);
    assert_eq!(l.total_reward(), 3_500_000);
}

#[test]
fn network_refresh_keeps_last_reward_without_rate() {
    let mut l = live();
    l.refresh_network(8, &vec![100, 4_000_000]);
    assert_eq!(l.network_solutions, 8);
    assert_eq!(l.reward_per_solution, Some(500_000));
    l.refresh_network(0, &vec![100, 4_000_000]);
    assert_eq!(l.network_solutions, 0);
    assert_eq!(l.reward_per_solution, Some(500_000));
    l.refresh_network(5, &vec![100]);
    assert_eq!(l.reward_per_solution, Some(500_000));
}
