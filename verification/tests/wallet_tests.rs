use csv_adapter::wallet::{Chain, FaucetConfig, Network, WalletAccount, WalletConfig};

#[test]
fn wallet_accounts_by_chain() {
    let mut w = WalletConfig::new();
    assert!(w.get_account(&Chain::Bitcoin).is_none());
    w.add_account(WalletAccount::new("a1", Chain::Bitcoin, "main", "bc1q").with_keystore_ref("k1"));
    w.add_account(WalletAccount::new("a2", Chain::Bitcoin, "second", "bc1r"));
    w.add_account(WalletAccount::new("a3", Chain::Sui, "sui", "0x1").with_derivation_path("m/44'/784'/0'"));
    let first = w.get_account(&Chain::Bitcoin).unwrap();
    assert_eq!(first.id, "a1");
    assert!(!first.is_watch_only());
    assert!(w.get_account(&Chain::Ethereum).is_none());
    assert_eq!(w.get_account(&Chain::Sui).unwrap().derivation_path.as_deref(), Some("m/44'/784'/0'"));
    w.get_account_mut(&Chain::Sui).unwrap().name = "renamed".to_string();
    assert_eq!(w.get_account(&Chain::Sui).unwrap().name, "renamed");
    assert!(WalletAccount::new("a4", Chain::Aptos, "n", "x").is_watch_only());
}

#[test]
fn faucets_exist_off_main_network() {
    assert!(FaucetConfig::default_for(&Chain::Bitcoin, &Network::Main).is_none());
    let f = FaucetConfig::default_for(&Chain::Ethereum, &Network::Test).unwrap();
    assert_eq!(f.url, "https://sepoliafaucet.com");
    assert_eq!(f.amount, Some(100_000_000_000_000_000));
    let f = FaucetConfig::default_for(&Chain::Solana, &Network::Dev).unwrap();
    assert_eq!(f.amount, Some(1_000_000_000));
}
