//! Wallet accounts: they reference keys held in a keystore and never hold
//! a private key themselves.

use vstd::prelude::*;
use vstd::string::StringExecFns;

verus! {

/// The chains a wallet holds accounts on.
#[derive(Clone, Copy, Debug, PartialEq, Eq, Structural)]
pub enum Chain {
    /// Bitcoin.
    Bitcoin,
    /// Ethereum.
    Ethereum,
    /// Sui.
    Sui,
    /// Aptos.
    Aptos,
    /// Solana.
    Solana,
}

/// The networks of a chain.
#[derive(Clone, Copy, Debug, PartialEq, Eq, Structural)]
pub enum Network {
    /// The main network.
    Main,
    /// The public test network.
    Test,
    /// A development network.
    Dev,
}

/// A wallet account.
#[derive(Debug, Clone)]
pub struct WalletAccount {
    /// Account identifier.
    pub id: String,
    /// The chain of the account.
    pub chain: Chain,
    /// Human-readable name.
    pub name: String,
    /// Public address.
    pub address: String,
    /// Reference to the encrypted key in the keystore.
    pub keystore_ref: Option<String>,
    /// Extended public key of an HD wallet.
    pub xpub: Option<String>,
    /// Derivation path of an HD wallet.
    pub derivation_path: Option<String>,
}

impl WalletAccount {
    /// A new account without keystore reference, extended key or
    /// derivation path.
    pub fn new(id: &str, chain: Chain, name: &str, address: &str) -> (a: WalletAccount)
        ensures
            a.id@ == id@,
            a.chain == chain,
            a.name@ == name@,
            a.address@ == address@,
            a.keystore_ref is None,
            a.xpub is None,
            a.derivation_path is None,
    {
        WalletAccount {
            id: String::from_str(id),
            chain,
            name: String::from_str(name),
            address: String::from_str(address),
            keystore_ref: None,
            xpub: None,
            derivation_path: None,
        }
    }

    /// Whether the account is watch-only: it references no key.
    pub fn is_watch_only(&self) -> (r: bool)
        ensures
            r == self.keystore_ref is None,
    {
        self.keystore_ref.is_none()
    }

    /// The account with its keystore reference set.
    pub fn with_keystore_ref(self, ref_id: &str) -> (a: WalletAccount)
        ensures
            a.keystore_ref matches Some(r) && r@ == ref_id@,
            a.id == self.id,
            a.chain == self.chain,
            a.name == self.name,
            a.address == self.address,
            a.xpub == self.xpub,
            a.derivation_path == self.derivation_path,
    {
        let mut a = self;
        a.keystore_ref = Some(String::from_str(ref_id));
        a
    }

    /// The account with its derivation path set.
    pub fn with_derivation_path(self, path: &str) -> (a: WalletAccount)
        ensures
            a.derivation_path matches Some(p) && p@ == path@,
            a.id == self.id,
            a.chain == self.chain,
            a.name == self.name,
            a.address == self.address,
            a.keystore_ref == self.keystore_ref,
            a.xpub == self.xpub,
    {
        let mut a = self;
        a.derivation_path = Some(String::from_str(path));
        a
    }
}

/// The position of the first account on `chain`, if there is one.
pub open spec fn first_on_chain(accounts: Seq<WalletAccount>, chain: Chain) -> Option<int>
    decreases accounts.len(),
{
    if accounts.len() == 0 {
        None
    } else {
        match first_on_chain(accounts.drop_last(), chain) {
            Some(i) => Some(i),
            None => if accounts.last().chain == chain {
                Some(accounts.len() - 1)
            } else {
                None
            },
        }
    }
}

proof fn lemma_first_on_chain(accounts: Seq<WalletAccount>, chain: Chain, k: int)
    requires
        0 <= k <= accounts.len(),
        forall|j: int| 0 <= j < k ==> (#[trigger] accounts[j]).chain != chain,
    ensures
        k < accounts.len() && accounts[k].chain == chain ==> first_on_chain(accounts, chain) == Some(k),
        k == accounts.len() ==> first_on_chain(accounts, chain) is None,
    decreases accounts.len(),
{
    if accounts.len() > 0 {
        let pre = accounts.drop_last();
        if k < accounts.len() {
            if k < pre.len() {
                assert forall|j: int| 0 <= j < k implies (#[trigger] pre[j]).chain != chain by {
                    assert(pre[j] == accounts[j]);
                }
                assert(pre[k] == accounts[k]);
                lemma_first_on_chain(pre, chain, k);
            } else {
                assert forall|j: int| 0 <= j < pre.len() implies (#[trigger] pre[j]).chain != chain by {
                    assert(pre[j] == accounts[j]);
                }
                lemma_first_on_chain(pre, chain, pre.len() as int);
            }
        } else {
            assert forall|j: int| 0 <= j < pre.len() implies (#[trigger] pre[j]).chain != chain by {
                assert(pre[j] == accounts[j]);
            }
            lemma_first_on_chain(pre, chain, pre.len() as int);
        }
    }
}

/// Wallet configuration: a mnemonic or individual accounts.
#[derive(Debug, Clone)]
pub struct WalletConfig {
    /// Master mnemonic phrase.
    pub mnemonic: Option<String>,
    /// Mnemonic passphrase.
    pub mnemonic_passphrase: Option<String>,
    /// The accounts, in the order they were added.
    pub accounts: Vec<WalletAccount>,
}

impl WalletConfig {
    /// An empty configuration.
    pub fn new() -> (c: WalletConfig)
        ensures
            c.mnemonic is None,
            c.mnemonic_passphrase is None,
            c.accounts@.len() == 0,
    {
        WalletConfig { mnemonic: None, mnemonic_passphrase: None, accounts: Vec::new() }
    }

    /// Adds an account after the existing ones.
    pub fn add_account(&mut self, account: WalletAccount)
        ensures
            final(self).accounts@ == old(self).accounts@.push(account),
            final(self).mnemonic == old(self).mnemonic,
            final(self).mnemonic_passphrase == old(self).mnemonic_passphrase,
    {
        self.accounts.push(account);
    }

    /// The position of the first account on `chain`.
    fn position_on_chain(&self, chain: &Chain) -> (r: Option<usize>)
        ensures
            match r {
                Some(i) => i < self.accounts@.len() && first_on_chain(self.accounts@, *chain) == Some(
                    i as int,
                ),
                None => first_on_chain(self.accounts@, *chain) is None,
            },
    {
        let mut i: usize = 0;
        while i < self.accounts.len()
            invariant
                i <= self.accounts@.len(),
                forall|j: int| 0 <= j < i ==> (#[trigger] self.accounts@[j]).chain != *chain,
            decreases self.accounts@.len() - i,
        {
            if self.accounts[i].chain == *chain {
                proof {
                    lemma_first_on_chain(self.accounts@, *chain, i as int);
                }
                return Some(i);
            }
            i = i + 1;
        }
        proof {
            lemma_first_on_chain(self.accounts@, *chain, i as int);
        }
        None
    }

    /// The first account on `chain`.
    pub fn get_account(&self, chain: &Chain) -> (r: Option<&WalletAccount>)
        ensures
            match first_on_chain(self.accounts@, *chain) {
                Some(i) => r == Some(&self.accounts@[i]),
                None => r is None,
            },
    {
        match self.position_on_chain(chain) {
            Some(i) => Some(&self.accounts[i]),
            None => None,
        }
    }

    /// The first account on `chain`, to change in place.
    pub fn get_account_mut(&mut self, chain: &Chain) -> (r: Option<&mut WalletAccount>)
        ensures
            match first_on_chain(old(self).accounts@, *chain) {
                Some(i) => r is Some && *r.unwrap() == old(self).accounts@[i]
                    && final(self).accounts@ == old(self).accounts@.update(i, *final(r.unwrap()))
                    && final(self).mnemonic == old(self).mnemonic
                    && final(self).mnemonic_passphrase == old(self).mnemonic_passphrase,
                None => r is None && *final(self) == *old(self),
            },
    {
        match self.position_on_chain(chain) {
            Some(i) => Some(&mut self.accounts[i]),
            None => None,
        }
    }
}

/// Faucet configuration for testnet funding.
#[derive(Debug, Clone)]
pub struct FaucetConfig {
    /// Faucet endpoint URL.
    pub url: String,
    /// Amount to request, in the chain's units.
    pub amount: Option<u64>,
}

/// The default faucet of a chain outside its main network, as its URL and
/// amount.
pub open spec fn default_faucet(chain: Chain) -> (Seq<char>, u64) {
    match chain {
        Chain::Bitcoin => ("https://signet.bc-2.jp"@, 100_000),
        Chain::Ethereum => ("https://sepoliafaucet.com"@, 100_000_000_000_000_000),
        Chain::Sui => ("https://faucet.testnet.sui.io/v1/gas"@, 10_000_000_000),
        Chain::Aptos => ("https://faucet.testnet.aptoslabs.com"@, 100_000_000),
        Chain::Solana => ("https://faucet.devnet.solana.com"@, 1_000_000_000),
    }
}

impl FaucetConfig {
    /// The default faucet for a chain and network; the main networks have
    /// none.
    pub fn default_for(chain: &Chain, network: &Network) -> (r: Option<FaucetConfig>)
        ensures
            *network is Main ==> r is None,
            !(*network is Main) ==> (r matches Some(f) && f.url@ == default_faucet(*chain).0
                && f.amount == Some(default_faucet(*chain).1)),
    {
        match network {
            Network::Main => None,
            _ => {
                let (url, amount): (&str, u64) = match chain {
                    Chain::Bitcoin => ("https://signet.bc-2.jp", 100_000),
                    Chain::Ethereum => ("https://sepoliafaucet.com", 100_000_000_000_000_000),
                    Chain::Sui => ("https://faucet.testnet.sui.io/v1/gas", 10_000_000_000),
                    Chain::Aptos => ("https://faucet.testnet.aptoslabs.com", 100_000_000),
                    Chain::Solana => ("https://faucet.devnet.solana.com", 1_000_000_000),
                };
                Some(FaucetConfig { url: String::from_str(url), amount: Some(amount) })
            },
        }
    }
}

/// Gas payment account of a chain.
#[derive(Debug, Clone)]
pub struct GasAccount {
    /// The chain.
    pub chain: Chain,
    /// The paying address.
    pub address: String,
}

} // verus!
