//! Users' smart-contract wallets: finding a free counterfactual address
//! for a new user, and listing a wallet's transactions.

use vstd::prelude::*;
use crate::eth::{Address, address_from_str};
use crate::models::transaction::{Transaction, UserTransaction, is_listed_form};
use crate::models::user::User;
use crate::provider::helpers::{default_hash_of, get_hash};
use crate::text::{decimal_of, str_eq, u128_to_string};

verus! {

/// Users' wallets.
pub struct WalletService;

/// A user's wallet: its address, the salt it was derived with, and
/// whether an account is already deployed there.
pub struct Wallet {
    pub address: Address,
    pub salt: u64,
    pub deployed: bool,
}

/// What a search for a wallet address waits for next.
#[derive(Clone, Copy, Debug, PartialEq, Eq)]
pub enum SearchStep {
    /// The factory's address for the owner and `salt`.
    ComputeAddress,
    /// Whether a contract is deployed at `address`.
    CheckCode,
    /// The deployer identifier that the account at `address` reports.
    AskDeployer,
    /// The clock, in nanoseconds since the Unix epoch.
    ReadClock,
    /// Nothing: the wallet is found.
    Done,
}

/// What the outside work of a search step brought back.
pub enum SearchEvent {
    AddressComputed(Address),
    CodeChecked(bool),
    DeployerIs(String),
    ClockRead(u128),
}

/// A search for a user's wallet address: salts are hashes of the user id
/// followed by a suffix, empty at first and the clock's reading after a
/// taken address.
pub struct AddressSearch {
    pub step: SearchStep,
    pub external_user_id: String,
    pub suffix: String,
    pub salt: u64,
    pub address: Address,
    pub deployed: bool,
}

/// Whether `event` is what `step` waits for.
pub open spec fn search_event_fits(step: SearchStep, event: SearchEvent) -> bool {
    match step {
        SearchStep::ComputeAddress => event is AddressComputed,
        SearchStep::CheckCode => event is CodeChecked,
        SearchStep::AskDeployer => event is DeployerIs,
        SearchStep::ReadClock => event is ClockRead,
        SearchStep::Done => false,
    }
}

/// How one step changes a search, by the event it got, where
/// `identifier` is the deployer identifier of this service's accounts.
pub open spec fn search_next(a: AddressSearch, event: SearchEvent, identifier: Seq<char>, b: AddressSearch) -> bool {
    &&& b.external_user_id == a.external_user_id
    &&& match event {
        SearchEvent::AddressComputed(addr) => b.step == SearchStep::CheckCode && b.address == addr
            && b.salt == a.salt && b.suffix == a.suffix,
        SearchEvent::CodeChecked(exists) => if exists {
            b.step == SearchStep::AskDeployer && b.address == a.address && b.salt == a.salt
                && b.suffix == a.suffix
        } else {
            b.step == SearchStep::Done && !b.deployed && b.address == a.address && b.salt == a.salt
        },
        SearchEvent::DeployerIs(d) => if d@ == identifier {
            b.step == SearchStep::Done && b.deployed && b.address == a.address && b.salt == a.salt
        } else {
            b.step == SearchStep::ReadClock && b.address == a.address && b.salt == a.salt
                && b.suffix == a.suffix
        },
        SearchEvent::ClockRead(nanos) => b.step == SearchStep::ComputeAddress && b.suffix@
            == decimal_of(nanos as nat) && b.salt == default_hash_of(
            a.external_user_id@ + decimal_of(nanos as nat),
        ),
    }
}

impl AddressSearch {
    /// The salt always belongs to the current suffix.
    pub open spec fn inv(&self) -> bool {
        self.salt == default_hash_of(self.external_user_id@ + self.suffix@)
    }

    /// Starts a search for the user with id `external_user_id`: the first
    /// salt is the hash of the id itself.
    pub fn start(external_user_id: &str) -> (res: AddressSearch)
        ensures
            res.inv(),
            res.step == SearchStep::ComputeAddress,
            res.external_user_id@ == external_user_id@,
            res.suffix@ == Seq::<char>::empty(),
            res.salt == default_hash_of(external_user_id@),
    {
        let id = String::from_str(external_user_id);
        let user = id.clone().concat("");
        proof {
            reveal_strlit("");
            assert(user@ =~= external_user_id@);
        }
        let salt = get_hash(user);
        let res = AddressSearch {
            step: SearchStep::ComputeAddress,
            external_user_id: id,
            suffix: String::new(),
            salt,
            address: Address { bytes: [0u8; 20] },
            deployed: false,
        };
        proof {
            assert(res.external_user_id@ + res.suffix@ =~= external_user_id@);
        }
        res
    }

    /// Takes in what the awaited outside work brought back and moves on:
    /// a free address ends the search with nothing deployed; an address
    /// whose account this service deployed ends it with the account
    /// deployed; any other taken address makes a new suffix from the
    /// clock and a new salt.
    pub fn step(&mut self, event: SearchEvent, identifier: &str)
        requires
            old(self).inv(),
            search_event_fits(old(self).step, event),
        ensures
            final(self).inv(),
            search_next(*old(self), event, identifier@, *final(self)),
    {
        match event {
            SearchEvent::AddressComputed(addr) => {
                self.address = addr;
                self.step = SearchStep::CheckCode;
            },
            SearchEvent::CodeChecked(exists) => {
                if exists {
                    self.step = SearchStep::AskDeployer;
                } else {
                    self.deployed = false;
                    self.step = SearchStep::Done;
                }
            },
            SearchEvent::DeployerIs(d) => {
                if str_eq(d.as_str(), identifier) {
                    self.deployed = true;
                    self.step = SearchStep::Done;
                } else {
                    self.step = SearchStep::ReadClock;
                }
            },
            SearchEvent::ClockRead(nanos) => {
                let suffix = u128_to_string(nanos);
                let user = self.external_user_id.clone().concat(suffix.as_str());
                self.salt = get_hash(user);
                self.suffix = suffix;
                self.step = SearchStep::ComputeAddress;
            },
        }
    }

    /// The wallet found.
    pub fn result(&self) -> (res: Wallet)
        requires
            self.step == SearchStep::Done,
        ensures
            res.address == self.address,
            res.salt == self.salt,
            res.deployed == self.deployed,
    {
        Wallet { address: self.address, salt: self.salt, deployed: self.deployed }
    }
}

impl WalletService {
    /// The wallet a user already has, or none where one must be found:
    /// an existing wallet keeps its address and deployment, with salt 0.
    pub fn existing_wallet(user: &User) -> (res: Option<Wallet>)
        requires
            user.wallet_address@.len() > 0 ==> address_from_str(user.wallet_address@) is Some,
        ensures
            match res {
                None => user.wallet_address@.len() == 0,
                Some(w) => user.wallet_address@.len() > 0 && address_from_str(user.wallet_address@)
                    == Some(w.address.bytes@) && w.salt == 0 && w.deployed == user.deployed,
            },
    {
        if user.wallet_address.as_str().unicode_len() == 0 {
            return None;
        }
        Some(Wallet {
            address: Address::parse(user.wallet_address.as_str()).unwrap(),
            salt: 0,
            deployed: user.deployed,
        })
    }

    /// Whether the account at an address was deployed by this service:
    /// its deployer identifier is this service's.
    pub fn is_deployed_by_us(account_deployed_by: &str, identifier: &str) -> (res: bool)
        ensures
            res == (account_deployed_by@ == identifier@),
    {
        str_eq(account_deployed_by, identifier)
    }

    /// The row a listing starts below: the given id, else the largest.
    pub fn listing_start(id: Option<i32>) -> (res: i32)
        ensures
            res == match id {
                Some(i) => i,
                None => i32::MAX,
            },
    {
        match id {
            Some(i) => i,
            None => i32::MAX,
        }
    }

    /// The listed forms of stored transactions, in order.
    pub fn list_transactions(rows: Vec<UserTransaction>, explorer_base: &str) -> (res: Vec<Transaction>)
        ensures
            res@.len() == rows@.len(),
            forall|i: int| 0 <= i < rows@.len() ==> is_listed_form(#[trigger] res@[i], rows@[i], explorer_base@),
    {
        let mut res: Vec<Transaction> = Vec::new();
        let ghost all = rows@;
        for row in it: rows
            invariant
                res@.len() == it.index@,
                it.seq() == all,
                forall|j: int| 0 <= j < res@.len() ==> is_listed_form(#[trigger] res@[j], all[j], explorer_base@),
        {
            res.push(Transaction::from(row, explorer_base));
        }
        res
    }
}

} // verus!
