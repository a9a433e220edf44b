//! The deployment's settings: environment, server, chains, default gas
//! limits and administrators.

use vstd::prelude::*;
use crate::eth::Address;
use crate::keyed_map::KeyedMap;
use crate::text::{parse_u16, parse_u16_of};

verus! {

/// The environment the service runs in.
#[derive(Clone, Copy, Debug, PartialEq, Eq)]
pub enum ENV {
    Development,
    Staging,
    Production,
}

impl ENV {
    /// The lower-case name of the environment.
    pub open spec fn name(self) -> Seq<char> {
        match self {
            ENV::Development => "development"@,
            ENV::Staging => "staging"@,
            ENV::Production => "production"@,
        }
    }

    /// The lower-case name of the environment, as it is printed.
    pub fn to_string(&self) -> (res: String)
        ensures
            res@ == self.name(),
    {
        match self {
            ENV::Development => String::from_str("development"),
            ENV::Staging => String::from_str("staging"),
            ENV::Production => String::from_str("production"),
        }
    }
}

/// Settings of this deployment's account and identifiers.
pub struct RunConfig {
    pub current_chain: String,
    pub default_currency: String,
    pub account_owner: Address,
    pub paymaster_account_owner: Address,
    pub deployed_by_identifier: String,
    pub transaction_id_prefix: String,
}

/// Logging settings.
pub struct Log {
    pub level: String,
}

/// Where the server listens.
pub struct Server {
    pub port: u16,
    pub host: String,
    pub prefix: String,
}

impl Server {
    /// The port to listen on: the `PORT` variable's value where it is
    /// set (`port_var`), else the configured port.
    pub fn get_port(&self, port_var: Option<&str>) -> (res: u16)
        requires
            port_var matches Some(p) ==> parse_u16_of(p@) is Some,
        ensures
            res == match port_var {
                Some(p) => parse_u16_of(p@).unwrap(),
                None => self.port,
            },
    {
        match port_var {
            Some(p) => match parse_u16(p) {
                Some(n) => n,
                None => self.port,
            },
            None => self.port,
        }
    }
}

/// One chain the service works with.
pub struct Chain {
    pub chain_id: u64,
    pub url: String,
    pub explorer_url: String,
    pub bundler_url: String,
    pub simple_account_factory_address: Address,
    pub usdc_address: Address,
    pub currency: String,
    pub entrypoint_address: Address,
    pub verifying_paymaster_address: Address,
}

impl Chain {
    /// The node URL with the provider's API key appended.
    pub fn get_url(&self, api_key: &str) -> (res: String)
        ensures
            res@ == self.url@ + api_key@,
    {
        self.url.clone().concat(api_key)
    }
}

/// Gas limits and fees a new user operation starts with.
pub struct DefaultGas {
    pub call_gas_limit: u64,
    pub verification_gas_limit: u64,
    pub pre_verification_gas: u64,
    pub max_fee_per_gas: u64,
    pub max_priority_fee_per_gas: u64,
}

/// All settings of the deployment.
pub struct Settings {
    pub run_config: RunConfig,
    pub log: Log,
    pub server: Server,
    pub chains: KeyedMap<Chain>,
    pub default_gas: DefaultGas,
    pub admins: Vec<String>,
    pub env: ENV,
}

/// The pieces of `s` between the occurrences of `sep`, in order (one
/// piece, `s` itself, where `sep` does not occur): what `str::split`
/// gives.
pub open spec fn split_on(s: Seq<char>, sep: char) -> Seq<Seq<char>>
    decreases s.len(),
{
    if s.len() == 0 {
        seq![Seq::<char>::empty()]
    } else if s.last() == sep {
        split_on(s.drop_last(), sep).push(Seq::<char>::empty())
    } else {
        let r = split_on(s.drop_last(), sep);
        r.update(r.len() - 1, r.last().push(s.last()))
    }
}

/// The views of some strings.
pub open spec fn string_views(v: Seq<String>) -> Seq<Seq<char>> {
    v.map_values(|x: String| x@)
}

impl Settings {
    /// The administrators named in the `ADMIN` setting: its pieces
    /// between commas.
    pub fn admins_of(value: &str) -> (res: Vec<String>)
        ensures
            string_views(res@) == split_on(value@, ','),
    {
        let n = value.unicode_len();
        let mut res: Vec<String> = Vec::new();
        let mut start: usize = 0;
        let mut i: usize = 0;
        proof {
            assert(value@.take(0) =~= Seq::<char>::empty());
            assert(string_views(res@) =~= Seq::<Seq<char>>::empty());
            assert(value@.subrange(0, 0) =~= Seq::<char>::empty());
            assert(string_views(res@).push(value@.subrange(0, 0)) =~= seq![Seq::<char>::empty()]);
        }
        while i < n
            invariant
                n == value@.len(),
                start <= i <= n,
                split_on(value@.take(i as int), ',') == string_views(res@).push(
                    value@.subrange(start as int, i as int),
                ),
            decreases n - i,
        {
            let c = value.get_char(i);
            proof {
                let t = value@.take(i + 1);
                assert(t.drop_last() =~= value@.take(i as int));
                assert(t.last() == c);
            }
            if c == ',' {
                let piece = String::from_str(value.substring_char(start, i));
                let ghost before = res@;
                res.push(piece);
                proof {
                    assert(string_views(res@) =~= string_views(before).push(
                        value@.subrange(start as int, i as int),
                    ));
                    assert(value@.subrange(i + 1, i + 1) =~= Seq::<char>::empty());
                }
                start = i + 1;
            } else {
                proof {
                    let r = string_views(res@).push(value@.subrange(start as int, i as int));
                    assert(value@.subrange(start as int, i + 1) =~= value@.subrange(
                        start as int,
                        i as int,
                    ).push(c));
                    assert(r.update(r.len() - 1, r.last().push(c)) =~= string_views(res@).push(
                        value@.subrange(start as int, i + 1),
                    ));
                }
            }
            i = i + 1;
        }
        let last = String::from_str(value.substring_char(start, n));
        let ghost before = res@;
        res.push(last);
        proof {
            assert(value@.take(n as int) =~= value@);
            assert(string_views(res@) =~= string_views(before).push(value@.subrange(start as int, n as int)));
        }
        res
    }

    /// The settings of the current chain.
    pub fn get_chain(&self) -> (res: &Chain)
        requires
            self.chains.wf(),
            self.chains@.contains_key(self.run_config.current_chain@),
        ensures
            *res == self.chains@[self.run_config.current_chain@],
    {
        match self.chains.get(self.run_config.current_chain.as_str()) {
            Some(c) => c,
            None => {
                proof {
                    assert(false);
                }
                self.chains.get(self.run_config.current_chain.as_str()).unwrap()
            },
        }
    }

    /// The administrators' user ids.
    pub fn get_admins(&self) -> (res: &Vec<String>)
        ensures
            res == self.admins,
    {
        &self.admins
    }
}

} // verus!
