//! Administrative requests, and the token metadata responses built from
//! stored token rows.

use vstd::prelude::*;
use crate::keyed_map::KeyedMap;
use crate::models::metadata::Metadata;
use crate::models::token_metadata::TokenMetadata;
use crate::text::{lowercase_of, trim_of, trimmed, trimmed_lowercase};

verus! {

/// A request to register a token of a chain.
pub struct AddMetadataRequest {
    pub chain: Chain,
    pub token: Token,
}

/// The chain part of an `AddMetadataRequest`.
pub struct Chain {
    pub name: String,
    pub id: i32,
    pub display_name: String,
}

/// The token part of an `AddMetadataRequest`.
pub struct Token {
    pub symbol: String,
    pub image_url: String,
    pub contract_address: String,
    pub token_type: String,
    pub display_name: String,
    pub exponent: i32,
}

impl AddMetadataRequest {
    /// The chain name, trimmed.
    pub fn get_chain_name(&self) -> (res: String)
        ensures
            res@ == trim_of(self.chain.name@),
    {
        trimmed(self.chain.name.as_str())
    }

    /// The token symbol, trimmed.
    pub fn get_symbol(&self) -> (res: String)
        ensures
            res@ == trim_of(self.token.symbol@),
    {
        trimmed(self.token.symbol.as_str())
    }

    /// The contract address, trimmed and lower-cased.
    pub fn get_contract_address(&self) -> (res: String)
        ensures
            res@ == lowercase_of(trim_of(self.token.contract_address@)),
    {
        trimmed_lowercase(self.token.contract_address.as_str())
    }

    /// The token's decimal exponent.
    pub fn get_exponent(&self) -> (res: i32)
        ensures
            res == self.token.exponent,
    {
        self.token.exponent
    }

    /// The token type, trimmed and lower-cased.
    pub fn get_token_type(&self) -> (res: String)
        ensures
            res@ == lowercase_of(trim_of(self.token.token_type@)),
    {
        trimmed_lowercase(self.token.token_type.as_str())
    }

    /// The token's display name, trimmed.
    pub fn get_token_name(&self) -> (res: String)
        ensures
            res@ == trim_of(self.token.display_name@),
    {
        trimmed(self.token.display_name.as_str())
    }

    /// The chain id.
    pub fn get_chain_id(&self) -> (res: i32)
        ensures
            res == self.chain.id,
    {
        self.chain.id
    }

    /// The chain's display name, trimmed.
    pub fn get_chain_display_name(&self) -> (res: String)
        ensures
            res@ == trim_of(self.chain.display_name@),
    {
        trimmed(self.chain.display_name.as_str())
    }

    /// The token image URL, trimmed.
    pub fn get_token_image_url(&self) -> (res: String)
        ensures
            res@ == trim_of(self.token.image_url@),
    {
        trimmed(self.token.image_url.as_str())
    }
}

/// A request to top up a paymaster's deposit.
pub struct PaymasterTopup {
    pub value: String,
    pub metadata: Metadata,
}

/// Name and exponent of one token, in a `MetadataResponse`.
pub struct TokenMetadataResponse {
    pub name: String,
    pub exponent: i32,
}

/// The tokens of one chain, by symbol.
pub struct MetadataResponse {
    pub currency: String,
    pub chain: String,
    pub chain_id: u64,
    pub exponents: KeyedMap<i32>,
    pub tokens: KeyedMap<TokenMetadataResponse>,
}

/// The exponents of `items` by symbol; a later row wins.
pub open spec fn exponent_map(items: Seq<TokenMetadata>) -> Map<Seq<char>, i32>
    decreases items.len(),
{
    if items.len() == 0 {
        Map::empty()
    } else {
        exponent_map(items.drop_last()).insert(items.last().symbol@, items.last().exponent)
    }
}

/// The names and exponents of `items` by symbol; a later row wins.
pub open spec fn token_response_map(items: Seq<TokenMetadata>) -> Map<Seq<char>, (Seq<char>, i32)>
    decreases items.len(),
{
    if items.len() == 0 {
        Map::empty()
    } else {
        token_response_map(items.drop_last()).insert(
            items.last().symbol@,
            (items.last().name@, items.last().exponent),
        )
    }
}

/// Row `i` is the last row with its symbol.
pub open spec fn is_last_of_symbol(items: Seq<TokenMetadata>, i: int) -> bool {
    &&& 0 <= i < items.len()
    &&& forall|j: int| i < j < items.len() ==> #[trigger] items[j].symbol@ != items[i].symbol@
}

/// Row `i` is the last row with its chain and symbol.
pub open spec fn is_last_of_chain_symbol(items: Seq<TokenMetadata>, i: int) -> bool {
    &&& 0 <= i < items.len()
    &&& forall|j: int|
        i < j < items.len() ==> !(#[trigger] items[j].chain@ == items[i].chain@ && items[j].symbol@
            == items[i].symbol@)
}

/// Row `i` is the first row with its chain.
pub open spec fn is_first_of_chain(items: Seq<TokenMetadata>, i: int) -> bool {
    &&& 0 <= i < items.len()
    &&& forall|j: int| 0 <= j < i ==> #[trigger] items[j].chain@ != items[i].chain@
}

/// The names and exponents that a map of `TokenMetadataResponse` holds.
pub open spec fn token_response_view(m: Map<Seq<char>, TokenMetadataResponse>) -> Map<
    Seq<char>,
    (Seq<char>, i32),
> {
    m.map_values(|t: TokenMetadataResponse| (t.name@, t.exponent))
}

impl MetadataResponse {
    /// The maps are well formed.
    pub open spec fn wf(&self) -> bool {
        self.exponents.wf() && self.tokens.wf()
    }

    /// An empty response.
    pub fn new() -> (res: MetadataResponse)
        ensures
            res.wf(),
            res.currency@ == Seq::<char>::empty(),
            res.chain@ == Seq::<char>::empty(),
            res.chain_id == 0,
            res.exponents@ == Map::<Seq<char>, i32>::empty(),
            res.tokens@ == Map::<Seq<char>, TokenMetadataResponse>::empty(),
    {
        MetadataResponse {
            currency: String::new(),
            chain: String::new(),
            chain_id: 0,
            exponents: KeyedMap::new(),
            tokens: KeyedMap::new(),
        }
    }

    /// Fills the response for `chain` from its token rows: each symbol
    /// maps to its exponent, and to its name and exponent; where a symbol
    /// occurs twice, the later row wins.
    pub fn to(self, token_metadata: Vec<TokenMetadata>, chain: String, chain_id: u64, currency: String) -> (res: MetadataResponse)
        ensures
            res.wf(),
            res.chain == chain,
            res.chain_id == chain_id,
            res.currency == currency,
            res.exponents@ == exponent_map(token_metadata@),
            token_response_view(res.tokens@) == token_response_map(token_metadata@),
            forall|i: int| #[trigger]
                is_last_of_symbol(token_metadata@, i) ==> {
                    &&& res.exponents@.contains_key(token_metadata@[i].symbol@)
                    &&& res.exponents@[token_metadata@[i].symbol@] == token_metadata@[i].exponent
                    &&& token_response_view(res.tokens@).contains_key(token_metadata@[i].symbol@)
                    &&& token_response_view(res.tokens@)[token_metadata@[i].symbol@] == (
                        token_metadata@[i].name@,
                        token_metadata@[i].exponent,
                    )
                },
            forall|s: Seq<char>|
                #[trigger] res.exponents@.contains_key(s) <==> exists|j: int|
                    0 <= j < token_metadata@.len() && #[trigger] token_metadata@[j].symbol@ == s,
            forall|s: Seq<char>|
                #[trigger] token_response_view(res.tokens@).contains_key(s) <==> exists|j: int|
                    0 <= j < token_metadata@.len() && #[trigger] token_metadata@[j].symbol@ == s,
    {
        let mut exponents: KeyedMap<i32> = KeyedMap::new();
        let mut metadata: KeyedMap<TokenMetadataResponse> = KeyedMap::new();
        let n = token_metadata.len();
        let mut i: usize = 0;
        while i < n
            invariant
                n == token_metadata@.len(),
                i <= n,
                exponents.wf(),
                metadata.wf(),
                exponents@ == exponent_map(token_metadata@.take(i as int)),
                token_response_view(metadata@) == token_response_map(token_metadata@.take(i as int)),
            decreases n - i,
        {
            let item = &token_metadata[i];
            proof {
                assert(token_metadata@.take(i + 1).drop_last() =~= token_metadata@.take(i as int));
            }
            exponents.insert(item.symbol.clone(), item.exponent);
            let ghost before = metadata@;
            metadata.insert(
                item.symbol.clone(),
                TokenMetadataResponse { name: item.name.clone(), exponent: item.exponent },
            );
            proof {
                assert(token_response_view(metadata@) =~= token_response_view(before).insert(
                    item.symbol@,
                    (item.name@, item.exponent),
                ));
            }
            i = i + 1;
        }
        proof {
            assert(token_metadata@.take(n as int) =~= token_metadata@);
            assert forall|i: int| #[trigger] is_last_of_symbol(token_metadata@, i) implies {
                &&& exponent_map(token_metadata@).contains_key(token_metadata@[i].symbol@)
                &&& exponent_map(token_metadata@)[token_metadata@[i].symbol@] == token_metadata@[i].exponent
                &&& token_response_map(token_metadata@).contains_key(token_metadata@[i].symbol@)
                &&& token_response_map(token_metadata@)[token_metadata@[i].symbol@] == (
                    token_metadata@[i].name@,
                    token_metadata@[i].exponent,
                )
            } by {
                lemma_exponent_last_row_wins(token_metadata@, i);
                lemma_token_last_row_wins(token_metadata@, i);
            }
            assert forall|s: Seq<char>|
                #[trigger] exponent_map(token_metadata@).contains_key(s) <==> exists|j: int|
                    0 <= j < token_metadata@.len() && #[trigger] token_metadata@[j].symbol@ == s by {
                lemma_exponent_symbols(token_metadata@, s);
            }
            assert forall|s: Seq<char>|
                #[trigger] token_response_map(token_metadata@).contains_key(s) <==> exists|j: int|
                    0 <= j < token_metadata@.len() && #[trigger] token_metadata@[j].symbol@ == s by {
                lemma_token_symbols(token_metadata@, s);
            }
        }
        MetadataResponse { currency, chain, chain_id, exponents, tokens: metadata }
    }
}

/// One token of a chain, in a `MetadataResponseV2`.
pub struct TokenDetail {
    pub image_url: String,
    pub display_name: String,
    pub exponent: i32,
}

/// One chain and its tokens by symbol, in a `MetadataResponseV2`.
pub struct ChainDetail {
    pub chain_id: i32,
    pub tokens: KeyedMap<TokenDetail>,
    pub display_name: String,
}

/// The default chain and currency of the deployment.
pub struct DefaultData {
    pub chain: String,
    pub currency: String,
}

/// All chains and their tokens, with the defaults.
pub struct MetadataResponseV2 {
    pub defaults: DefaultData,
    pub chains: KeyedMap<ChainDetail>,
}

/// What a `TokenDetail` says: image URL, display name, exponent.
pub open spec fn token_detail_view(t: TokenDetail) -> (Seq<char>, Seq<char>, i32) {
    (t.image_url@, t.display_name@, t.exponent)
}

/// What a `ChainDetail` says: chain id, tokens, display name.
pub open spec fn chain_detail_view(c: ChainDetail) -> (i32, Map<Seq<char>, (Seq<char>, Seq<char>, i32)>, Seq<char>) {
    (c.chain_id, c.tokens@.map_values(|t: TokenDetail| token_detail_view(t)), c.display_name@)
}

/// The detail that a row gives its token.
pub open spec fn token_detail_of(t: TokenMetadata) -> (Seq<char>, Seq<char>, i32) {
    (
        match t.token_image_url {
            Some(u) => u@,
            None => Seq::<char>::empty(),
        },
        t.name@,
        t.exponent,
    )
}

/// The chains of `items` by chain key: a chain's id and display name
/// come from its first row (id 0 and the chain key where the row has
/// none), and its tokens are its rows' details by symbol, a later row
/// winning.
pub open spec fn chain_map(items: Seq<TokenMetadata>) -> Map<Seq<char>, (i32, Map<Seq<char>, (Seq<char>, Seq<char>, i32)>, Seq<char>)>
    decreases items.len(),
{
    if items.len() == 0 {
        Map::empty()
    } else {
        let m = chain_map(items.drop_last());
        let t = items.last();
        let c = t.chain@;
        let base = if m.contains_key(c) {
            m[c]
        } else {
            (
                match t.chain_id {
                    Some(id) => id,
                    None => 0i32,
                },
                Map::empty(),
                match t.chain_name {
                    Some(n) => n@,
                    None => c,
                },
            )
        };
        m.insert(c, (base.0, base.1.insert(t.symbol@, token_detail_of(t)), base.2))
    }
}

/// The chains that a map of `ChainDetail` holds.
pub open spec fn chains_view(m: Map<Seq<char>, ChainDetail>) -> Map<Seq<char>, (i32, Map<Seq<char>, (Seq<char>, Seq<char>, i32)>, Seq<char>)> {
    m.map_values(|c: ChainDetail| chain_detail_view(c))
}

impl MetadataResponseV2 {
    /// Groups token rows by chain. Each chain keeps the id and display
    /// name of its first row; its tokens map each symbol to image URL
    /// (empty where none), display name and exponent, a later row
    /// winning. The defaults are the current chain and currency.
    pub fn from_token_metadata(tokens: Vec<TokenMetadata>, current_chain: String, default_currency: String) -> (res: Self)
        ensures
            res.chains.wf(),
            forall|k: Seq<char>| #[trigger] res.chains@.contains_key(k) ==> res.chains@[k].tokens.wf(),
            chains_view(res.chains@) == chain_map(tokens@),
            res.defaults.chain == current_chain,
            res.defaults.currency == default_currency,
            forall|c: Seq<char>|
                #[trigger] chains_view(res.chains@).contains_key(c) <==> exists|j: int|
                    0 <= j < tokens@.len() && #[trigger] tokens@[j].chain@ == c,
            forall|c: Seq<char>, s: Seq<char>|
                #[trigger] chains_view(res.chains@).contains_key(c) ==> (#[trigger] chains_view(
                    res.chains@,
                )[c].1.contains_key(s) <==> exists|j: int|
                    0 <= j < tokens@.len() && #[trigger] tokens@[j].chain@ == c && tokens@[j].symbol@ == s),
            forall|i: int| #[trigger]
                is_last_of_chain_symbol(tokens@, i) ==> {
                    &&& chains_view(res.chains@).contains_key(tokens@[i].chain@)
                    &&& chains_view(res.chains@)[tokens@[i].chain@].1.contains_key(tokens@[i].symbol@)
                    &&& chains_view(res.chains@)[tokens@[i].chain@].1[tokens@[i].symbol@]
                        == token_detail_of(tokens@[i])
                },
            forall|i: int| #[trigger]
                is_first_of_chain(tokens@, i) ==> {
                    &&& chains_view(res.chains@).contains_key(tokens@[i].chain@)
                    &&& chains_view(res.chains@)[tokens@[i].chain@].0 == (match tokens@[i].chain_id {
                        Some(id) => id,
                        None => 0i32,
                    })
                    &&& chains_view(res.chains@)[tokens@[i].chain@].2 == (match tokens@[i].chain_name {
                        Some(n) => n@,
                        None => tokens@[i].chain@,
                    })
                },
    {
        let mut chains: KeyedMap<ChainDetail> = KeyedMap::new();
        let n = tokens.len();
        let mut i: usize = 0;
        while i < n
            invariant
                n == tokens@.len(),
                i <= n,
                chains.wf(),
                forall|k: Seq<char>| #[trigger] chains@.contains_key(k) ==> chains@[k].tokens.wf(),
                chains_view(chains@) == chain_map(tokens@.take(i as int)),
            decreases n - i,
        {
            let token = &tokens[i];
            proof {
                assert(tokens@.take(i + 1).drop_last() =~= tokens@.take(i as int));
            }
            let ghost before = chains@;
            let token_detail = TokenDetail {
                image_url: match &token.token_image_url {
                    Some(u) => u.clone(),
                    None => String::new(),
                },
                display_name: token.name.clone(),
                exponent: token.exponent,
            };
            let taken = chains.remove(token.chain.as_str());
            let mut detail = match taken {
                Some(d) => d,
                None => ChainDetail {
                    chain_id: match token.chain_id {
                        Some(id) => id,
                        None => 0,
                    },
                    tokens: KeyedMap::new(),
                    display_name: match &token.chain_name {
                        Some(name) => name.clone(),
                        None => token.chain.clone(),
                    },
                },
            };
            let ghost before_tokens = detail.tokens@;
            detail.tokens.insert(token.symbol.clone(), token_detail);
            proof {
                assert(detail.tokens@.map_values(|t: TokenDetail| token_detail_view(t)) =~= before_tokens.map_values(
                    |t: TokenDetail| token_detail_view(t),
                ).insert(token.symbol@, token_detail_of(*token)));
            }
            let ghost new_view = chain_detail_view(detail);
            proof {
                let m = chain_map(tokens@.take(i as int));
                let c = token.chain@;
                assert(m == chains_view(before));
                assert(m.contains_key(c) == before.contains_key(c));
                if before.contains_key(c) {
                    assert(m[c] == chain_detail_view(before[c]));
                    assert(new_view == (m[c].0, m[c].1.insert(token.symbol@, token_detail_of(*token)), m[c].2));
                } else {
                    assert(before_tokens.map_values(|t: TokenDetail| token_detail_view(t)) =~= Map::<Seq<char>, (Seq<char>, Seq<char>, i32)>::empty());
                }
            }
            chains.insert(token.chain.clone(), detail);
            proof {
                assert(chains@ == before.insert(token.chain@, detail));
                assert(chains_view(chains@) =~= chains_view(before).insert(token.chain@, new_view));
                assert(chains_view(chains@) =~= chain_map(tokens@.take(i + 1)));
            }
            i = i + 1;
        }
        proof {
            assert(tokens@.take(n as int) =~= tokens@);
            assert forall|i: int| #[trigger] is_last_of_chain_symbol(tokens@, i) implies {
                &&& chain_map(tokens@).contains_key(tokens@[i].chain@)
                &&& chain_map(tokens@)[tokens@[i].chain@].1.contains_key(tokens@[i].symbol@)
                &&& chain_map(tokens@)[tokens@[i].chain@].1[tokens@[i].symbol@] == token_detail_of(tokens@[i])
            } by {
                lemma_chain_token_last_row_wins(tokens@, i);
            }
            assert forall|i: int| #[trigger] is_first_of_chain(tokens@, i) implies {
                &&& chain_map(tokens@).contains_key(tokens@[i].chain@)
                &&& chain_map(tokens@)[tokens@[i].chain@].0 == (match tokens@[i].chain_id {
                    Some(id) => id,
                    None => 0i32,
                })
                &&& chain_map(tokens@)[tokens@[i].chain@].2 == (match tokens@[i].chain_name {
                    Some(n) => n@,
                    None => tokens@[i].chain@,
                })
            } by {
                lemma_chain_first_row_wins(tokens@, i);
            }
            assert forall|c: Seq<char>|
                #[trigger] chain_map(tokens@).contains_key(c) <==> exists|j: int|
                    0 <= j < tokens@.len() && #[trigger] tokens@[j].chain@ == c by {
                lemma_chain_keys(tokens@, c);
            }
            assert forall|c: Seq<char>, s: Seq<char>|
                #[trigger] chain_map(tokens@).contains_key(c) implies (#[trigger] chain_map(tokens@)[c].1.contains_key(s)
                <==> exists|j: int|
                    0 <= j < tokens@.len() && #[trigger] tokens@[j].chain@ == c && tokens@[j].symbol@ == s) by {
                lemma_chain_symbols(tokens@, c, s);
            }
        }
        MetadataResponseV2 {
            defaults: DefaultData { chain: current_chain, currency: default_currency },
            chains,
        }
    }
}

/// For each symbol, the exponent in the response is that of the last row
/// with the symbol.
pub proof fn lemma_exponent_last_row_wins(items: Seq<TokenMetadata>, i: int)
    requires
        0 <= i < items.len(),
        forall|j: int| i < j < items.len() ==> #[trigger] items[j].symbol@ != items[i].symbol@,
    ensures
        exponent_map(items).contains_key(items[i].symbol@),
        exponent_map(items)[items[i].symbol@] == items[i].exponent,
    decreases items.len(),
{
    if i < items.len() - 1 {
        let init = items.drop_last();
        assert forall|j: int| i < j < init.len() implies #[trigger] init[j].symbol@ != init[i].symbol@ by {
            assert(init[j] == items[j]);
        }
        lemma_exponent_last_row_wins(init, i);
        assert(items[items.len() - 1].symbol@ != items[i].symbol@);
    }
}

/// For each symbol, the name and exponent in the response are those of
/// the last row with the symbol.
pub proof fn lemma_token_last_row_wins(items: Seq<TokenMetadata>, i: int)
    requires
        0 <= i < items.len(),
        forall|j: int| i < j < items.len() ==> #[trigger] items[j].symbol@ != items[i].symbol@,
    ensures
        token_response_map(items).contains_key(items[i].symbol@),
        token_response_map(items)[items[i].symbol@] == (items[i].name@, items[i].exponent),
    decreases items.len(),
{
    if i < items.len() - 1 {
        let init = items.drop_last();
        assert forall|j: int| i < j < init.len() implies #[trigger] init[j].symbol@ != init[i].symbol@ by {
            assert(init[j] == items[j]);
        }
        lemma_token_last_row_wins(init, i);
        assert(items[items.len() - 1].symbol@ != items[i].symbol@);
    }
}

/// A symbol is in the response exactly when some row has it.
pub proof fn lemma_exponent_symbols(items: Seq<TokenMetadata>, s: Seq<char>)
    ensures
        exponent_map(items).contains_key(s) <==> exists|j: int| 0 <= j < items.len() && #[trigger] items[j].symbol@ == s,
    decreases items.len(),
{
    if items.len() > 0 {
        let init = items.drop_last();
        lemma_exponent_symbols(init, s);
        if exists|j: int| 0 <= j < init.len() && #[trigger] init[j].symbol@ == s {
            let j = choose|j: int| 0 <= j < init.len() && #[trigger] init[j].symbol@ == s;
            assert(items[j].symbol@ == s);
        }
        if exists|j: int| 0 <= j < items.len() && #[trigger] items[j].symbol@ == s {
            let j = choose|j: int| 0 <= j < items.len() && #[trigger] items[j].symbol@ == s;
            if j < items.len() - 1 {
                assert(init[j].symbol@ == s);
            }
        }
    }
}

/// A symbol has a name and exponent in the response exactly when some row
/// has it.
pub proof fn lemma_token_symbols(items: Seq<TokenMetadata>, s: Seq<char>)
    ensures
        token_response_map(items).contains_key(s) <==> exists|j: int| 0 <= j < items.len() && #[trigger] items[j].symbol@ == s,
    decreases items.len(),
{
    if items.len() > 0 {
        let init = items.drop_last();
        lemma_token_symbols(init, s);
        if exists|j: int| 0 <= j < init.len() && #[trigger] init[j].symbol@ == s {
            let j = choose|j: int| 0 <= j < init.len() && #[trigger] init[j].symbol@ == s;
            assert(items[j].symbol@ == s);
        }
        if exists|j: int| 0 <= j < items.len() && #[trigger] items[j].symbol@ == s {
            let j = choose|j: int| 0 <= j < items.len() && #[trigger] items[j].symbol@ == s;
            if j < items.len() - 1 {
                assert(init[j].symbol@ == s);
            }
        }
    }
}

/// A chain's id and display name in the response are those of the first
/// row of the chain (id 0 where the row has none, the chain key where it
/// has no name).
pub proof fn lemma_chain_first_row_wins(items: Seq<TokenMetadata>, i: int)
    requires
        0 <= i < items.len(),
        forall|j: int| 0 <= j < i ==> #[trigger] items[j].chain@ != items[i].chain@,
    ensures
        chain_map(items).contains_key(items[i].chain@),
        chain_map(items)[items[i].chain@].0 == (match items[i].chain_id {
            Some(id) => id,
            None => 0i32,
        }),
        chain_map(items)[items[i].chain@].2 == (match items[i].chain_name {
            Some(n) => n@,
            None => items[i].chain@,
        }),
    decreases items.len(),
{
    let c = items[i].chain@;
    if i == items.len() - 1 {
        lemma_chain_keys(items.drop_last(), c);
        if chain_map(items.drop_last()).contains_key(c) {
            let j = choose|j: int| 0 <= j < items.drop_last().len() && #[trigger] items.drop_last()[j].chain@ == c;
            assert(items[j].chain@ == c);
        }
    } else {
        let init = items.drop_last();
        assert forall|j: int| 0 <= j < i implies #[trigger] init[j].chain@ != init[i].chain@ by {
            assert(init[j] == items[j]);
        }
        lemma_chain_first_row_wins(init, i);
    }
}

/// Within a chain, each symbol's detail in the response is that of the
/// last row with the chain and the symbol.
pub proof fn lemma_chain_token_last_row_wins(items: Seq<TokenMetadata>, i: int)
    requires
        0 <= i < items.len(),
        forall|j: int|
            i < j < items.len() ==> !(#[trigger] items[j].chain@ == items[i].chain@
                && items[j].symbol@ == items[i].symbol@),
    ensures
        chain_map(items).contains_key(items[i].chain@),
        chain_map(items)[items[i].chain@].1.contains_key(items[i].symbol@),
        chain_map(items)[items[i].chain@].1[items[i].symbol@] == token_detail_of(items[i]),
    decreases items.len(),
{
    let c = items[i].chain@;
    if i < items.len() - 1 {
        let init = items.drop_last();
        assert forall|j: int|
            i < j < init.len() implies !(#[trigger] init[j].chain@ == init[i].chain@
            && init[j].symbol@ == init[i].symbol@) by {
            assert(init[j] == items[j]);
        }
        lemma_chain_token_last_row_wins(init, i);
        let last = items[items.len() - 1];
        assert(!(last.chain@ == c && last.symbol@ == items[i].symbol@));
    }
}

/// A chain's tokens hold exactly the symbols of the rows of that chain:
/// for a chain in the response, a symbol is among its tokens exactly
/// when some row has that chain and that symbol.
pub proof fn lemma_chain_symbols(items: Seq<TokenMetadata>, c: Seq<char>, s: Seq<char>)
    ensures
        chain_map(items).contains_key(c) ==> (chain_map(items)[c].1.contains_key(s) <==> exists|j: int|
            0 <= j < items.len() && #[trigger] items[j].chain@ == c && items[j].symbol@ == s),
    decreases items.len(),
{
    if items.len() > 0 {
        let init = items.drop_last();
        let t = items.last();
        lemma_chain_symbols(init, c, s);
        lemma_chain_keys(init, c);
        if exists|j: int| 0 <= j < init.len() && #[trigger] init[j].chain@ == c && init[j].symbol@ == s {
            let j = choose|j: int| 0 <= j < init.len() && #[trigger] init[j].chain@ == c && init[j].symbol@ == s;
            assert(items[j] == init[j]);
        }
        if exists|j: int| 0 <= j < items.len() && #[trigger] items[j].chain@ == c && items[j].symbol@ == s {
            let j = choose|j: int| 0 <= j < items.len() && #[trigger] items[j].chain@ == c && items[j].symbol@ == s;
            if j < items.len() - 1 {
                assert(init[j] == items[j]);
            }
        }
        if t.chain@ == c && !chain_map(init).contains_key(c) {
            assert forall|j: int| 0 <= j < init.len() implies #[trigger] init[j].chain@ != c by {}
        }
    }
}

/// A chain is in the response exactly when some row has it.
pub proof fn lemma_chain_keys(items: Seq<TokenMetadata>, c: Seq<char>)
    ensures
        chain_map(items).contains_key(c) <==> exists|j: int| 0 <= j < items.len() && #[trigger] items[j].chain@ == c,
    decreases items.len(),
{
    if items.len() > 0 {
        let init = items.drop_last();
        lemma_chain_keys(init, c);
        if exists|j: int| 0 <= j < init.len() && #[trigger] init[j].chain@ == c {
            let j = choose|j: int| 0 <= j < init.len() && #[trigger] init[j].chain@ == c;
            assert(items[j].chain@ == c);
        }
        if exists|j: int| 0 <= j < items.len() && #[trigger] items[j].chain@ == c {
            let j = choose|j: int| 0 <= j < items.len() && #[trigger] items[j].chain@ == c;
            if j < items.len() - 1 {
                assert(init[j].chain@ == c);
            }
        }
    }
}

} // verus!
