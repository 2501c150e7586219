//! The contract's local state: configuration, custody records and operation
//! counters, together with the spec-level view of the custody collection.

use vstd::prelude::*;

verus! {

/// Global configuration: the address of the NFT contract that this
/// orchestrator mints replacements on (empty until provisioning completes)
/// and the admin identity that may mint directly.
#[derive(Debug, Clone, PartialEq, Eq)]
pub struct Config {
    pub nft_addr: String,
    pub admin: String,
}

impl Config {
    /// The NFT contract address starts as an empty placeholder and is written
    /// exactly once, when the instantiate reply delivers the real address.
    pub open spec fn provisioned(self) -> bool {
        self.nft_addr@.len() > 0
    }
}

/// Counters of confirmed completions: burns and mints that the host reported
/// back as successful. Dispatched operations whose reply never arrives are
/// never counted.
#[derive(Debug, Clone, PartialEq, Eq)]
pub struct Operations {
    pub n_burns: u128,
    pub n_mints: u128,
}

/// A custody record: this contract currently holds `token_id`, transferred to
/// it by `sender` through the NFT contract at `nft_addr`.
#[derive(Debug, Clone, PartialEq, Eq)]
pub struct TokenInfo {
    pub token_id: String,
    pub nft_addr: String,
    pub sender: String,
}

/// No two records share a token id, so a token id identifies its record.
pub open spec fn unique_tokens(s: Seq<TokenInfo>) -> bool {
    forall|i: int, j: int| 0 <= i < j < s.len() ==> s[i].token_id@ != s[j].token_id@
}

/// Some record in `s` is keyed by `key`.
pub open spec fn contains_token(s: Seq<TokenInfo>, key: Seq<char>) -> bool {
    exists|i: int| 0 <= i < s.len() && s[i].token_id@ == key
}

/// The index of the record keyed by `key`.
pub open spec fn token_index(s: Seq<TokenInfo>, key: Seq<char>) -> int {
    choose|i: int| 0 <= i < s.len() && s[i].token_id@ == key
}

/// The record keyed by `key`.
pub open spec fn token_record(s: Seq<TokenInfo>, key: Seq<char>) -> TokenInfo
    recommends
        contains_token(s, key),
{
    s[token_index(s, key)]
}

/// With unique token ids, the record found at any index is the record that
/// its key selects.
pub proof fn lemma_record_at(s: Seq<TokenInfo>, i: int)
    requires
        unique_tokens(s),
        0 <= i < s.len(),
    ensures
        contains_token(s, s[i].token_id@),
        token_index(s, s[i].token_id@) == i,
        token_record(s, s[i].token_id@) == s[i],
{
    let key = s[i].token_id@;
    assert(contains_token(s, key));
    let j = token_index(s, key);
    assert(0 <= j < s.len() && s[j].token_id@ == key);
    if i < j {
        assert(s[i].token_id@ != s[j].token_id@);
    } else if j < i {
        assert(s[j].token_id@ != s[i].token_id@);
    }
}

/// The whole local state: the configuration singleton (absent until the
/// contract is instantiated), the custody records, and the counters.
#[derive(Debug, Clone, PartialEq, Eq)]
pub struct Store {
    pub config: Option<Config>,
    pub custody: Vec<TokenInfo>,
    pub operations: Operations,
}

impl Store {
    /// Well-formedness: custody records are uniquely keyed by token id.
    pub open spec fn wf(self) -> bool {
        unique_tokens(self.custody@)
    }

    /// The configuration, on a store that has one.
    pub open spec fn the_config(self) -> Config
        recommends
            self.config is Some,
    {
        self.config->Some_0
    }

    /// The custody record currently held for `key`, if any.
    pub open spec fn token_for(self, key: Seq<char>) -> Option<TokenInfo> {
        if contains_token(self.custody@, key) {
            Some(token_record(self.custody@, key))
        } else {
            None
        }
    }

    /// A store as it stands before the contract is instantiated: no
    /// configuration, no custody, both counters at zero.
    pub fn new() -> (r: Store)
        ensures
            r.wf(),
            r.config is None,
            r.custody@.len() == 0,
            r.operations == (Operations { n_burns: 0u128, n_mints: 0u128 }),
    {
        Store { config: None, custody: Vec::new(), operations: Operations { n_burns: 0, n_mints: 0 } }
    }

    /// Looks up the custody record for `token_id`.
    pub fn custody_lookup(&self, token_id: &String) -> (r: Option<&TokenInfo>)
        requires
            self.wf(),
        ensures
            r is Some <==> contains_token(self.custody@, token_id@),
            r matches Some(rec) ==> *rec == token_record(self.custody@, token_id@),
    {
        let n = self.custody.len();
        let mut i: usize = 0;
        while i < n
            invariant
                n == self.custody@.len(),
                i <= n,
                self.wf(),
                forall|j: int| 0 <= j < i ==> self.custody@[j].token_id@ != token_id@,
            decreases n - i,
        {
            if self.custody[i].token_id == *token_id {
                proof {
                    lemma_record_at(self.custody@, i as int);
                }
                return Some(&self.custody[i]);
            }
            i += 1;
        }
        None
    }

    /// Deletes the custody record for `token_id`, if one exists; every other
    /// record is kept unchanged.
    pub fn custody_remove(&mut self, token_id: &String)
        requires
            old(self).wf(),
        ensures
            final(self).wf(),
            final(self).config == old(self).config,
            final(self).operations == old(self).operations,
            !contains_token(final(self).custody@, token_id@),
            forall|k: Seq<char>| k != token_id@ ==> (contains_token(final(self).custody@, k)
                <==> contains_token(old(self).custody@, k)),
            forall|k: Seq<char>| k != token_id@ && contains_token(old(self).custody@, k)
                ==> token_record(final(self).custody@, k) == token_record(old(self).custody@, k),
    {
        let ghost s0 = self.custody@;
        let n = self.custody.len();
        let mut i: usize = 0;
        while i < n
            invariant
                *self == *old(self),
                self.custody@ == s0,
                n == s0.len(),
                i <= n,
                unique_tokens(s0),
                forall|j: int| 0 <= j < i ==> s0[j].token_id@ != token_id@,
            decreases n - i,
        {
            if self.custody[i].token_id == *token_id {
                self.custody.remove(i);
                proof {
                    lemma_remove_keeps_others(s0, i as int);
                }
                return;
            }
            i += 1;
        }
    }

    /// Writes the custody record for `rec.token_id`, overwriting any record
    /// already held under that token id.
    pub fn custody_save(&mut self, rec: TokenInfo)
        requires
            old(self).wf(),
        ensures
            final(self).wf(),
            final(self).config == old(self).config,
            final(self).operations == old(self).operations,
            contains_token(final(self).custody@, rec.token_id@),
            token_record(final(self).custody@, rec.token_id@) == rec,
            forall|k: Seq<char>| k != rec.token_id@ ==> (contains_token(final(self).custody@, k)
                <==> contains_token(old(self).custody@, k)),
            forall|k: Seq<char>| k != rec.token_id@ && contains_token(old(self).custody@, k)
                ==> token_record(final(self).custody@, k) == token_record(old(self).custody@, k),
    {
        self.custody_remove(&rec.token_id);
        let ghost s1 = self.custody@;
        self.custody.push(rec);
        proof {
            lemma_push_fresh(s1, rec);
        }
    }
}

/// Removing the one record at index `i` removes its key and no other: every
/// other key keeps the same record.
proof fn lemma_remove_keeps_others(s: Seq<TokenInfo>, i: int)
    requires
        unique_tokens(s),
        0 <= i < s.len(),
    ensures
        unique_tokens(s.remove(i)),
        !contains_token(s.remove(i), s[i].token_id@),
        forall|k: Seq<char>| k != s[i].token_id@ ==> (contains_token(s.remove(i), k)
            <==> contains_token(s, k)),
        forall|k: Seq<char>| k != s[i].token_id@ && contains_token(s, k)
            ==> token_record(s.remove(i), k) == token_record(s, k),
{
    let t = s.remove(i);
    s.remove_ensures(i);
    let key = s[i].token_id@;
    assert forall|a: int, b: int| 0 <= a < b < t.len() implies t[a].token_id@ != t[b].token_id@ by {
        let a0 = if a < i { a } else { a + 1 };
        let b0 = if b < i { b } else { b + 1 };
        assert(t[a] == s[a0]);
        assert(t[b] == s[b0]);
        assert(s[a0].token_id@ != s[b0].token_id@);
    }
    assert forall|a: int| 0 <= a < t.len() implies t[a].token_id@ != key by {
        let a0 = if a < i { a } else { a + 1 };
        assert(t[a] == s[a0]);
        assert(a0 != i);
        if a0 < i {
            assert(s[a0].token_id@ != s[i].token_id@);
        } else {
            assert(s[i].token_id@ != s[a0].token_id@);
        }
    }
    assert forall|k: Seq<char>| k != key implies (contains_token(t, k) <==> contains_token(s, k)) by {
        if contains_token(t, k) {
            let a = choose|a: int| 0 <= a < t.len() && t[a].token_id@ == k;
            let a0 = if a < i { a } else { a + 1 };
            assert(t[a] == s[a0]);
            assert(contains_token(s, k));
        }
        if contains_token(s, k) {
            let a0 = choose|a0: int| 0 <= a0 < s.len() && s[a0].token_id@ == k;
            assert(a0 != i);
            let a = if a0 < i { a0 } else { a0 - 1 };
            assert(t[a] == s[a0]);
            assert(contains_token(t, k));
        }
    }
    assert forall|k: Seq<char>| k != key && contains_token(s, k) implies token_record(t, k)
        == token_record(s, k) by {
        let a0 = choose|a0: int| 0 <= a0 < s.len() && s[a0].token_id@ == k;
        lemma_record_at(s, a0);
        assert(a0 != i);
        let a = if a0 < i { a0 } else { a0 - 1 };
        assert(t[a] == s[a0]);
        lemma_record_at(t, a);
    }
}

/// Pushing a record whose key is absent adds exactly that record and touches
/// no other key.
proof fn lemma_push_fresh(s: Seq<TokenInfo>, rec: TokenInfo)
    requires
        unique_tokens(s),
        !contains_token(s, rec.token_id@),
    ensures
        unique_tokens(s.push(rec)),
        contains_token(s.push(rec), rec.token_id@),
        token_record(s.push(rec), rec.token_id@) == rec,
        forall|k: Seq<char>| k != rec.token_id@ ==> (contains_token(s.push(rec), k)
            <==> contains_token(s, k)),
        forall|k: Seq<char>| k != rec.token_id@ && contains_token(s, k)
            ==> token_record(s.push(rec), k) == token_record(s, k),
{
    let t = s.push(rec);
    assert(t[s.len() as int] == rec);
    assert forall|a: int, b: int| 0 <= a < b < t.len() implies t[a].token_id@ != t[b].token_id@ by {
        if b < s.len() {
            assert(t[a] == s[a] && t[b] == s[b]);
        } else {
            assert(t[b] == rec);
            assert(t[a] == s[a]);
        }
    }
    lemma_record_at(t, s.len() as int);
    assert forall|k: Seq<char>| k != rec.token_id@ implies (contains_token(t, k)
        <==> contains_token(s, k)) by {
        if contains_token(t, k) {
            let a = choose|a: int| 0 <= a < t.len() && t[a].token_id@ == k;
            assert(a != s.len());
            assert(t[a] == s[a]);
            assert(contains_token(s, k));
        }
        if contains_token(s, k) {
            let a = choose|a: int| 0 <= a < s.len() && s[a].token_id@ == k;
            assert(t[a] == s[a]);
            assert(contains_token(t, k));
        }
    }
    assert forall|k: Seq<char>| k != rec.token_id@ && contains_token(s, k) implies token_record(
        t,
        k,
    ) == token_record(s, k) by {
        let a = choose|a: int| 0 <= a < s.len() && s[a].token_id@ == k;
        lemma_record_at(s, a);
        assert(t[a] == s[a]);
        lemma_record_at(t, a);
    }
}

} // verus!
