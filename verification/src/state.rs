use vstd::prelude::*;

use crate::error::ContractError;

verus! {

/// Which of the two positions in a stableswap pool's asset list holds the
/// staking-derivative (stToken) asset. The scaling-factor array mirrors the
/// asset list, so this tag decides which position receives the scaled value
/// and which stays at the fixed-point unit.
#[derive(Clone, Copy, Debug, PartialEq, Eq)]
pub enum AssetOrdering {
    /// The native token is the first asset; the scaled factor goes first.
    NativeTokenFirst,
    /// The stToken is the first asset; the scaled factor goes second.
    StTokenFirst,
}

impl AssetOrdering {
    /// The index of the stToken within the pool's two-asset list.
    pub open spec fn spec_sttoken_index(self) -> int {
        match self {
            AssetOrdering::StTokenFirst => 0,
            AssetOrdering::NativeTokenFirst => 1,
        }
    }

    /// The index of the native token within the pool's two-asset list.
    pub open spec fn spec_native_index(self) -> int {
        1 - self.spec_sttoken_index()
    }

    pub fn sttoken_index(&self) -> (i: usize)
        ensures
            i as int == self.spec_sttoken_index(),
    {
        match self {
            AssetOrdering::StTokenFirst => 0,
            AssetOrdering::NativeTokenFirst => 1,
        }
    }

    /// The textual label of the ordering, as it appears in response
    /// attributes.
    pub open spec fn spec_label(self) -> Seq<char> {
        match self {
            AssetOrdering::NativeTokenFirst => "native_token_first"@,
            AssetOrdering::StTokenFirst => "st_token_first"@,
        }
    }

    pub fn as_text(&self) -> (s: String)
        ensures
            s@ == self.spec_label(),
    {
        match self {
            AssetOrdering::NativeTokenFirst => "native_token_first".to_owned(),
            AssetOrdering::StTokenFirst => "st_token_first".to_owned(),
        }
    }
}

/// The singleton configuration: who administers the registry, and where the
/// redemption-rate oracle lives. Both addresses are identity strings that
/// were validated before they reached this core.
#[derive(Debug, PartialEq, Eq)]
pub struct Config {
    /// The admin may update the config and add or remove pools.
    pub admin_address: String,
    /// The oracle contract that reports stToken redemption rates.
    pub oracle_contract_address: String,
}

impl Clone for Config {
    fn clone(&self) -> (res: Self)
        ensures
            res == *self,
    {
        Config {
            admin_address: self.admin_address.clone(),
            oracle_contract_address: self.oracle_contract_address.clone(),
        }
    }
}

/// A registered stableswap pool whose scaling factors this contract manages.
#[derive(Debug, PartialEq, Eq)]
pub struct Pool {
    /// Identifier of the pool on the AMM.
    pub pool_id: u64,
    /// The denom of the stToken as it appears both in the oracle and in the
    /// pool's asset list.
    pub sttoken_denom: String,
    /// Which position of the pool's asset list holds the stToken.
    pub asset_ordering: AssetOrdering,
    /// Unix timestamp (seconds) of the last successful refresh; zero until
    /// the first refresh.
    pub last_updated: u64,
}

impl Clone for Pool {
    fn clone(&self) -> (res: Self)
        ensures
            res == *self,
    {
        Pool {
            pool_id: self.pool_id,
            sttoken_denom: self.sttoken_denom.clone(),
            asset_ordering: self.asset_ordering,
            last_updated: self.last_updated,
        }
    }
}

/// True somewhere in `s` a pool carries `pool_id`.
pub open spec fn contains_id(s: Seq<Pool>, pool_id: u64) -> bool {
    exists|i: int| 0 <= i < s.len() && s[i].pool_id == pool_id
}

/// The index of the pool carrying `pool_id`; meaningful when `contains_id`
/// holds and the ids in `s` are unique.
pub open spec fn index_of_id(s: Seq<Pool>, pool_id: u64) -> int {
    choose|i: int| 0 <= i < s.len() && s[i].pool_id == pool_id
}

/// The registered pool carrying `pool_id`.
pub open spec fn pool_with_id(s: Seq<Pool>, pool_id: u64) -> Pool {
    s[index_of_id(s, pool_id)]
}

/// The registry's invariant: pools stand in strictly ascending order of
/// pool id, which also makes every id unique.
pub open spec fn registry_wf(s: Seq<Pool>) -> bool {
    forall|i: int, j: int| 0 <= i < j < s.len() ==> s[i].pool_id < s[j].pool_id
}

/// What a registry holds after adding `pool`: the pool is placed at its
/// sorted position, everything else keeps its relative order.
pub open spec fn spec_add(s: Seq<Pool>, pool: Pool) -> Seq<Pool>
    decreases s.len(),
{
    if s.len() == 0 {
        seq![pool]
    } else if pool.pool_id < s[0].pool_id {
        seq![pool] + s
    } else {
        seq![s[0]] + spec_add(s.drop_first(), pool)
    }
}

/// What a registry holds after removing `pool_id`: the first pool carrying
/// the id leaves, everything else keeps its relative order.
pub open spec fn spec_remove(s: Seq<Pool>, pool_id: u64) -> Seq<Pool>
    decreases s.len(),
{
    if s.len() == 0 {
        s
    } else if s[0].pool_id == pool_id {
        s.drop_first()
    } else {
        seq![s[0]] + spec_remove(s.drop_first(), pool_id)
    }
}

/// Under the registry invariant a pool id pins its index: whichever index
/// carries the id is the one the lookup functions speak of.
pub proof fn lemma_wf_index_unique(s: Seq<Pool>, i: int, pool_id: u64)
    requires
        registry_wf(s),
        0 <= i < s.len(),
        s[i].pool_id == pool_id,
    ensures
        contains_id(s, pool_id),
        index_of_id(s, pool_id) == i,
        pool_with_id(s, pool_id) == s[i],
{
    assert(contains_id(s, pool_id));
    let j = index_of_id(s, pool_id);
    assert(0 <= j < s.len() && s[j].pool_id == pool_id);
    if i < j {
        assert(s[i].pool_id < s[j].pool_id);
    }
    if j < i {
        assert(s[j].pool_id < s[i].pool_id);
    }
}

/// Inserting at the position that keeps ids ascending matches `spec_add`.
pub proof fn lemma_spec_add_insert(s: Seq<Pool>, pool: Pool, i: int)
    requires
        0 <= i <= s.len(),
        forall|j: int| 0 <= j < i ==> s[j].pool_id < pool.pool_id,
        i < s.len() ==> pool.pool_id < s[i].pool_id,
    ensures
        spec_add(s, pool) == s.insert(i, pool),
    decreases s.len(),
{
    if s.len() == 0 {
        assert(s.insert(0, pool) =~= seq![pool]);
    } else if pool.pool_id < s[0].pool_id {
        assert(i == 0);
        assert(s.insert(0, pool) =~= seq![pool] + s);
    } else {
        assert(i >= 1);
        let rest = s.drop_first();
        assert(forall|j: int| 0 <= j < i - 1 ==> #[trigger] rest[j].pool_id == s[j + 1].pool_id
            && s[j + 1].pool_id < pool.pool_id);
        assert(i - 1 < rest.len() ==> pool.pool_id < rest[i - 1].pool_id);
        lemma_spec_add_insert(rest, pool, i - 1);
        assert(seq![s[0]] + rest.insert(i - 1, pool) =~= s.insert(i, pool));
    }
}

/// What holds of a registry after inserting `pool` at its sorted position
/// `i`: the order invariant is kept, the new pool is found under its id,
/// and every other id maps to the record it mapped to before.
pub proof fn lemma_insert_properties(s: Seq<Pool>, pool: Pool, i: int)
    requires
        registry_wf(s),
        0 <= i <= s.len(),
        forall|j: int| 0 <= j < i ==> s[j].pool_id < pool.pool_id,
        i < s.len() ==> pool.pool_id < s[i].pool_id,
    ensures
        registry_wf(s.insert(i, pool)),
        s.insert(i, pool).len() == s.len() + 1,
        contains_id(s.insert(i, pool), pool.pool_id),
        pool_with_id(s.insert(i, pool), pool.pool_id) == pool,
        forall|id: u64|
            id != pool.pool_id ==> contains_id(s.insert(i, pool), id) == contains_id(s, id),
        forall|id: u64|
            id != pool.pool_id && contains_id(s, id) ==> pool_with_id(s.insert(i, pool), id)
                == pool_with_id(s, id),
{
    let t = s.insert(i, pool);
    s.insert_ensures(i, pool);
    assert forall|a: int, b: int| 0 <= a < b < t.len() implies t[a].pool_id < t[b].pool_id by {
        if a < i && b < i {
            assert(t[a] == s[a] && t[b] == s[b]);
        } else if a < i && b == i {
            assert(t[a] == s[a] && t[b] == pool);
        } else if a < i && b > i {
            assert(t[a] == s[a] && t[b] == s[b - 1]);
            if b - 1 < i {
                assert(s[b - 1].pool_id < pool.pool_id);
                assert(s[a].pool_id < pool.pool_id);
                assert(a < b - 1 || a == b - 1 || a > b - 1);
            }
            assert(i <= b - 1 < s.len());
            if i < b - 1 {
                assert(s[i].pool_id < s[b - 1].pool_id);
            }
            if a < b - 1 {
                assert(s[a].pool_id < s[b - 1].pool_id);
            } else {
                assert(a == b - 1);
                assert(a < i);
                assert(false);
            }
        } else if a == i {
            assert(t[a] == pool && t[b] == s[b - 1]);
            assert(i <= b - 1 < s.len());
            if i < b - 1 {
                assert(s[i].pool_id < s[b - 1].pool_id);
            }
        } else {
            assert(t[a] == s[a - 1] && t[b] == s[b - 1]);
            assert(s[a - 1].pool_id < s[b - 1].pool_id);
        }
    }
    lemma_wf_index_unique(t, i, pool.pool_id);
    assert forall|id: u64| id != pool.pool_id implies contains_id(t, id) == contains_id(s, id) by {
        if contains_id(s, id) {
            let k = index_of_id(s, id);
            if k < i {
                assert(t[k] == s[k]);
            } else {
                assert(t[k + 1] == s[k]);
            }
            assert(contains_id(t, id));
        }
        if contains_id(t, id) {
            let k = index_of_id(t, id);
            assert(0 <= k < t.len() && t[k].pool_id == id);
            if k < i {
                assert(t[k] == s[k]);
            } else if k == i {
                assert(t[k] == pool);
            } else {
                assert(t[k] == s[k - 1]);
            }
            assert(contains_id(s, id));
        }
    }
    assert forall|id: u64| id != pool.pool_id && contains_id(s, id) implies pool_with_id(t, id)
        == pool_with_id(s, id) by {
        let k = index_of_id(s, id);
        assert(0 <= k < s.len() && s[k].pool_id == id);
        lemma_wf_index_unique(s, k, id);
        if k < i {
            assert(t[k] == s[k]);
            lemma_wf_index_unique(t, k, id);
        } else {
            assert(t[k + 1] == s[k]);
            lemma_wf_index_unique(t, k + 1, id);
        }
    }
}

/// The position a fresh id belongs at in an ascending registry: the count
/// of entries whose id is below it.
spec fn insertion_point(s: Seq<Pool>, pool_id: u64) -> int
    decreases s.len(),
{
    if s.len() == 0 {
        0
    } else if pool_id < s[0].pool_id {
        0
    } else {
        1 + insertion_point(s.drop_first(), pool_id)
    }
}

proof fn lemma_insertion_point(s: Seq<Pool>, pool_id: u64)
    requires
        registry_wf(s),
        !contains_id(s, pool_id),
    ensures
        0 <= insertion_point(s, pool_id) <= s.len(),
        forall|j: int| 0 <= j < insertion_point(s, pool_id) ==> s[j].pool_id < pool_id,
        insertion_point(s, pool_id) < s.len() ==> pool_id < s[insertion_point(s, pool_id)].pool_id,
    decreases s.len(),
{
    if s.len() == 0 {
    } else if pool_id < s[0].pool_id {
    } else {
        if s[0].pool_id == pool_id {
            assert(contains_id(s, pool_id));
        }
        let rest = s.drop_first();
        assert(registry_wf(rest)) by {
            assert(forall|a: int, b: int|
                0 <= a < b < rest.len() ==> rest[a] == s[a + 1] && rest[b] == s[b + 1]);
        }
        if contains_id(rest, pool_id) {
            let k = index_of_id(rest, pool_id);
            assert(s[k + 1] == rest[k]);
            assert(contains_id(s, pool_id));
        }
        lemma_insertion_point(rest, pool_id);
        let i = 1 + insertion_point(rest, pool_id);
        assert forall|j: int| 0 <= j < i implies s[j].pool_id < pool_id by {
            if j == 0 {
            } else {
                assert(rest[j - 1] == s[j]);
            }
        }
        if i < s.len() {
            assert(rest[i - 1] == s[i]);
        }
    }
}

/// The registry's add law: registering a fresh pool keeps the ascending
/// order, makes a lookup of its id return exactly the stored record, and
/// leaves every other id bound to the record it was bound to before.
pub proof fn lemma_add_properties(s: Seq<Pool>, pool: Pool)
    requires
        registry_wf(s),
        !contains_id(s, pool.pool_id),
    ensures
        registry_wf(spec_add(s, pool)),
        spec_add(s, pool).len() == s.len() + 1,
        contains_id(spec_add(s, pool), pool.pool_id),
        pool_with_id(spec_add(s, pool), pool.pool_id) == pool,
        forall|id: u64|
            id != pool.pool_id ==> contains_id(spec_add(s, pool), id) == contains_id(s, id),
        forall|id: u64|
            id != pool.pool_id && contains_id(s, id) ==> pool_with_id(spec_add(s, pool), id)
                == pool_with_id(s, id),
{
    lemma_insertion_point(s, pool.pool_id);
    let i = insertion_point(s, pool.pool_id);
    lemma_spec_add_insert(s, pool, i);
    lemma_insert_properties(s, pool, i);
}

/// Removing the entry at the index that carries `pool_id` matches
/// `spec_remove`.
pub proof fn lemma_spec_remove_at(s: Seq<Pool>, pool_id: u64, i: int)
    requires
        0 <= i < s.len(),
        s[i].pool_id == pool_id,
        forall|j: int| 0 <= j < i ==> s[j].pool_id != pool_id,
    ensures
        spec_remove(s, pool_id) == s.remove(i),
    decreases s.len(),
{
    if s[0].pool_id == pool_id {
        assert(i == 0);
        assert(s.remove(0) =~= s.drop_first());
    } else {
        assert(i >= 1);
        let rest = s.drop_first();
        assert(forall|j: int| 0 <= j < i - 1 ==> #[trigger] rest[j].pool_id == s[j + 1].pool_id);
        lemma_spec_remove_at(rest, pool_id, i - 1);
        assert(seq![s[0]] + rest.remove(i - 1) =~= s.remove(i));
    }
}

/// The registry's remove law: dropping a registered id keeps the ascending
/// order, a listing afterwards no longer carries the id, and every other
/// id stays bound to the record it was bound to before.
#[verifier::rlimit(60)]
pub proof fn lemma_remove_properties(s: Seq<Pool>, pool_id: u64)
    requires
        registry_wf(s),
        contains_id(s, pool_id),
    ensures
        registry_wf(spec_remove(s, pool_id)),
        spec_remove(s, pool_id).len() == s.len() - 1,
        !contains_id(spec_remove(s, pool_id), pool_id),
        forall|id: u64|
            id != pool_id ==> contains_id(spec_remove(s, pool_id), id) == contains_id(s, id),
        forall|id: u64|
            id != pool_id && contains_id(s, id) ==> pool_with_id(spec_remove(s, pool_id), id)
                == pool_with_id(s, id),
{
    let i = index_of_id(s, pool_id);
    assert(0 <= i < s.len() && s[i].pool_id == pool_id);
    assert forall|j: int| 0 <= j < i implies s[j].pool_id != pool_id by {
        assert(s[j].pool_id < s[i].pool_id);
    }
    lemma_spec_remove_at(s, pool_id, i);
    let t = s.remove(i);
    s.remove_ensures(i);
    assert forall|a: int, b: int| 0 <= a < b < t.len() implies t[a].pool_id < t[b].pool_id by {
        if b < i {
            assert(t[a] == s[a] && t[b] == s[b]);
        } else if a < i {
            assert(t[a] == s[a] && t[b] == s[b + 1]);
        } else {
            assert(t[a] == s[a + 1] && t[b] == s[b + 1]);
        }
    }
    assert forall|k: int| 0 <= k < t.len() implies t[k].pool_id != pool_id by {
        if k < i {
            assert(t[k] == s[k]);
            assert(s[k].pool_id < s[i].pool_id);
        } else {
            assert(t[k] == s[k + 1]);
            assert(s[i].pool_id < s[k + 1].pool_id);
        }
    }
    assert forall|id: u64| id != pool_id implies contains_id(t, id) == contains_id(s, id) by {
        if contains_id(s, id) {
            let k = index_of_id(s, id);
            assert(0 <= k < s.len() && s[k].pool_id == id);
            assert(k != i);
            if k < i {
                assert(t[k] == s[k]);
            } else {
                assert(t[k - 1] == s[k]);
            }
            assert(contains_id(t, id));
        }
        if contains_id(t, id) {
            let k = index_of_id(t, id);
            assert(0 <= k < t.len() && t[k].pool_id == id);
            if k < i {
                assert(t[k] == s[k]);
            } else {
                assert(t[k] == s[k + 1]);
            }
            assert(contains_id(s, id));
        }
    }
    assert forall|id: u64| id != pool_id && contains_id(s, id) implies pool_with_id(t, id)
        == pool_with_id(s, id) by {
        let k = index_of_id(s, id);
        assert(0 <= k < s.len() && s[k].pool_id == id);
        lemma_wf_index_unique(s, k, id);
        assert(k != i);
        if k < i {
            assert(t[k] == s[k]);
            lemma_wf_index_unique(t, k, id);
        } else {
            assert(t[k - 1] == s[k]);
            lemma_wf_index_unique(t, k - 1, id);
        }
    }
}

/// The durable mapping from pool id to pool record. Pools are kept sorted
/// in ascending id order, so listings come out ascending with no work.
#[derive(Debug, PartialEq, Eq)]
pub struct PoolRegistry {
    pools: Vec<Pool>,
}

impl View for PoolRegistry {
    type V = Seq<Pool>;

    closed spec fn view(&self) -> Seq<Pool> {
        self.pools@
    }
}

impl PoolRegistry {
    pub open spec fn wf(&self) -> bool {
        registry_wf(self@)
    }

    pub fn new() -> (r: PoolRegistry)
        ensures
            r@ == Seq::<Pool>::empty(),
            r.wf(),
    {
        let r = PoolRegistry { pools: Vec::new() };
        proof {
            assert(r@ =~= Seq::<Pool>::empty());
        }
        r
    }

    /// The record registered under `pool_id`.
    pub fn get(&self, pool_id: u64) -> (r: Result<Pool, ContractError>)
        requires
            self.wf(),
        ensures
            contains_id(self@, pool_id) ==> r == Ok::<Pool, ContractError>(
                pool_with_id(self@, pool_id),
            ),
            !contains_id(self@, pool_id) ==> r == Err::<Pool, ContractError>(
                ContractError::PoolNotFound { pool_id },
            ),
    {
        let n = self.pools.len();
        let mut i: usize = 0;
        while i < n
            invariant
                i <= n,
                n == self.pools.len(),
                self.wf(),
                forall|j: int| 0 <= j < i ==> self.pools@[j].pool_id != pool_id,
            decreases n - i,
        {
            if self.pools[i].pool_id == pool_id {
                proof {
                    lemma_wf_index_unique(self@, i as int, pool_id);
                }
                return Ok(self.pools[i].clone());
            }
            i += 1;
        }
        Err(ContractError::PoolNotFound { pool_id })
    }

    /// Registers `pool` under its id, keeping the ascending order; refuses
    /// an id that is already registered.
    pub fn add(&mut self, pool: Pool) -> (r: Result<(), ContractError>)
        requires
            old(self).wf(),
        ensures
            contains_id(old(self)@, pool.pool_id) ==> r == Err::<(), ContractError>(
                ContractError::PoolAlreadyExists { pool_id: pool.pool_id },
            ) && *final(self) == *old(self),
            !contains_id(old(self)@, pool.pool_id) ==> {
                &&& r == Ok::<(), ContractError>(())
                &&& final(self)@ == spec_add(old(self)@, pool)
                &&& final(self).wf()
                &&& contains_id(final(self)@, pool.pool_id)
                &&& pool_with_id(final(self)@, pool.pool_id) == pool
                &&& final(self)@.len() == old(self)@.len() + 1
                &&& (forall|id: u64|
                    id != pool.pool_id ==> contains_id(final(self)@, id) == contains_id(old(self)@, id))
                &&& (forall|id: u64|
                    id != pool.pool_id && contains_id(old(self)@, id) ==> pool_with_id(final(self)@, id)
                        == pool_with_id(old(self)@, id))
            },
    {
        let n = self.pools.len();
        let mut i: usize = 0;
        while i < n && self.pools[i].pool_id < pool.pool_id
            invariant
                i <= n,
                n == self.pools.len(),
                forall|j: int| 0 <= j < i ==> self.pools@[j].pool_id < pool.pool_id,
            decreases n - i,
        {
            i += 1;
        }
        if i < n && self.pools[i].pool_id == pool.pool_id {
            proof {
                assert(contains_id(self@, pool.pool_id));
            }
            return Err(ContractError::PoolAlreadyExists { pool_id: pool.pool_id });
        }
        proof {
            if contains_id(self@, pool.pool_id) {
                let k = index_of_id(self@, pool.pool_id);
                assert(0 <= k < self@.len() && self@[k].pool_id == pool.pool_id);
                assert(k >= i);
                if k > i {
                    assert(self@[i as int].pool_id < self@[k].pool_id);
                }
                assert(false);
            }
        }
        let ghost before = self@;
        self.pools.insert(i, pool);
        proof {
            lemma_spec_add_insert(before, pool, i as int);
            lemma_insert_properties(before, pool, i as int);
        }
        Ok(())
    }

    /// Drops the record registered under `pool_id`; refuses an id that is
    /// not registered.
    pub fn remove(&mut self, pool_id: u64) -> (r: Result<(), ContractError>)
        requires
            old(self).wf(),
        ensures
            !contains_id(old(self)@, pool_id) ==> r == Err::<(), ContractError>(
                ContractError::PoolNotFound { pool_id },
            ) && *final(self) == *old(self),
            contains_id(old(self)@, pool_id) ==> {
                &&& r == Ok::<(), ContractError>(())
                &&& final(self)@ == spec_remove(old(self)@, pool_id)
                &&& final(self).wf()
                &&& !contains_id(final(self)@, pool_id)
                &&& final(self)@.len() == old(self)@.len() - 1
                &&& (forall|id: u64|
                    id != pool_id ==> contains_id(final(self)@, id) == contains_id(old(self)@, id))
                &&& (forall|id: u64|
                    id != pool_id && contains_id(old(self)@, id) ==> pool_with_id(final(self)@, id)
                        == pool_with_id(old(self)@, id))
            },
    {
        let n = self.pools.len();
        let mut i: usize = 0;
        while i < n
            invariant
                i <= n,
                n == self.pools.len(),
                old(self) == self,
                self.wf(),
                forall|j: int| 0 <= j < i ==> self.pools@[j].pool_id != pool_id,
            decreases n - i,
        {
            if self.pools[i].pool_id == pool_id {
                let ghost before = self@;
                proof {
                    lemma_wf_index_unique(before, i as int, pool_id);
                    lemma_spec_remove_at(before, pool_id, i as int);
                    lemma_remove_properties(before, pool_id);
                }
                self.pools.remove(i);
                return Ok(());
            }
            i += 1;
        }
        Err(ContractError::PoolNotFound { pool_id })
    }

    /// Replaces the record registered under `pool.pool_id` with `pool`;
    /// refuses an id that is not registered.
    pub fn update(&mut self, pool: Pool) -> (r: Result<(), ContractError>)
        requires
            old(self).wf(),
        ensures
            !contains_id(old(self)@, pool.pool_id) ==> r == Err::<(), ContractError>(
                ContractError::PoolNotFound { pool_id: pool.pool_id },
            ) && *final(self) == *old(self),
            contains_id(old(self)@, pool.pool_id) ==> {
                &&& r == Ok::<(), ContractError>(())
                &&& final(self)@ == old(self)@.update(index_of_id(old(self)@, pool.pool_id), pool)
                &&& final(self).wf()
                &&& contains_id(final(self)@, pool.pool_id)
                &&& pool_with_id(final(self)@, pool.pool_id) == pool
                &&& final(self)@.len() == old(self)@.len()
                &&& (forall|id: u64|
                    id != pool.pool_id ==> contains_id(final(self)@, id) == contains_id(old(self)@, id))
                &&& (forall|id: u64|
                    id != pool.pool_id && contains_id(old(self)@, id) ==> pool_with_id(final(self)@, id)
                        == pool_with_id(old(self)@, id))
            },
    {
        let n = self.pools.len();
        let mut i: usize = 0;
        while i < n
            invariant
                i <= n,
                n == self.pools.len(),
                old(self) == self,
                self.wf(),
                forall|j: int| 0 <= j < i ==> self.pools@[j].pool_id != pool.pool_id,
            decreases n - i,
        {
            if self.pools[i].pool_id == pool.pool_id {
                let ghost before = self@;
                proof {
                    lemma_wf_index_unique(before, i as int, pool.pool_id);
                }
                self.pools.set(i, pool);
                proof {
                    let t = self@;
                    assert(t == before.update(i as int, pool));
                    assert forall|a: int, b: int| 0 <= a < b < t.len() implies t[a].pool_id
                        < t[b].pool_id by {
                        assert(before[a].pool_id < before[b].pool_id);
                    }
                    lemma_wf_index_unique(t, i as int, pool.pool_id);
                    assert forall|id: u64| id != pool.pool_id implies contains_id(t, id)
                        == contains_id(before, id) by {
                        if contains_id(before, id) {
                            let k = index_of_id(before, id);
                            assert(0 <= k < before.len() && before[k].pool_id == id);
                            assert(k != i);
                            assert(t[k] == before[k]);
                            assert(contains_id(t, id));
                        }
                        if contains_id(t, id) {
                            let k = index_of_id(t, id);
                            assert(0 <= k < t.len() && t[k].pool_id == id);
                            assert(k != i);
                            assert(t[k] == before[k]);
                            assert(contains_id(before, id));
                        }
                    }
                    assert forall|id: u64|
                        id != pool.pool_id && contains_id(before, id) implies pool_with_id(t, id)
                        == pool_with_id(before, id) by {
                        let k = index_of_id(before, id);
                        assert(0 <= k < before.len() && before[k].pool_id == id);
                        lemma_wf_index_unique(before, k, id);
                        assert(k != i);
                        assert(t[k] == before[k]);
                        lemma_wf_index_unique(t, k, id);
                    }
                }
                return Ok(());
            }
            i += 1;
        }
        Err(ContractError::PoolNotFound { pool_id: pool.pool_id })
    }

    /// Every registered pool, ascending by pool id: the listing is exactly
    /// the registry's contents.
    pub fn list_all(&self) -> (r: Vec<Pool>)
        ensures
            r@ == self@,
    {
        let n = self.pools.len();
        let mut r: Vec<Pool> = Vec::new();
        let mut i: usize = 0;
        while i < n
            invariant
                i <= n,
                n == self.pools.len(),
                r@ =~= self@.subrange(0, i as int),
            decreases n - i,
        {
            r.push(self.pools[i].clone());
            i += 1;
        }
        proof {
            assert(r@ =~= self@);
        }
        r
    }

    /// Whether a pool with this id is registered.
    pub fn has(&self, pool_id: u64) -> (r: bool)
        ensures
            r == contains_id(self@, pool_id),
    {
        let n = self.pools.len();
        let mut i: usize = 0;
        while i < n
            invariant
                i <= n,
                n == self.pools.len(),
                forall|j: int| 0 <= j < i ==> self.pools@[j].pool_id != pool_id,
            decreases n - i,
        {
            if self.pools[i].pool_id == pool_id {
                return true;
            }
            i += 1;
        }
        false
    }
}

/// Everything the contract keeps between invocations: the singleton config
/// and the pool registry. The surrounding platform persists it atomically,
/// all or nothing, per invocation.
#[derive(Debug, PartialEq, Eq)]
pub struct ContractState {
    pub config: Config,
    pub pools: PoolRegistry,
}

impl ContractState {
    pub open spec fn wf(&self) -> bool {
        self.pools.wf()
    }
}

} // verus!
