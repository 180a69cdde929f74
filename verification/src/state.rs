//! The data the engine keeps: asset balances, orders, and the order store.
//!
//! Amounts are unsigned 128-bit integers. A balance keeps two sequences of
//! (key, amount) entries — native holdings keyed by denomination and
//! contract-token holdings keyed by the issuing contract's address — each
//! unique by key once built through [`GenericBalance::add_tokens`].

use vstd::prelude::*;

verus! {

// ---------------------------------------------------------------------------
// Abstract model
// ---------------------------------------------------------------------------

/// Abstract value of one asset holding: `key` is the native denomination or
/// the token contract's address, `amount` the quantity held.
#[verifier::ext_equal]
pub struct EntryV {
    pub key: Seq<char>,
    pub amount: nat,
}

/// Abstract value of a [`GenericBalance`]: native entries and contract-token
/// entries, in insertion order.
#[verifier::ext_equal]
pub struct GenericBalanceV {
    pub native: Seq<EntryV>,
    pub cw20: Seq<EntryV>,
}

/// Abstract value of a [`Balance`]: a deposit of exactly one asset kind.
pub enum BalanceV {
    Native(Seq<EntryV>),
    Cw20(EntryV),
}

/// The balance with no holdings at all.
pub open spec fn empty_balance() -> GenericBalanceV {
    GenericBalanceV { native: Seq::empty(), cw20: Seq::empty() }
}

/// True iff the balance holds nothing of either kind.
pub open spec fn balance_is_empty(g: GenericBalanceV) -> bool {
    g.native.len() == 0 && g.cw20.len() == 0
}

/// Index of the first entry carrying `key`, or -1 if no entry does.
pub open spec fn first_key(s: Seq<EntryV>, key: Seq<char>) -> int
    decreases s.len(),
{
    if s.len() == 0 {
        -1
    } else if s[0].key == key {
        0
    } else {
        let r: int = first_key(s.drop_first(), key);
        if r < 0 {
            -1
        } else {
            r + 1
        }
    }
}

/// What [`first_key`] finds: -1 exactly when no entry carries the key, and
/// otherwise the earliest index that does.
pub proof fn lemma_first_key(s: Seq<EntryV>, key: Seq<char>)
    ensures
        first_key(s, key) == -1 <==> (forall|i: int| 0 <= i < s.len() ==> s[i].key != key),
        first_key(s, key) != -1 ==> {
            let j: int = first_key(s, key);
            &&& 0 <= j < s.len()
            &&& s[j].key == key
            &&& forall|i: int| 0 <= i < j ==> s[i].key != key
        },
    decreases s.len(),
{
    if s.len() != 0 && s[0].key != key {
        let t = s.drop_first();
        lemma_first_key(t, key);
        assert forall|i: int| 1 <= i < s.len() implies s[i] == t[i - 1] by {
            assert(t[i - 1] == s[i]);
        }
        if first_key(t, key) == -1 {
            assert forall|i: int| 0 <= i < s.len() implies s[i].key != key by {
                if i >= 1 {
                    assert(t[i - 1].key != key);
                }
            }
        } else {
            let j: int = first_key(t, key);
            assert(first_key(s, key) == j + 1);
            assert(s[j + 1] == t[j]);
            assert(s[j + 1].key == key);
            assert forall|i: int| 0 <= i < j + 1 implies s[i].key != key by {
                if i >= 1 {
                    assert(t[i - 1].key != key);
                }
            }
        }
    }
}

/// Merging one entry: a zero amount is dropped, an existing key has the
/// amount added to its first entry, a new key is appended.
pub open spec fn merge_one(s: Seq<EntryV>, e: EntryV) -> Seq<EntryV> {
    if e.amount == 0 {
        s
    } else {
        let j: int = first_key(s, e.key);
        if j < 0 {
            s.push(e)
        } else {
            s.update(j, EntryV { key: s[j].key, amount: s[j].amount + e.amount })
        }
    }
}

/// The merged amount still fits in an unsigned 128-bit integer.
pub open spec fn merge_one_ok(s: Seq<EntryV>, e: EntryV) -> bool {
    e.amount == 0 || {
        let j: int = first_key(s, e.key);
        j < 0 || s[j].amount + e.amount <= u128::MAX
    }
}

/// Merging a sequence of entries, left to right.
pub open spec fn merge_seq(s: Seq<EntryV>, adds: Seq<EntryV>) -> Seq<EntryV>
    decreases adds.len(),
{
    if adds.len() == 0 {
        s
    } else {
        merge_one(merge_seq(s, adds.drop_last()), adds.last())
    }
}

/// No step of [`merge_seq`] overflows an unsigned 128-bit amount.
pub open spec fn merge_seq_ok(s: Seq<EntryV>, adds: Seq<EntryV>) -> bool
    decreases adds.len(),
{
    adds.len() == 0 || {
        &&& merge_seq_ok(s, adds.drop_last())
        &&& merge_one_ok(merge_seq(s, adds.drop_last()), adds.last())
    }
}

/// A merge of `i + 1` entries is the merge of the first `i` plus one step.
pub proof fn lemma_merge_seq_step(s: Seq<EntryV>, adds: Seq<EntryV>, i: int)
    requires
        0 <= i < adds.len(),
    ensures
        merge_seq(s, adds.take(i + 1)) == merge_one(merge_seq(s, adds.take(i)), adds[i]),
{
    assert(adds.take(i + 1).drop_last() =~= adds.take(i));
    assert(adds.take(i + 1).last() == adds[i]);
}

/// [`merge_seq_ok`] carries over to every prefix.
pub proof fn lemma_merge_seq_ok_prefix(s: Seq<EntryV>, adds: Seq<EntryV>, i: int)
    requires
        merge_seq_ok(s, adds),
        0 <= i <= adds.len(),
    ensures
        merge_seq_ok(s, adds.take(i)),
    decreases adds.len() - i,
{
    if i == adds.len() {
        assert(adds.take(i) =~= adds);
    } else {
        lemma_merge_seq_ok_prefix(s, adds, i + 1);
        assert(adds.take(i + 1).drop_last() =~= adds.take(i));
    }
}

/// Under [`merge_seq_ok`], each single step is in bounds.
pub proof fn lemma_merge_seq_ok_step(s: Seq<EntryV>, adds: Seq<EntryV>, i: int)
    requires
        merge_seq_ok(s, adds),
        0 <= i < adds.len(),
    ensures
        merge_one_ok(merge_seq(s, adds.take(i)), adds[i]),
{
    lemma_merge_seq_ok_prefix(s, adds, i + 1);
    assert(adds.take(i + 1).drop_last() =~= adds.take(i));
    assert(adds.take(i + 1).last() == adds[i]);
}

/// No two entries carry the same key.
pub open spec fn entries_unique(s: Seq<EntryV>) -> bool {
    forall|i: int, j: int| 0 <= i < j < s.len() ==> s[i].key != s[j].key
}

/// Every entry carries a positive amount: zero-amount units are never
/// accumulated as entries.
pub open spec fn entries_positive(s: Seq<EntryV>) -> bool {
    forall|i: int| 0 <= i < s.len() ==> s[i].amount > 0
}

/// The balance invariant: within each sequence, keys are unique and
/// amounts positive.
pub open spec fn balance_wf(g: GenericBalanceV) -> bool {
    &&& entries_unique(g.native)
    &&& entries_positive(g.native)
    &&& entries_unique(g.cw20)
    &&& entries_positive(g.cw20)
}

/// Merging one entry preserves key uniqueness and positive amounts.
pub proof fn lemma_merge_one_preserves_wf(s: Seq<EntryV>, e: EntryV)
    requires
        entries_unique(s),
        entries_positive(s),
    ensures
        entries_unique(merge_one(s, e)),
        entries_positive(merge_one(s, e)),
{
    if e.amount > 0 {
        lemma_first_key(s, e.key);
        let j: int = first_key(s, e.key);
        if j < 0 {
            let r = s.push(e);
            assert forall|a: int, b: int| 0 <= a < b < r.len() implies r[a].key != r[b].key by {
                if b == s.len() {
                    assert(r[a] == s[a]);
                }
            }
        }
    }
}

/// Merging a sequence of entries preserves key uniqueness and positive
/// amounts.
pub proof fn lemma_merge_seq_preserves_wf(s: Seq<EntryV>, adds: Seq<EntryV>)
    requires
        entries_unique(s),
        entries_positive(s),
    ensures
        entries_unique(merge_seq(s, adds)),
        entries_positive(merge_seq(s, adds)),
    decreases adds.len(),
{
    if adds.len() != 0 {
        lemma_merge_seq_preserves_wf(s, adds.drop_last());
        lemma_merge_one_preserves_wf(merge_seq(s, adds.drop_last()), adds.last());
    }
}

/// Merging any deposit into a well-formed balance leaves it well-formed:
/// the accumulator maintains the balance invariant.
pub proof fn lemma_add_tokens_preserves_wf(g: GenericBalanceV, b: BalanceV)
    requires
        balance_wf(g),
    ensures
        balance_wf(spec_add_tokens(g, b)),
{
    match b {
        BalanceV::Native(adds) => {
            lemma_merge_seq_preserves_wf(g.native, adds);
        },
        BalanceV::Cw20(e) => {
            lemma_merge_one_preserves_wf(g.cw20, e);
        },
    }
}

// ---------------------------------------------------------------------------
// Set equality of balances
// ---------------------------------------------------------------------------

/// Some entry of `s` carries exactly this key and amount.
pub open spec fn has_entry(s: Seq<EntryV>, key: Seq<char>, amount: nat) -> bool {
    exists|i: int| 0 <= i < s.len() && s[i].key == key && s[i].amount == amount
}

/// Every (key, amount) pair of `a` occurs somewhere in `b`.
pub open spec fn entries_subset(a: Seq<EntryV>, b: Seq<EntryV>) -> bool {
    forall|i: int| 0 <= i < a.len() ==> has_entry(b, a[i].key, a[i].amount)
}

/// Two balances are equal as sets: their native and contract-token sequences
/// contain the same (key, amount) pairs, irrespective of order. This is the
/// equality order matching is decided by.
pub open spec fn balance_set_eq(a: GenericBalanceV, b: GenericBalanceV) -> bool {
    &&& entries_subset(a.native, b.native)
    &&& entries_subset(b.native, a.native)
    &&& entries_subset(a.cw20, b.cw20)
    &&& entries_subset(b.cw20, a.cw20)
}

// ---------------------------------------------------------------------------
// Executable types
// ---------------------------------------------------------------------------

/// A native asset holding: so much of a ledger denomination.
#[derive(Debug, PartialEq)]
pub struct Coin {
    pub denom: String,
    pub amount: u128,
}

impl View for Coin {
    type V = EntryV;

    open spec fn view(&self) -> EntryV {
        EntryV { key: self.denom@, amount: self.amount as nat }
    }
}

impl DeepView for Coin {
    type V = EntryV;

    open spec fn deep_view(&self) -> EntryV {
        self@
    }
}

impl Clone for Coin {
    fn clone(&self) -> (res: Self)
        ensures
            res == *self,
    {
        Coin { denom: self.denom.clone(), amount: self.amount }
    }
}

/// A contract-token holding: so much of the token issued by a contract.
#[derive(Debug, PartialEq)]
pub struct Cw20CoinVerified {
    pub address: String,
    pub amount: u128,
}

impl View for Cw20CoinVerified {
    type V = EntryV;

    open spec fn view(&self) -> EntryV {
        EntryV { key: self.address@, amount: self.amount as nat }
    }
}

impl DeepView for Cw20CoinVerified {
    type V = EntryV;

    open spec fn deep_view(&self) -> EntryV {
        self@
    }
}

impl Clone for Cw20CoinVerified {
    fn clone(&self) -> (res: Self)
        ensures
            res == *self,
    {
        Cw20CoinVerified { address: self.address.clone(), amount: self.amount }
    }
}

/// A deposit, always of exactly one asset kind: either a batch of native
/// coins, or a single contract-token amount (a token contract reports one
/// amount per transfer).
#[derive(Debug, PartialEq)]
pub enum Balance {
    Native(Vec<Coin>),
    Cw20(Cw20CoinVerified),
}

impl View for Balance {
    type V = BalanceV;

    open spec fn view(&self) -> BalanceV {
        match self {
            Balance::Native(coins) => BalanceV::Native(coins.deep_view()),
            Balance::Cw20(token) => BalanceV::Cw20(token@),
        }
    }
}

impl DeepView for Balance {
    type V = BalanceV;

    open spec fn deep_view(&self) -> BalanceV {
        self@
    }
}

/// An accumulated holding across both asset kinds. Within each sequence,
/// keys are unique once every entry arrived through [`Self::add_tokens`];
/// order is insertion order.
#[derive(Debug, PartialEq)]
pub struct GenericBalance {
    pub native: Vec<Coin>,
    pub cw20: Vec<Cw20CoinVerified>,
}

impl View for GenericBalance {
    type V = GenericBalanceV;

    open spec fn view(&self) -> GenericBalanceV {
        GenericBalanceV { native: self.native.deep_view(), cw20: self.cw20.deep_view() }
    }
}

impl DeepView for GenericBalance {
    type V = GenericBalanceV;

    open spec fn deep_view(&self) -> GenericBalanceV {
        self@
    }
}

impl Default for GenericBalance {
    /// The empty balance.
    fn default() -> (res: Self)
        ensures
            res@ == empty_balance(),
    {
        let res = GenericBalance { native: Vec::new(), cw20: Vec::new() };
        proof {
            assert(res@ =~= empty_balance());
        }
        res
    }
}

impl GenericBalance {
    /// True iff nothing is held of either kind.
    pub fn is_empty(&self) -> (r: bool)
        ensures
            r == balance_is_empty(self@),
    {
        self.native.len() == 0 && self.cw20.len() == 0
    }
}

/// The deposit can be merged into the balance without any amount leaving
/// the unsigned 128-bit range.
pub open spec fn add_tokens_ok(g: GenericBalanceV, b: BalanceV) -> bool {
    match b {
        BalanceV::Native(adds) => merge_seq_ok(g.native, adds),
        BalanceV::Cw20(e) => merge_one_ok(g.cw20, e),
    }
}

/// What [`GenericBalance::add_tokens`] leaves behind: the deposit's entries
/// merged into the sequence of its own asset kind.
pub open spec fn spec_add_tokens(g: GenericBalanceV, b: BalanceV) -> GenericBalanceV {
    match b {
        BalanceV::Native(adds) => GenericBalanceV { native: merge_seq(g.native, adds), cw20: g.cw20 },
        BalanceV::Cw20(e) => GenericBalanceV { native: g.native, cw20: merge_one(g.cw20, e) },
    }
}

/// Index of the first native entry with this denomination, if any.
fn find_native_index(coins: &Vec<Coin>, denom: &String) -> (r: Option<usize>)
    ensures
        match r {
            Some(j) => j < coins.len() && first_key(coins.deep_view(), denom@) == j as int,
            None => first_key(coins.deep_view(), denom@) == -1,
        },
{
    let ghost s = coins.deep_view();
    let mut i: usize = 0;
    while i < coins.len()
        invariant
            i <= coins.len(),
            s == coins.deep_view(),
            forall|k: int| 0 <= k < i ==> s[k].key != denom@,
        decreases coins.len() - i,
    {
        if coins[i].denom == *denom {
            proof {
                lemma_first_key(s, denom@);
                assert(s[i as int].key == denom@);
            }
            return Some(i);
        }
        i = i + 1;
    }
    proof {
        lemma_first_key(s, denom@);
    }
    None
}

/// Index of the first contract-token entry with this address, if any.
fn find_cw20_index(tokens: &Vec<Cw20CoinVerified>, address: &String) -> (r: Option<usize>)
    ensures
        match r {
            Some(j) => j < tokens.len() && first_key(tokens.deep_view(), address@) == j as int,
            None => first_key(tokens.deep_view(), address@) == -1,
        },
{
    let ghost s = tokens.deep_view();
    let mut i: usize = 0;
    while i < tokens.len()
        invariant
            i <= tokens.len(),
            s == tokens.deep_view(),
            forall|k: int| 0 <= k < i ==> s[k].key != address@,
        decreases tokens.len() - i,
    {
        if tokens[i].address == *address {
            proof {
                lemma_first_key(s, address@);
                assert(s[i as int].key == address@);
            }
            return Some(i);
        }
        i = i + 1;
    }
    proof {
        lemma_first_key(s, address@);
    }
    None
}

impl GenericBalance {
    /// Merge one native coin into the native entries.
    fn merge_native(&mut self, coin: &Coin)
        requires
            merge_one_ok(old(self)@.native, coin@),
        ensures
            final(self)@.native == merge_one(old(self)@.native, coin@),
            final(self)@.cw20 == old(self)@.cw20,
    {
        let ghost s0 = self@.native;
        if coin.amount == 0 {
            return ;
        }
        let found = find_native_index(&self.native, &coin.denom);
        match found {
            Some(j) => {
                let amt: u128 = self.native[j].amount;
                let denom_j = self.native[j].denom.clone();
                self.native[j] = Coin { denom: denom_j, amount: amt + coin.amount };
                proof {
                    assert(self@.native =~= merge_one(s0, coin@));
                }
            },
            None => {
                self.native.push(coin.clone());
                proof {
                    assert(self@.native =~= merge_one(s0, coin@));
                }
            },
        }
    }

    /// Merge one contract-token amount into the contract-token entries.
    fn merge_cw20(&mut self, token: &Cw20CoinVerified)
        requires
            merge_one_ok(old(self)@.cw20, token@),
        ensures
            final(self)@.cw20 == merge_one(old(self)@.cw20, token@),
            final(self)@.native == old(self)@.native,
    {
        let ghost s0 = self@.cw20;
        if token.amount == 0 {
            return ;
        }
        let found = find_cw20_index(&self.cw20, &token.address);
        match found {
            Some(j) => {
                let amt: u128 = self.cw20[j].amount;
                let addr_j = self.cw20[j].address.clone();
                self.cw20[j] = Cw20CoinVerified { address: addr_j, amount: amt + token.amount };
                proof {
                    assert(self@.cw20 =~= merge_one(s0, token@));
                }
            },
            None => {
                self.cw20.push(token.clone());
                proof {
                    assert(self@.cw20 =~= merge_one(s0, token@));
                }
            },
        }
    }

    /// Merge a newly observed deposit into this holding: each unit's amount
    /// adds into the first entry with a matching key, a new key appends an
    /// entry, and a zero-amount unit has no effect (zero amounts are never
    /// accumulated as entries).
    pub fn add_tokens(&mut self, add: Balance)
        requires
            add_tokens_ok(old(self)@, add@),
        ensures
            final(self)@ == spec_add_tokens(old(self)@, add@),
    {
        let ghost g0 = self@;
        match add {
            Balance::Native(coins) => {
                let ghost adds = coins.deep_view();
                let n: usize = coins.len();
                let mut i: usize = 0;
                while i < n
                    invariant
                        i <= n,
                        n == coins.len(),
                        adds == coins.deep_view(),
                        merge_seq_ok(g0.native, adds),
                        self@.native == merge_seq(g0.native, adds.take(i as int)),
                        self@.cw20 == g0.cw20,
                    decreases n - i,
                {
                    proof {
                        lemma_merge_seq_ok_step(g0.native, adds, i as int);
                        lemma_merge_seq_step(g0.native, adds, i as int);
                    }
                    self.merge_native(&coins[i]);
                    i = i + 1;
                }
                proof {
                    assert(adds.take(n as int) =~= adds);
                    assert(self@ =~= spec_add_tokens(g0, BalanceV::Native(adds)));
                }
            },
            Balance::Cw20(token) => {
                self.merge_cw20(&token);
                proof {
                    assert(self@ =~= spec_add_tokens(g0, BalanceV::Cw20(token@)));
                }
            },
        }
    }
}

impl Clone for GenericBalance {
    fn clone(&self) -> (res: Self)
        ensures
            res@ == self@,
    {
        let mut native: Vec<Coin> = Vec::new();
        let mut i: usize = 0;
        while i < self.native.len()
            invariant
                i <= self.native.len(),
                native@ == self.native@.take(i as int),
            decreases self.native.len() - i,
        {
            native.push(self.native[i].clone());
            proof {
                assert(native@ =~= self.native@.take(i as int + 1));
            }
            i = i + 1;
        }
        let mut cw20: Vec<Cw20CoinVerified> = Vec::new();
        let mut k: usize = 0;
        while k < self.cw20.len()
            invariant
                k <= self.cw20.len(),
                cw20@ == self.cw20@.take(k as int),
            decreases self.cw20.len() - k,
        {
            cw20.push(self.cw20[k].clone());
            proof {
                assert(cw20@ =~= self.cw20@.take(k as int + 1));
            }
            k = k + 1;
        }
        let res = GenericBalance { native, cw20 };
        proof {
            assert(res.native@ =~= self.native@);
            assert(res.cw20@ =~= self.cw20@);
            assert(res@ =~= self@);
        }
        res
    }
}

// ---------------------------------------------------------------------------
// Set-equality matcher
// ---------------------------------------------------------------------------

/// Does some native entry carry exactly this denomination and amount?
fn has_native_entry(v: &Vec<Coin>, denom: &String, amount: u128) -> (r: bool)
    ensures
        r == has_entry(v.deep_view(), denom@, amount as nat),
{
    let ghost s = v.deep_view();
    let mut i: usize = 0;
    while i < v.len()
        invariant
            i <= v.len(),
            s == v.deep_view(),
            forall|k: int| 0 <= k < i ==> !(s[k].key == denom@ && s[k].amount == amount as nat),
        decreases v.len() - i,
    {
        if v[i].denom == *denom && v[i].amount == amount {
            proof {
                assert(s[i as int].key == denom@ && s[i as int].amount == amount as nat);
            }
            return true;
        }
        i = i + 1;
    }
    false
}

/// Does some contract-token entry carry exactly this address and amount?
fn has_cw20_entry(v: &Vec<Cw20CoinVerified>, address: &String, amount: u128) -> (r: bool)
    ensures
        r == has_entry(v.deep_view(), address@, amount as nat),
{
    let ghost s = v.deep_view();
    let mut i: usize = 0;
    while i < v.len()
        invariant
            i <= v.len(),
            s == v.deep_view(),
            forall|k: int| 0 <= k < i ==> !(s[k].key == address@ && s[k].amount == amount as nat),
        decreases v.len() - i,
    {
        if v[i].address == *address && v[i].amount == amount {
            proof {
                assert(s[i as int].key == address@ && s[i as int].amount == amount as nat);
            }
            return true;
        }
        i = i + 1;
    }
    false
}

/// Does every (denomination, amount) pair of `a` occur in `b`?
fn native_entries_subset(a: &Vec<Coin>, b: &Vec<Coin>) -> (r: bool)
    ensures
        r == entries_subset(a.deep_view(), b.deep_view()),
{
    let ghost sa = a.deep_view();
    let mut i: usize = 0;
    while i < a.len()
        invariant
            i <= a.len(),
            sa == a.deep_view(),
            forall|k: int| 0 <= k < i ==> has_entry(b.deep_view(), sa[k].key, sa[k].amount),
        decreases a.len() - i,
    {
        if !has_native_entry(b, &a[i].denom, a[i].amount) {
            proof {
                assert(sa[i as int] == a@[i as int]@);
                assert(!has_entry(b.deep_view(), sa[i as int].key, sa[i as int].amount));
            }
            return false;
        }
        i = i + 1;
    }
    true
}

/// Does every (address, amount) pair of `a` occur in `b`?
fn cw20_entries_subset(a: &Vec<Cw20CoinVerified>, b: &Vec<Cw20CoinVerified>) -> (r: bool)
    ensures
        r == entries_subset(a.deep_view(), b.deep_view()),
{
    let ghost sa = a.deep_view();
    let mut i: usize = 0;
    while i < a.len()
        invariant
            i <= a.len(),
            sa == a.deep_view(),
            forall|k: int| 0 <= k < i ==> has_entry(b.deep_view(), sa[k].key, sa[k].amount),
        decreases a.len() - i,
    {
        if !has_cw20_entry(b, &a[i].address, a[i].amount) {
            proof {
                assert(sa[i as int] == a@[i as int]@);
                assert(!has_entry(b.deep_view(), sa[i as int].key, sa[i as int].amount));
            }
            return false;
        }
        i = i + 1;
    }
    true
}

impl GenericBalance {
    /// Set equality of holdings, the check order matching is decided by:
    /// both sides carry exactly the same (key, amount) pairs, in any order.
    pub fn set_equals(&self, other: &GenericBalance) -> (r: bool)
        ensures
            r == balance_set_eq(self@, other@),
    {
        native_entries_subset(&self.native, &other.native)
            && native_entries_subset(&other.native, &self.native)
            && cw20_entries_subset(&self.cw20, &other.cw20)
            && cw20_entries_subset(&other.cw20, &self.cw20)
    }
}

// ---------------------------------------------------------------------------
// Orders and the order store
// ---------------------------------------------------------------------------

/// Abstract value of an [`Order`].
#[verifier::ext_equal]
pub struct OrderV {
    pub maker_address: Seq<char>,
    pub maker_token: GenericBalanceV,
    pub taker_token: GenericBalanceV,
    pub target_address: Option<Seq<char>>,
    pub is_open: bool,
}

/// One escrow order: who opened it, what they deposited, what exactly must
/// be deposited to close it, an optional reserved taker, and whether it is
/// still open. Identifier, maker, balances and target never change after
/// creation; only the open flag flips, exactly once, at a successful close.
#[derive(Debug, PartialEq)]
pub struct Order {
    pub maker_address: String,
    pub maker_token: GenericBalance,
    pub taker_token: GenericBalance,
    pub target_address: Option<String>,
    pub is_open: bool,
}

impl View for Order {
    type V = OrderV;

    open spec fn view(&self) -> OrderV {
        OrderV {
            maker_address: self.maker_address@,
            maker_token: self.maker_token@,
            taker_token: self.taker_token@,
            target_address: self.target_address.deep_view(),
            is_open: self.is_open,
        }
    }
}

impl DeepView for Order {
    type V = OrderV;

    open spec fn deep_view(&self) -> OrderV {
        self@
    }
}

pub(crate) fn clone_opt_string(o: &Option<String>) -> (r: Option<String>)
    ensures
        r.deep_view() == o.deep_view(),
{
    match o {
        Some(s) => Some(s.clone()),
        None => None,
    }
}

impl Clone for Order {
    fn clone(&self) -> (res: Self)
        ensures
            res@ == self@,
    {
        Order {
            maker_address: self.maker_address.clone(),
            maker_token: self.maker_token.clone(),
            taker_token: self.taker_token.clone(),
            target_address: clone_opt_string(&self.target_address),
            is_open: self.is_open,
        }
    }
}

/// Abstract value of an [`OrderStore`].
#[verifier::ext_equal]
pub struct OrderStoreV {
    pub order_count: nat,
    pub orders: Seq<OrderV>,
}

/// The persistent state: every order ever opened, and the counter that
/// issues identifiers. The order opened by the `n`-th successful open holds
/// identifier `n` and sits at index `n - 1`; orders are never removed.
#[derive(Debug, PartialEq)]
pub struct OrderStore {
    pub order_count: u64,
    pub orders: Vec<Order>,
}

impl View for OrderStore {
    type V = OrderStoreV;

    open spec fn view(&self) -> OrderStoreV {
        OrderStoreV { order_count: self.order_count as nat, orders: self.orders.deep_view() }
    }
}

impl DeepView for OrderStore {
    type V = OrderStoreV;

    open spec fn deep_view(&self) -> OrderStoreV {
        self@
    }
}

/// The identifier counter always equals the number of orders filed.
pub open spec fn store_wf(s: OrderStoreV) -> bool {
    s.order_count == s.orders.len()
}

impl OrderStore {
    /// A store with no orders and the identifier counter at zero.
    pub fn new() -> (s: OrderStore)
        ensures
            s@.order_count == 0,
            s@.orders == Seq::<OrderV>::empty(),
            store_wf(s@),
    {
        let s = OrderStore { order_count: 0, orders: Vec::new() };
        proof {
            assert(s@.orders =~= Seq::<OrderV>::empty());
        }
        s
    }
}

/// Issue the next order identifier: one more than the count of previously
/// issued identifiers. The counter is bumped; the orders are untouched.
pub fn next_id(store: &mut OrderStore) -> (id: u64)
    requires
        old(store).order_count < u64::MAX,
    ensures
        id as nat == old(store)@.order_count + 1,
        final(store)@.order_count == id as nat,
        final(store)@.orders == old(store)@.orders,
{
    let id: u64 = store.order_count + 1;
    store.order_count = id;
    id
}

} // verus!
