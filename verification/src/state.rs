//! The persistent state of the minter: configuration, whitelist, pending
//! mint requests, and the supply counter, together with their spec-level
//! models and well-formedness conditions.

use vstd::prelude::*;

verus! {

/// True when `a` occurs in the address list `s`.
pub open spec fn contains_addr(s: Seq<Seq<char>>, a: Seq<char>) -> bool {
    exists|i: int| 0 <= i < s.len() && s[i] == a
}

/// True when no address occurs twice in `s`.
pub open spec fn distinct_addrs(s: Seq<Seq<char>>) -> bool {
    forall|i: int, j: int| 0 <= i < j < s.len() ==> s[i] != s[j]
}

/// True when no address keys two entries of the tally `t`.
pub open spec fn tally_keys_distinct(t: Seq<(Seq<char>, u128)>) -> bool {
    forall|i: int, j: int| 0 <= i < j < t.len() ==> t[i].0 != t[j].0
}

/// True when the tally `t` has an entry for `a`.
pub open spec fn tally_has(t: Seq<(Seq<char>, u128)>, a: Seq<char>) -> bool {
    exists|i: int| 0 <= i < t.len() && t[i].0 == a
}

/// The count the tally `t` records for `a`; addresses without an entry
/// count zero.
pub open spec fn tally_of(t: Seq<(Seq<char>, u128)>, a: Seq<char>) -> u128 {
    if tally_has(t, a) {
        t[choose|i: int| 0 <= i < t.len() && t[i].0 == a].1
    } else {
        0
    }
}

/// The model of an optional identity: the character sequence it holds, if
/// any.
pub open spec fn view_opt_string(o: Option<String>) -> Option<Seq<char>> {
    match o {
        Option::Some(s) => Option::Some(s@),
        Option::None => Option::None,
    }
}

/// The model of a list of identities: each as its character sequence.
pub open spec fn view_strings(s: Seq<String>) -> Seq<Seq<char>> {
    s.map_values(|a: String| a@)
}

/// The model of a tally held as pairs of identity and count.
pub open spec fn tally_view(t: Seq<(String, u128)>) -> Seq<(Seq<char>, u128)> {
    t.map_values(|p: (String, u128)| (p.0@, p.1))
}

/// The tally after one more request by `a`: the entry for `a` counts one
/// higher; an address without an entry starts at one.
pub open spec fn tally_bump(t: Seq<(Seq<char>, u128)>, a: Seq<char>) -> Seq<(Seq<char>, u128)> {
    if tally_has(t, a) {
        let i = choose|i: int| 0 <= i < t.len() && t[i].0 == a;
        t.update(i, (a, (t[i].1 + 1) as u128))
    } else {
        t.push((a, 1))
    }
}

/// Reads the count the tally records for `addr`.
#[verifier::loop_isolation(false)]
pub fn tally_lookup(t: &Vec<(String, u128)>, addr: &String) -> (c: u128)
    requires
        tally_keys_distinct(tally_view(t@)),
    ensures
        c == tally_of(tally_view(t@), addr@),
{
    let ghost tv = tally_view(t@);
    let n = t.len();
    let mut i: usize = 0;
    while i < n
        invariant
            i <= n,
            n == t.len(),
            tv == tally_view(t@),
            tally_keys_distinct(tv),
            forall|j: int| 0 <= j < i ==> tv[j].0 != addr@,
        decreases n - i,
    {
        if t[i].0 == *addr {
            proof {
                assert(tv[i as int].0 == addr@);
                let k = choose|k: int| 0 <= k < tv.len() && tv[k].0 == addr@;
                assert(k == i as int);
            }
            return t[i].1;
        }
        i = i + 1;
    }
    proof {
        assert(!tally_has(tv, addr@));
    }
    0
}

/// Records one more request by `addr` in the tally.
#[verifier::loop_isolation(false)]
pub fn tally_increment(t: &mut Vec<(String, u128)>, addr: &String)
    requires
        tally_keys_distinct(tally_view(old(t)@)),
        tally_of(tally_view(old(t)@), addr@) < u128::MAX,
    ensures
        tally_view(final(t)@) == tally_bump(tally_view(old(t)@), addr@),
        tally_keys_distinct(tally_view(final(t)@)),
{
    let ghost tv = tally_view(t@);
    let n = t.len();
    let mut i: usize = 0;
    while i < n
        invariant
            i <= n,
            n == t.len(),
            tv == tally_view(t@),
            tally_keys_distinct(tv),
            tally_of(tv, addr@) < u128::MAX,
            forall|j: int| 0 <= j < i ==> tv[j].0 != addr@,
        decreases n - i,
    {
        if t[i].0 == *addr {
            proof {
                assert(tv[i as int].0 == addr@);
                let k = choose|k: int| 0 <= k < tv.len() && tv[k].0 == addr@;
                assert(k == i as int);
                assert(tally_of(tv, addr@) == tv[i as int].1);
            }
            let c = t[i].1;
            let entry = (addr.clone(), c + 1);
            t[i] = entry;
            proof {
                assert(tally_view(t@) =~= tally_bump(tv, addr@));
                assert(forall|j: int|
                    0 <= j < tally_view(t@).len() ==> tally_view(t@)[j].0 == tv[j].0);
            }
            return ;
        }
        i = i + 1;
    }
    proof {
        assert(!tally_has(tv, addr@));
    }
    t.push((addr.clone(), 1));
    proof {
        assert(tally_view(t@) =~= tally_bump(tv, addr@));
        assert(forall|j: int| 0 <= j < tv.len() ==> tally_view(t@)[j] == tv[j]);
    }
}

/// The single mutable configuration record of a contract instance.
///
/// Amounts are denominated in `price_denom`; timestamps and durations are
/// in the host's time unit.  `mint_max`, the royalty fields,
/// `whitelist_mint_max`, and `whitelist_mint_price_amount` are optional
/// instantiation parameters.
#[derive(Clone)]
pub struct Config {
    /// Identity authorized to manage the whitelist and start minting.
    pub minter: String,
    /// Address of the target token collection (opaque to this core).
    pub nft_addr: String,
    /// Base URI of the collection (opaque to this core).
    pub nft_base_uri: String,
    /// Absolute ceiling on tokens ever minted.
    pub nft_max_supply: u128,
    /// Unit price for minting.
    pub nft_price_amount: u128,
    /// Identity authorized to change configuration, pause, and withdraw.
    pub owner: String,
    /// Whether minting is currently permitted at all.
    pub is_mintable: bool,
    /// Optional cap on pending requests held in the queue at once.
    pub mint_max: Option<u128>,
    /// Timestamp before which minting has not started.
    pub mint_start_time: u64,
    /// Symbol of the collection (opaque to this core).
    pub nft_symbol: String,
    /// Currency in which mint payments and withdrawals are settled.
    pub price_denom: String,
    /// Royalty pass-through metadata (opaque to this core).
    pub royalty_payment_address: Option<String>,
    /// Royalty pass-through metadata (opaque to this core).
    pub royalty_percentage: Option<u32>,
    /// Optional per-address cap on requests made during the whitelist
    /// window.
    pub whitelist_mint_max: Option<u128>,
    /// Length of the whitelist-only window that opens at
    /// `mint_start_time`.
    pub whitelist_mint_period: u64,
    /// Unit price during the whitelist window (informational).
    pub whitelist_mint_price_amount: Option<u128>,
    /// Owner-controlled emergency stop.
    pub paused: bool,
}

/// The spec-level model of a [`Config`]: identities as character
/// sequences, everything else as plain values.
#[verifier::ext_equal]
pub struct ConfigView {
    pub minter: Seq<char>,
    pub nft_addr: Seq<char>,
    pub nft_base_uri: Seq<char>,
    pub nft_max_supply: u128,
    pub nft_price_amount: u128,
    pub owner: Seq<char>,
    pub is_mintable: bool,
    pub mint_max: Option<u128>,
    pub mint_start_time: u64,
    pub nft_symbol: Seq<char>,
    pub price_denom: Seq<char>,
    pub royalty_payment_address: Option<Seq<char>>,
    pub royalty_percentage: Option<u32>,
    pub whitelist_mint_max: Option<u128>,
    pub whitelist_mint_period: u64,
    pub whitelist_mint_price_amount: Option<u128>,
    pub paused: bool,
}

impl View for Config {
    type V = ConfigView;

    open spec fn view(&self) -> ConfigView {
        ConfigView {
            minter: self.minter@,
            nft_addr: self.nft_addr@,
            nft_base_uri: self.nft_base_uri@,
            nft_max_supply: self.nft_max_supply,
            nft_price_amount: self.nft_price_amount,
            owner: self.owner@,
            is_mintable: self.is_mintable,
            mint_max: self.mint_max,
            mint_start_time: self.mint_start_time,
            nft_symbol: self.nft_symbol@,
            price_denom: self.price_denom@,
            royalty_payment_address: view_opt_string(self.royalty_payment_address),
            royalty_percentage: self.royalty_percentage,
            whitelist_mint_max: self.whitelist_mint_max,
            whitelist_mint_period: self.whitelist_mint_period,
            whitelist_mint_price_amount: self.whitelist_mint_price_amount,
            paused: self.paused,
        }
    }
}

/// Well-formedness of a configuration: both role identities are
/// non-empty, at least one token may exist, and the end of the whitelist
/// window does not overflow the timestamp type.
pub open spec fn config_wf(c: ConfigView) -> bool {
    &&& c.owner.len() > 0
    &&& c.minter.len() > 0
    &&& c.nft_max_supply >= 1
    &&& c.mint_start_time + c.whitelist_mint_period <= u64::MAX
}

/// The set of addresses permitted to mint during the whitelist window.
/// Membership is idempotent: adding a present address changes nothing.
#[derive(Clone)]
pub struct Whitelist {
    /// The member addresses, each held exactly once.
    pub addresses: Vec<String>,
}

impl View for Whitelist {
    type V = Seq<Seq<char>>;

    open spec fn view(&self) -> Seq<Seq<char>> {
        view_strings(self.addresses@)
    }
}

impl Whitelist {
    /// An empty whitelist.
    pub fn new() -> (w: Whitelist)
        ensures
            w@ == Seq::<Seq<char>>::empty(),
    {
        Whitelist { addresses: Vec::new() }
    }

    /// Whether `address` is a member.
    pub fn is_whitelisted(&self, address: &String) -> (r: bool)
        ensures
            r == contains_addr(self@, address@),
    {
        let n = self.addresses.len();
        let mut i: usize = 0;
        let mut found = false;
        while i < n
            invariant
                i <= n,
                n == self.addresses.len(),
                found == exists|j: int| 0 <= j < i && self.addresses@[j]@ == address@,
            decreases n - i,
        {
            if self.addresses[i] == *address {
                found = true;
            }
            i = i + 1;
        }
        proof {
            if found {
                let j = choose|j: int| 0 <= j < n && self.addresses@[j]@ == address@;
                assert(self@[j] == address@);
            }
            if contains_addr(self@, address@) {
                let j = choose|j: int| 0 <= j < self@.len() && self@[j] == address@;
                assert(self.addresses@[j]@ == address@);
            }
        }
        found
    }

    /// Adds `address` unless it is already a member; duplicates are
    /// silently ignored.
    pub fn add_address(&mut self, address: String)
        requires
            distinct_addrs(old(self)@),
        ensures
            distinct_addrs(final(self)@),
            contains_addr(old(self)@, address@) ==> final(self)@ == old(self)@,
            !contains_addr(old(self)@, address@) ==> final(self)@ == old(self)@.push(address@),
    {
        if !self.is_whitelisted(&address) {
            let ghost prior = self@;
            self.addresses.push(address);
            assert(self@ =~= prior.push(address@));
        }
    }

    /// The number of members.
    pub fn size(&self) -> (n: usize)
        ensures
            n == self@.len(),
    {
        self.addresses.len()
    }
}

/// One pending request to mint, created by a mint request and consumed,
/// oldest first, by a mint.
#[derive(Clone)]
pub struct MintRequest {
    /// The identity the requested token is for.
    pub addr: String,
}

impl View for MintRequest {
    type V = Seq<char>;

    open spec fn view(&self) -> Seq<char> {
        self.addr@
    }
}

/// The whole state of one contract instance.
#[derive(Clone)]
pub struct MinterState {
    /// The singleton configuration record.
    pub config: Config,
    /// Addresses allowed to mint during the whitelist window.
    pub whitelist: Whitelist,
    /// Pending mint requests, oldest first; the position in this queue is
    /// the request's index.
    pub requests: Vec<MintRequest>,
    /// Number of tokens minted so far; monotone, never above
    /// `config.nft_max_supply`.
    pub supply: u128,
    /// How many requests each address has made during the whitelist
    /// window, for the `whitelist_mint_max` cap.
    pub whitelist_tally: Vec<(String, u128)>,
}

/// The spec-level model of a [`MinterState`].
#[verifier::ext_equal]
pub struct StateView {
    pub config: ConfigView,
    pub whitelist: Seq<Seq<char>>,
    pub requests: Seq<Seq<char>>,
    pub supply: u128,
    pub whitelist_tally: Seq<(Seq<char>, u128)>,
}

impl View for MinterState {
    type V = StateView;

    open spec fn view(&self) -> StateView {
        StateView {
            config: self.config@,
            whitelist: self.whitelist@,
            requests: self.requests@.map_values(|r: MintRequest| r@),
            supply: self.supply,
            whitelist_tally: tally_view(self.whitelist_tally@),
        }
    }
}

/// Well-formedness of the whole state.  Beyond a well-formed
/// configuration it pins the two supply invariants: the counter never
/// exceeds the maximum supply, and — reservation semantics — counter plus
/// pending requests never exceed it either, so every queued request has a
/// supply slot.  The whitelist and the tally hold each address at most
/// once.
pub open spec fn state_wf(s: StateView) -> bool {
    &&& config_wf(s.config)
    &&& s.supply <= s.config.nft_max_supply
    &&& s.supply + s.requests.len() <= s.config.nft_max_supply
    &&& distinct_addrs(s.whitelist)
    &&& tally_keys_distinct(s.whitelist_tally)
}

/// Decides whether a list of identities holds no identity twice.
#[verifier::loop_isolation(false)]
fn strings_distinct(v: &Vec<String>) -> (r: bool)
    ensures
        r == distinct_addrs(view_strings(v@)),
{
    let ghost sv = view_strings(v@);
    let n = v.len();
    let mut i: usize = 0;
    while i < n
        invariant
            i <= n,
            forall|p: int, q: int| 0 <= p < q < n && p < i ==> sv[p] != sv[q],
        decreases n - i,
    {
        let mut j: usize = i + 1;
        while j < n
            invariant
                i < j <= n,
                forall|q: int| i < q < j ==> sv[i as int] != sv[q],
            decreases n - j,
        {
            if v[i] == v[j] {
                proof {
                    assert(sv[i as int] == sv[j as int]);
                }
                return false;
            }
            j = j + 1;
        }
        i = i + 1;
    }
    true
}

/// Decides whether a tally holds no identity twice.
#[verifier::loop_isolation(false)]
fn tally_distinct(v: &Vec<(String, u128)>) -> (r: bool)
    ensures
        r == tally_keys_distinct(tally_view(v@)),
{
    let ghost tv = tally_view(v@);
    let n = v.len();
    let mut i: usize = 0;
    while i < n
        invariant
            i <= n,
            forall|p: int, q: int| 0 <= p < q < n && p < i ==> tv[p].0 != tv[q].0,
        decreases n - i,
    {
        let mut j: usize = i + 1;
        while j < n
            invariant
                i < j <= n,
                forall|q: int| i < q < j ==> tv[i as int].0 != tv[q].0,
            decreases n - j,
        {
            if v[i].0 == v[j].0 {
                proof {
                    assert(tv[i as int].0 == tv[j as int].0);
                }
                return false;
            }
            j = j + 1;
        }
        i = i + 1;
    }
    true
}

/// Decides whether a state is well-formed, exactly as [`state_wf`]
/// defines it.  A host that reloads a state from untrusted persistence
/// can gate on this before handing the state back to the workflow.
pub fn check_wf(state: &MinterState) -> (r: bool)
    ensures
        r == state_wf(state@),
{
    let config_ok = !state.config.owner.as_str().is_empty()
        && !state.config.minter.as_str().is_empty() && state.config.nft_max_supply >= 1
        && state.config.whitelist_mint_period <= u64::MAX - state.config.mint_start_time;
    if !config_ok {
        return false;
    }
    if state.supply > state.config.nft_max_supply {
        return false;
    }
    if (state.requests.len() as u128) > state.config.nft_max_supply - state.supply {
        return false;
    }
    strings_distinct(&state.whitelist.addresses) && tally_distinct(&state.whitelist_tally)
}

} // verus!
