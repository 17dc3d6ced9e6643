//! The default setup of Ethereum mainnet, loaded on first use.
//!
//! The cache is an ordinary value that the application owns and hands to
//! each call: one slot for each precompute level, filled the first time that
//! level is asked for. At a level above 0 the settings hold fixed-base
//! tables of that window width, which make the proofs of cells faster at the
//! cost of memory; these are the only settings with tables.

use vstd::prelude::*;
use std::sync::Arc;
use crate::constants::MAX_PRECOMPUTE;
use crate::engine::{embedded_context, embedded_setup};
use crate::settings::{width_of, KZGSettings};

verus! {

/// Hands out a second handle to the same settings: `Arc::clone`.
#[verifier::external_body]
fn share(settings: &Arc<KZGSettings>) -> (r: Arc<KZGSettings>)
    ensures
        r == *settings,
{
    Arc::clone(settings)
}

/// One slot for each precompute level from 0 to 15.
pub struct SettingsCache {
    slots: Vec<Option<Arc<KZGSettings>>>,
}

impl SettingsCache {
    #[verifier::type_invariant]
    spec fn well_formed(self) -> bool {
        &&& self.slots@.len() == MAX_PRECOMPUTE + 1
        &&& forall|p: int|
            0 <= p < self.slots@.len() ==> ((#[trigger] self.slots@[p]) matches Some(s) ==> {
                &&& s.spec_precompute() == p
                &&& s@ == embedded_setup(width_of(p as u64))
            })
    }

    /// What the slot of a level holds.
    pub closed spec fn slot(&self, precompute: u64) -> Option<Arc<KZGSettings>> {
        if precompute < self.slots@.len() {
            self.slots@[precompute as int]
        } else {
            None
        }
    }

    /// A cache with every slot empty.
    pub fn new() -> (r: Self)
        ensures
            forall|p: u64| r.slot(p) is None,
    {
        let mut slots: Vec<Option<Arc<KZGSettings>>> = Vec::new();
        let mut i: u64 = 0;
        while i <= MAX_PRECOMPUTE
            invariant
                0 <= i <= MAX_PRECOMPUTE + 1,
                slots@.len() == i,
                forall|p: int| 0 <= p < slots@.len() ==> slots@[p] is None,
            decreases MAX_PRECOMPUTE + 1 - i,
        {
            slots.push(None);
            i = i + 1;
        }
        SettingsCache { slots }
    }

    /// Whether the settings of a level have been loaded.
    pub fn is_loaded(&self, precompute: u64) -> (r: bool)
        ensures
            r == self.slot(precompute) is Some,
    {
        proof {
            use_type_invariant(self);
        }
        if precompute > MAX_PRECOMPUTE {
            return false;
        }
        self.slots[precompute as usize].is_some()
    }
}

/// The default settings for a precompute level, loaded into the cache if
/// this is the first time that level is asked for. Later calls hand out the
/// same settings; no other slot is touched.
pub fn ethereum_kzg_settings_inner(cache: &mut SettingsCache, precompute: u64) -> (r: Arc<
    KZGSettings,
>)
    requires
        precompute <= MAX_PRECOMPUTE,
    ensures
        final(cache).slot(precompute) == Some(r),
        old(cache).slot(precompute) matches Some(s) ==> r == s,
        forall|q: u64| q != precompute ==> final(cache).slot(q) == old(cache).slot(q),
        r.spec_precompute() == precompute,
        r@ == embedded_setup(width_of(precompute)),
{
    proof {
        use_type_invariant(&*cache);
    }
    let index: usize = precompute as usize;
    match &cache.slots[index] {
        Some(s) => {
            return share(s);
        },
        None => {},
    }
    let width: Option<usize> = if precompute == 0 {
        None
    } else {
        Some(precompute as usize)
    };
    let loaded = Arc::new(KZGSettings::from_context(embedded_context(width), precompute));
    let handle = share(&loaded);
    let mut slots: Vec<Option<Arc<KZGSettings>>> = Vec::new();
    let mut i: usize = 0;
    while i < cache.slots.len()
        invariant
            0 <= i <= cache.slots@.len(),
            cache.slots@.len() == MAX_PRECOMPUTE + 1,
            slots@.len() == i,
            forall|p: int| 0 <= p < i && p != index ==> slots@[p] == cache.slots@[p],
            forall|p: int| 0 <= p < i && p == index ==> slots@[p] is None,
        decreases cache.slots@.len() - i,
    {
        let entry: Option<Arc<KZGSettings>> = if i == index {
            None
        } else {
            match &cache.slots[i] {
                Some(s) => Some(share(s)),
                None => None,
            }
        };
        slots.push(entry);
        i = i + 1;
    }
    slots.set(index, Some(loaded));
    *cache = SettingsCache { slots };
    handle
}

/// The default settings of Ethereum mainnet as a shared handle.
///
/// Precompute levels 0 to 15 are supported.
pub fn ethereum_kzg_settings_arc(cache: &mut SettingsCache, precompute: u64) -> (r: Arc<
    KZGSettings,
>)
    requires
        precompute <= MAX_PRECOMPUTE,
    ensures
        final(cache).slot(precompute) == Some(r),
        old(cache).slot(precompute) matches Some(s) ==> r == s,
        forall|q: u64| q != precompute ==> final(cache).slot(q) == old(cache).slot(q),
        r.spec_precompute() == precompute,
        r@ == embedded_setup(width_of(precompute)),
{
    ethereum_kzg_settings_inner(cache, precompute)
}

/// The default settings of Ethereum mainnet, borrowed from the cache.
///
/// Use `ethereum_kzg_settings_arc` for a handle that outlives the borrow.
/// Precompute levels 0 to 15 are supported.
pub fn ethereum_kzg_settings<'a>(cache: &'a mut SettingsCache, precompute: u64) -> (r:
    &'a KZGSettings)
    requires
        precompute <= MAX_PRECOMPUTE,
    ensures
        final(cache).slot(precompute) matches Some(s) && *s == *r,
        old(cache).slot(precompute) matches Some(s) ==> *r == *s,
        forall|q: u64| q != precompute ==> final(cache).slot(q) == old(cache).slot(q),
        r.spec_precompute() == precompute,
        r@ == embedded_setup(width_of(precompute)),
{
    let _ = ethereum_kzg_settings_inner(cache, precompute);
    proof {
        use_type_invariant(&*cache);
    }
    match &cache.slots[precompute as usize] {
        Some(s) => &**s,
        None => vstd::pervasive::unreached(),
    }
}

} // verus!
