//! Commodities: what the player picks up, what a destination pays for it,
//! and the settlement on arrival.

use vstd::prelude::*;
use indexmap::IndexMap;
use crate::geometry::{dist_sq, distance_squared, Vec2};
use crate::random::{
    choose_indices, random_below, random_bool, random_circular_distribution,
    random_u32_subdivisions, total_of,
};

verus! {

/// The number of commodity kinds.
pub const KINDS: u8 = 9;

/// The multiplier, in tenths, of a commodity that a price sheet does not list.
pub const NEUTRAL_MULTIPLIER: u32 = 10;

/// The lowest multiplier, in tenths, that a price sheet holds.
pub const MIN_MULTIPLIER: u32 = 5;

/// The highest multiplier, in tenths, that a price sheet holds.
pub const MAX_MULTIPLIER: u32 = 15;

/// The player picks up a commodity that is nearer than this.
pub const PICKUP_RADIUS: u64 = 20_000;

/// The number of commodities in a level.
pub const COMMODITIES_PER_LEVEL: u32 = 3;

/// What the commodities of a level add up to.
pub const COMMODITY_TOTAL: u32 = 100;

/// The least amount of one commodity.
pub const COMMODITY_MIN: u32 = 20;

/// The least distance of a commodity from the origin.
pub const COMMODITY_NEAR: u32 = 1_500_000;

/// The distance from the origin that no commodity reaches.
pub const COMMODITY_FAR: u32 = 2_500_000;

/// The least angle between two neighbours of a layout, in degrees.
pub const LAYOUT_GAP: u32 = 80;

/// The full circle, in degrees.
pub const FULL_CIRCLE: u32 = 360;

/// What a commodity is.
#[derive(Clone, Copy, Debug, PartialEq, Eq, Hash, Structural)]
pub enum CommodityKind {
    Tungsten,
    Gallium,
    Thorium,
    Water,
    Organic,
    Crystal,
    Nitrate,
    Goods,
    Food,
}

/// A commodity that floats in the level.
#[derive(Clone, Copy, Debug, PartialEq, Eq, Structural)]
pub struct Commodity {
    pub id: u64,
    pub position: Vec2,
    pub kind: CommodityKind,
    pub amount: u32,
}

/// Where a commodity is to be put when a level is set up: what it is, and
/// its place as an angle in degrees and a distance from the origin.
#[derive(Clone, Copy, Debug, PartialEq, Eq, Structural)]
pub struct CommodityPlacement {
    pub kind: CommodityKind,
    pub amount: u32,
    pub angle: u32,
    pub distance: u32,
}

/// What the player holds of each kind: one quantity per kind, at the kind's
/// index.
#[derive(Clone, Debug)]
pub struct CommodityInventory {
    pub quantities: Vec<u32>,
}

/// What a destination pays: for some kinds a multiplier in tenths, in the
/// order in which they were entered.
#[derive(Debug)]
pub struct CommodityPrices {
    sheet: IndexMap<u8, u32>,
}

/// Trusted: makes `indexmap::IndexMap`, an outside type, known to the
/// verifier as an opaque type.
#[verifier::external_type_specification]
#[verifier::external_body]
#[verifier::reject_recursive_types(K)]
#[verifier::reject_recursive_types(V)]
#[verifier::reject_recursive_types(S)]
pub struct ExIndexMap<K, V, S>(IndexMap<K, V, S>);

/// The key-value pairs that a price sheet's map holds, in the order in which
/// the map keeps them.
pub uninterp spec fn price_entries(sheet: IndexMap<u8, u32>) -> Seq<(u8, u32)>;

/// An empty map.
///
/// Trusted: calls `IndexMap::new`, which makes a map without pairs.
#[verifier::external_body]
fn sheet_new() -> (sheet: IndexMap<u8, u32>)
    ensures
        price_entries(sheet) == Seq::<(u8, u32)>::empty(),
{
    IndexMap::new()
}

/// Enters `value` under `key`.
///
/// Trusted: calls `IndexMap::insert`. Where the map holds the key already,
/// the pair keeps its place, takes the new value, and the old value is
/// returned; where it does not, the pair is put last and nothing is
/// returned.
#[verifier::external_body]
fn sheet_insert(sheet: &mut IndexMap<u8, u32>, key: u8, value: u32) -> (r: Option<u32>)
    ensures
        holds_key(price_entries(*old(sheet)), key) ==> r == Some(
            price_entries(*old(sheet))[position_of(price_entries(*old(sheet)), key)].1,
        ) && price_entries(*final(sheet)) == price_entries(*old(sheet)).update(
            position_of(price_entries(*old(sheet)), key),
            (key, value),
        ),
        !holds_key(price_entries(*old(sheet)), key) ==> r is None && price_entries(*final(sheet))
            == price_entries(*old(sheet)).push((key, value)),
{
    sheet.insert(key, value)
}

/// The value entered under `key`, if there is one.
///
/// Trusted: calls `IndexMap::get`, which returns the value of the pair with
/// that key, or nothing where the map holds no such pair.
#[verifier::external_body]
fn sheet_get(sheet: &IndexMap<u8, u32>, key: u8) -> (r: Option<u32>)
    ensures
        r == value_of(price_entries(*sheet), key),
{
    sheet.get(&key).copied()
}

/// The pairs of the map, in the order in which the map keeps them.
///
/// Trusted: calls `IndexMap::iter`, which walks the pairs in their order,
/// and copies each pair out.
#[verifier::external_body]
fn sheet_pairs(sheet: &IndexMap<u8, u32>) -> (r: Vec<(u8, u32)>)
    ensures
        r@ == price_entries(*sheet),
{
    sheet.iter().map(|(key, value)| (*key, *value)).collect()
}

/// A copy of the map.
///
/// Trusted: calls `IndexMap::clone`, which copies the pairs in their order.
#[verifier::external_body]
fn sheet_clone(sheet: &IndexMap<u8, u32>) -> (r: IndexMap<u8, u32>)
    ensures
        price_entries(r) == price_entries(*sheet),
{
    sheet.clone()
}

/// The index of the first pair from `from` on that has the key `key`, or the
/// length of `entries` where there is none.
pub open spec fn position_from(entries: Seq<(u8, u32)>, key: u8, from: int) -> int
    decreases entries.len() - from,
{
    if from < 0 || from >= entries.len() {
        entries.len() as int
    } else if entries[from].0 == key {
        from
    } else {
        position_from(entries, key, from + 1)
    }
}

/// The index of the first pair that has the key `key`, or the length of
/// `entries` where there is none.
pub open spec fn position_of(entries: Seq<(u8, u32)>, key: u8) -> int {
    position_from(entries, key, 0)
}

/// Whether some pair has the key `key`.
pub open spec fn holds_key(entries: Seq<(u8, u32)>, key: u8) -> bool {
    position_of(entries, key) < entries.len()
}

/// The value of the first pair that has the key `key`.
pub open spec fn value_of(entries: Seq<(u8, u32)>, key: u8) -> Option<u32> {
    if holds_key(entries, key) {
        Some(entries[position_of(entries, key)].1)
    } else {
        None
    }
}

/// The multiplier, in tenths, that the pairs give for `key`: the neutral one
/// where they do not list it.
pub open spec fn multiplier_in(entries: Seq<(u8, u32)>, key: u8) -> u32 {
    match value_of(entries, key) {
        Some(v) => v,
        None => NEUTRAL_MULTIPLIER,
    }
}

/// The pairs after `value` has been entered under `key`.
pub open spec fn with_entry(entries: Seq<(u8, u32)>, key: u8, value: u32) -> Seq<(u8, u32)> {
    if holds_key(entries, key) {
        entries.update(position_of(entries, key), (key, value))
    } else {
        entries.push((key, value))
    }
}

/// The multiplier, in tenths, that a draw stands for: `step` tenths above
/// the neutral one where `raise` holds, else as much below it.
pub open spec fn drawn_multiplier(draw: (bool, u32)) -> u32 {
    if draw.0 { (NEUTRAL_MULTIPLIER + draw.1) as u32 } else { (NEUTRAL_MULTIPLIER - draw.1) as u32 }
}

/// The pairs after the first `n` kinds have been entered with the
/// multipliers of their draws.
pub open spec fn sheet_of(kinds: Seq<CommodityKind>, draws: Seq<(bool, u32)>, n: int) -> Seq<(u8, u32)>
    decreases n,
{
    if n <= 0 {
        Seq::empty()
    } else {
        with_entry(sheet_of(kinds, draws, n - 1), kinds[n - 1].ord(), drawn_multiplier(draws[n - 1]))
    }
}

/// What `quantity` units sell for at a multiplier of `tenths` tenths:
/// the product, rounded to the nearest whole credit, halves upward.
pub open spec fn price_of(quantity: u32, tenths: u32) -> int {
    (quantity * tenths + 5) / 10
}

/// What the first `n` kinds of the holdings sell for.
pub open spec fn sale_total(quantities: Seq<u32>, entries: Seq<(u8, u32)>, n: int) -> int
    decreases n,
{
    if n <= 0 {
        0
    } else {
        sale_total(quantities, entries, n - 1) + price_of(
            quantities[n - 1],
            multiplier_in(entries, (n - 1) as u8),
        )
    }
}

/// The sum `a + b`, kept at the largest `u64` where it does not fit.
pub open spec fn credit_sum(a: int, b: int) -> int {
    if a + b > u64::MAX { u64::MAX as int } else { a + b }
}

impl CommodityKind {
    /// The place of the kind among the kinds, from 0.
    pub open spec fn ord(self) -> u8 {
        match self {
            CommodityKind::Tungsten => 0,
            CommodityKind::Gallium => 1,
            CommodityKind::Thorium => 2,
            CommodityKind::Water => 3,
            CommodityKind::Organic => 4,
            CommodityKind::Crystal => 5,
            CommodityKind::Nitrate => 6,
            CommodityKind::Goods => 7,
            CommodityKind::Food => 8,
        }
    }

    /// The place of the kind among the kinds, from 0.
    pub fn index(self) -> (r: u8)
        ensures
            r == self.ord(),
            r < KINDS,
    {
        match self {
            CommodityKind::Tungsten => 0,
            CommodityKind::Gallium => 1,
            CommodityKind::Thorium => 2,
            CommodityKind::Water => 3,
            CommodityKind::Organic => 4,
            CommodityKind::Crystal => 5,
            CommodityKind::Nitrate => 6,
            CommodityKind::Goods => 7,
            CommodityKind::Food => 8,
        }
    }

    /// The kind at the place `index`, if there is one.
    pub fn from_index(index: u8) -> (r: Option<CommodityKind>)
        ensures
            index < KINDS ==> r is Some && r->0.ord() == index,
            index >= KINDS ==> r is None,
    {
        match index {
            0 => Some(CommodityKind::Tungsten),
            1 => Some(CommodityKind::Gallium),
            2 => Some(CommodityKind::Thorium),
            3 => Some(CommodityKind::Water),
            4 => Some(CommodityKind::Organic),
            5 => Some(CommodityKind::Crystal),
            6 => Some(CommodityKind::Nitrate),
            7 => Some(CommodityKind::Goods),
            8 => Some(CommodityKind::Food),
            _ => None,
        }
    }
}

/// Whether the commodity is near enough to the player to be picked up.
pub open spec fn in_reach(c: Commodity, player: Vec2) -> bool {
    dist_sq(c.position, player) < PICKUP_RADIUS * PICKUP_RADIUS
}

/// How much of the kind at index `kind` lies in reach of the player among
/// the first `n` commodities.
pub open spec fn gathered(commodities: Seq<Commodity>, player: Vec2, kind: int, n: int) -> int
    decreases n,
{
    if n <= 0 {
        0
    } else {
        gathered(commodities, player, kind, n - 1) + if in_reach(commodities[n - 1], player)
            && commodities[n - 1].kind.ord() == kind {
            commodities[n - 1].amount as int
        } else {
            0
        }
    }
}

/// The sum `a + b`, kept at the largest `u32` where it does not fit.
pub open spec fn quantity_sum(a: int, b: int) -> int {
    if a + b > u32::MAX { u32::MAX as int } else { a + b }
}

impl CommodityInventory {
    /// An inventory is valid when it has one quantity for each kind.
    pub open spec fn wf(self) -> bool {
        self.quantities@.len() == KINDS
    }

    /// The quantity held of `kind`.
    pub open spec fn held(self, kind: CommodityKind) -> u32 {
        self.quantities@[kind.ord() as int]
    }

    /// Whether nothing is held of any kind.
    pub open spec fn is_empty(self) -> bool {
        forall|k: int| 0 <= k < self.quantities@.len() ==> self.quantities@[k] == 0
    }

    /// An inventory that holds nothing.
    pub fn new() -> (inv: CommodityInventory)
        ensures
            inv.wf(),
            inv.is_empty(),
    {
        let mut quantities: Vec<u32> = Vec::new();
        let mut k: u8 = 0;
        while k < KINDS
            invariant
                k <= KINDS,
                quantities@.len() == k,
                forall|j: int| 0 <= j < quantities@.len() ==> quantities@[j] == 0,
            decreases KINDS - k,
        {
            quantities.push(0);
            k = k + 1;
        }
        CommodityInventory { quantities }
    }

    /// Whether the inventory is valid: it has one quantity for each kind.
    pub fn is_valid(&self) -> (r: bool)
        ensures
            r == self.wf(),
    {
        self.quantities.len() == KINDS as usize
    }

    /// The quantity held of `kind`.
    pub fn quantity(&self, kind: CommodityKind) -> (r: u32)
        requires
            self.wf(),
        ensures
            r == self.held(kind),
    {
        self.quantities[kind.index() as usize]
    }

    /// Adds `amount` to what is held of `kind`; a quantity that would
    /// leave `u32` stays at its largest value.
    pub fn add(&mut self, kind: CommodityKind, amount: u32)
        requires
            old(self).wf(),
        ensures
            final(self).wf(),
            final(self).quantities@ == old(self).quantities@.update(
                kind.ord() as int,
                quantity_sum(old(self).held(kind) as int, amount as int) as u32,
            ),
    {
        let at: usize = kind.index() as usize;
        let sum: u32 = self.quantities[at].saturating_add(amount);
        self.quantities.set(at, sum);
    }
}

/// The amounts of the placements, in their order.
pub open spec fn amounts_of(plan: Seq<CommodityPlacement>) -> Seq<u32> {
    plan.map_values(|p: CommodityPlacement| p.amount)
}

/// Lays out the commodities of a level at random: three of different
/// kinds, whose amounts add up to a hundred with at least twenty of each, at
/// rising angles that are at least eighty degrees apart, each at its own
/// distance from the origin.
pub fn setup() -> (plan: Vec<CommodityPlacement>)
    ensures
        plan@.len() == COMMODITIES_PER_LEVEL,
        total_of(amounts_of(plan@)) == COMMODITY_TOTAL,
        forall|i: int|
            0 <= i < plan@.len() ==> {
                &&& (#[trigger] plan@[i]).amount >= COMMODITY_MIN
                &&& COMMODITY_NEAR <= plan@[i].distance < COMMODITY_FAR
                &&& plan@[i].angle < FULL_CIRCLE
            },
        forall|i: int, j: int|
            0 <= i < j < plan@.len() ==> (#[trigger] plan@[i]).kind != (#[trigger] plan@[j]).kind
                && plan@[i].angle + LAYOUT_GAP <= plan@[j].angle,
{
    let amounts: Vec<u32> = random_u32_subdivisions(COMMODITIES_PER_LEVEL, COMMODITY_TOTAL, COMMODITY_MIN);
    let picked: Vec<u8> = choose_indices(KINDS, COMMODITIES_PER_LEVEL as usize);
    let angles: Vec<u32> = random_circular_distribution(COMMODITIES_PER_LEVEL, LAYOUT_GAP, FULL_CIRCLE);
    let mut plan: Vec<CommodityPlacement> = Vec::new();
    let mut i: usize = 0;
    assert(amounts_of(plan@) =~= amounts@.take(0));
    while i < COMMODITIES_PER_LEVEL as usize
        invariant
            i <= COMMODITIES_PER_LEVEL,
            amounts@.len() == COMMODITIES_PER_LEVEL,
            picked@.len() == COMMODITIES_PER_LEVEL,
            angles@.len() == COMMODITIES_PER_LEVEL,
            plan@.len() == i,
            forall|k: int| 0 <= k < picked@.len() ==> picked@[k] < KINDS,
            forall|k: int| 0 <= k < amounts@.len() ==> amounts@[k] >= COMMODITY_MIN,
            amounts_of(plan@) == amounts@.take(i as int),
            forall|k: int|
                0 <= k < i ==> {
                    &&& (#[trigger] plan@[k]).kind.ord() == picked@[k]
                    &&& plan@[k].amount == amounts@[k]
                    &&& plan@[k].angle == angles@[k]
                    &&& COMMODITY_NEAR <= plan@[k].distance < COMMODITY_FAR
                },
        decreases COMMODITIES_PER_LEVEL - i,
    {
        let distance: u32 = random_below(COMMODITY_NEAR, COMMODITY_FAR);
        match CommodityKind::from_index(picked[i]) {
            Some(kind) => {
                plan.push(CommodityPlacement { kind, amount: amounts[i], angle: angles[i], distance });
            },
            None => {
                assert(false);
            },
        }
        assert(amounts_of(plan@) =~= amounts@.take(i + 1));
        i = i + 1;
    }
    proof {
        assert(amounts@.take(COMMODITIES_PER_LEVEL as int) =~= amounts@);
        assert forall|a: int, b: int| 0 <= a < b < plan@.len() implies (#[trigger] plan@[a]).kind != (
        #[trigger] plan@[b]).kind && plan@[a].angle + LAYOUT_GAP <= plan@[b].angle by {
            assert(picked@[a] != picked@[b]);
            assert(angles@[a + 1] >= angles@[a] + LAYOUT_GAP);
            if b == a + 2 {
                assert(angles@[a + 1 + 1] >= angles@[a + 1] + LAYOUT_GAP);
            }
        }
        assert forall|a: int| 0 <= a < plan@.len() implies (#[trigger] plan@[a]).angle < FULL_CIRCLE by {
            assert(angles@[a] + (COMMODITIES_PER_LEVEL - 1 - a) * LAYOUT_GAP < FULL_CIRCLE);
            assert((COMMODITIES_PER_LEVEL - 1 - a) * LAYOUT_GAP >= 0) by (nonlinear_arith)
                requires
                    0 <= a < COMMODITIES_PER_LEVEL,
            ;
        }
    }
    plan
}

/// Moves every commodity that lies in reach of the player into the
/// inventory. The commodities that are left keep their order; the handles of
/// those that were picked up are returned in theirs.
pub fn pickup(commodities: &mut Vec<Commodity>, player: Vec2, inventory: &mut CommodityInventory) -> (picked: Vec<u64>)
    requires
        old(inventory).wf(),
    ensures
        final(inventory).wf(),
        final(commodities)@ == old(commodities)@.filter(|c: Commodity| !in_reach(c, player)),
        picked@ == old(commodities)@.filter(|c: Commodity| in_reach(c, player)).map_values(
            |c: Commodity| c.id,
        ),
        forall|k: int|
            0 <= k < KINDS ==> #[trigger] final(inventory).quantities@[k] == quantity_sum(
                old(inventory).quantities@[k] as int,
                gathered(old(commodities)@, player, k, old(commodities)@.len() as int),
            ),
{
    let ghost near = |c: Commodity| in_reach(c, player);
    let ghost far = |c: Commodity| !in_reach(c, player);
    let ghost id_of = |c: Commodity| c.id;
    let ghost all = commodities@;
    let ghost before = inventory.quantities@;
    let mut kept: Vec<Commodity> = Vec::new();
    let mut picked: Vec<u64> = Vec::new();
    let mut i: usize = 0;
    assert(all.take(0) =~= Seq::<Commodity>::empty());
    assert(all.take(0).filter(near).map_values(id_of) =~= Seq::<u64>::empty());
    while i < commodities.len()
        invariant
            i <= all.len(),
            commodities@ == all,
            near == (|c: Commodity| in_reach(c, player)),
            far == (|c: Commodity| !in_reach(c, player)),
            id_of == (|c: Commodity| c.id),
            inventory.wf(),
            before.len() == KINDS,
            kept@ == all.take(i as int).filter(far),
            picked@ == all.take(i as int).filter(near).map_values(id_of),
            forall|k: int|
                0 <= k < KINDS ==> #[trigger] inventory.quantities@[k] == quantity_sum(
                    before[k] as int,
                    gathered(all, player, k, i as int),
                ),
            forall|k: int| 0 <= k < KINDS ==> gathered(all, player, k, i as int) >= 0,
        decreases all.len() - i,
    {
        let c: Commodity = commodities[i];
        assert(PICKUP_RADIUS * PICKUP_RADIUS == 400_000_000) by (nonlinear_arith)
            requires
                PICKUP_RADIUS == 20_000,
        ;
        let reach: u128 = (PICKUP_RADIUS as u128) * (PICKUP_RADIUS as u128);
        proof {
            all.lemma_take_succ_push(i as int);
            all.take(i as int).lemma_filter_push(c, near);
            all.take(i as int).lemma_filter_push(c, far);
            let next: int = i + 1;
            assert forall|k: int| 0 <= k < KINDS implies #[trigger] gathered(all, player, k, next)
                >= 0 by {
                assert(gathered(all, player, k, i as int) >= 0);
            }
        }
        if distance_squared(c.position, player) < reach {
            inventory.add(c.kind, c.amount);
            picked.push(c.id);
            assert(picked@ =~= all.take(i + 1).filter(near).map_values(id_of));
        } else {
            kept.push(c);
        }
        i = i + 1;
    }
    assert(all.take(all.len() as int) =~= all);
    *commodities = kept;
    picked
}

/// Sells everything in the inventory at the sheet's prices: each kind's
/// quantity times its multiplier, rounded to the nearest credit, is added to
/// `credits`, and the inventory is left empty. Credits that would leave
/// `u64` stay at its largest value.
pub fn sell(credits: &mut u64, inventory: &mut CommodityInventory, prices: &CommodityPrices)
    requires
        old(inventory).wf(),
    ensures
        final(inventory).wf(),
        final(inventory).is_empty(),
        *final(credits) == credit_sum(
            *old(credits) as int,
            sale_total(old(inventory).quantities@, prices@, KINDS as int),
        ),
{
    let ghost held = inventory.quantities@;
    let ghost start = *credits;
    let mut k: u8 = 0;
    while k < KINDS
        invariant
            k <= KINDS,
            inventory.wf(),
            held.len() == KINDS,
            forall|j: int| 0 <= j < k ==> inventory.quantities@[j] == 0,
            forall|j: int| k <= j < KINDS ==> inventory.quantities@[j] == held[j],
            0 <= sale_total(held, prices@, k as int),
            *credits == credit_sum(start as int, sale_total(held, prices@, k as int)),
        decreases KINDS - k,
    {
        let quantity: u32 = inventory.quantities[k as usize];
        let tenths: u32 = match sheet_get(&prices.sheet, k) {
            Some(v) => v,
            None => NEUTRAL_MULTIPLIER,
        };
        assert(quantity * tenths <= 0xffff_ffff * 0xffff_ffff) by (nonlinear_arith)
            requires
                quantity <= 0xffff_ffff,
                tenths <= 0xffff_ffff,
        ;
        let price: u64 = ((quantity as u64) * (tenths as u64) + 5) / 10;
        *credits = credits.saturating_add(price);
        inventory.quantities.set(k as usize, 0);
        k = k + 1;
    }
}

impl View for CommodityPrices {
    type V = Seq<(u8, u32)>;

    closed spec fn view(&self) -> Seq<(u8, u32)> {
        price_entries(self.sheet)
    }
}

impl CommodityPrices {
    /// A price sheet is valid when it lists kinds that exist, none of them
    /// twice, each with a multiplier from one half to one and a half.
    pub open spec fn wf(self) -> bool {
        &&& forall|i: int|
            0 <= i < self@.len() ==> (#[trigger] self@[i]).0 < KINDS && MIN_MULTIPLIER
                <= self@[i].1 <= MAX_MULTIPLIER
        &&& forall|i: int, j: int|
            0 <= i < j < self@.len() ==> (#[trigger] self@[i]).0 != (#[trigger] self@[j]).0
    }

    /// The multiplier, in tenths, that the sheet gives for `kind`.
    pub open spec fn multiplier_of(self, kind: CommodityKind) -> u32 {
        multiplier_in(self@, kind.ord())
    }

    /// A price sheet that lists nothing.
    pub fn new() -> (p: CommodityPrices)
        ensures
            p@ == Seq::<(u8, u32)>::empty(),
            p.wf(),
    {
        CommodityPrices { sheet: sheet_new() }
    }

    /// Enters a multiplier of `tenths` tenths for `kind`. A kind that is
    /// listed already keeps its place and takes the new multiplier.
    pub fn set(&mut self, kind: CommodityKind, tenths: u32)
        requires
            old(self).wf(),
            MIN_MULTIPLIER <= tenths <= MAX_MULTIPLIER,
        ensures
            final(self)@ == with_entry(old(self)@, kind.ord(), tenths),
            final(self).wf(),
            final(self).multiplier_of(kind) == tenths,
    {
        let key: u8 = kind.index();
        proof {
            lemma_position(self@, key, 0);
        }
        let _ = sheet_insert(&mut self.sheet, key, tenths);
        proof {
            lemma_with_entry(old(self)@, key, tenths);
        }
    }

    /// The multiplier, in tenths, for `kind`: the neutral one where the sheet
    /// does not list the kind.
    pub fn multiplier(&self, kind: CommodityKind) -> (r: u32)
        ensures
            r == self.multiplier_of(kind),
    {
        match sheet_get(&self.sheet, kind.index()) {
            Some(v) => v,
            None => NEUTRAL_MULTIPLIER,
        }
    }

    /// The price sheet that lists `kinds[i]` with the multiplier that
    /// `draws[i]` stands for, entered in that order.
    pub fn from_draws(kinds: &Vec<CommodityKind>, draws: &Vec<(bool, u32)>) -> (p: CommodityPrices)
        requires
            kinds@.len() == draws@.len(),
            forall|i: int| 0 <= i < draws@.len() ==> (#[trigger] draws@[i]).1 <= 5,
        ensures
            p@ == sheet_of(kinds@, draws@, kinds@.len() as int),
            p.wf(),
    {
        let mut p = CommodityPrices::new();
        let mut i: usize = 0;
        while i < kinds.len()
            invariant
                i <= kinds@.len(),
                kinds@.len() == draws@.len(),
                forall|k: int| 0 <= k < draws@.len() ==> (#[trigger] draws@[k]).1 <= 5,
                p@ == sheet_of(kinds@, draws@, i as int),
                p.wf(),
            decreases kinds@.len() - i,
        {
            let draw: (bool, u32) = draws[i];
            let tenths: u32 = if draw.0 {
                NEUTRAL_MULTIPLIER + draw.1
            } else {
                NEUTRAL_MULTIPLIER - draw.1
            };
            p.set(kinds[i], tenths);
            i = i + 1;
        }
        p
    }

    /// A price sheet drawn at random: two or three different kinds, each
    /// with a multiplier one to five tenths above or below the neutral one.
    pub fn new_random() -> (p: CommodityPrices)
        ensures
            p.wf(),
            2 <= p@.len() <= 3,
            forall|i: int| 0 <= i < p@.len() ==> (#[trigger] p@[i]).1 != NEUTRAL_MULTIPLIER,
    {
        let num: usize = random_below(2, 4) as usize;
        let picked: Vec<u8> = choose_indices(KINDS, num);
        let mut kinds: Vec<CommodityKind> = Vec::new();
        let mut draws: Vec<(bool, u32)> = Vec::new();
        let mut i: usize = 0;
        while i < picked.len()
            invariant
                i <= picked@.len(),
                kinds@.len() == i,
                draws@.len() == i,
                forall|k: int| 0 <= k < picked@.len() ==> picked@[k] < KINDS,
                forall|k: int| 0 <= k < i ==> (#[trigger] kinds@[k]).ord() == picked@[k],
                forall|k: int| 0 <= k < i ==> 1 <= (#[trigger] draws@[k]).1 <= 5,
            decreases picked@.len() - i,
        {
            match CommodityKind::from_index(picked[i]) {
                Some(kind) => {
                    kinds.push(kind);
                },
                None => {
                    assert(false);
                },
            }
            let raise: bool = random_bool();
            let step: u32 = random_below(1, 6);
            draws.push((raise, step));
            i = i + 1;
        }
        proof {
            lemma_sheet_of_distinct(kinds@, draws@, kinds@.len() as int);
        }
        CommodityPrices::from_draws(&kinds, &draws)
    }

    /// What the sheet lists, in the order in which it was entered: for
    /// each kind that it lists, the kind and its multiplier in tenths.
    pub fn entries(&self) -> (r: Vec<(CommodityKind, u32)>)
        requires
            self.wf(),
        ensures
            r@.len() == self@.len(),
            forall|i: int|
                0 <= i < r@.len() ==> (#[trigger] r@[i]).0.ord() == self@[i].0 && r@[i].1 == self@[i].1,
    {
        let pairs: Vec<(u8, u32)> = sheet_pairs(&self.sheet);
        let mut listed: Vec<(CommodityKind, u32)> = Vec::new();
        let mut i: usize = 0;
        while i < pairs.len()
            invariant
                i <= pairs@.len(),
                pairs@ == self@,
                self.wf(),
                listed@.len() == i,
                forall|k: int|
                    0 <= k < i ==> (#[trigger] listed@[k]).0.ord() == pairs@[k].0 && listed@[k].1
                        == pairs@[k].1,
            decreases pairs@.len() - i,
        {
            let pair: (u8, u32) = pairs[i];
            assert(self@[i as int].0 < KINDS);
            match CommodityKind::from_index(pair.0) {
                Some(kind) => {
                    listed.push((kind, pair.1));
                },
                None => {
                    assert(false);
                },
            }
            i = i + 1;
        }
        listed
    }

    /// Whether the sheet is valid: it lists kinds that exist, none of them
    /// twice, each with a multiplier from one half to one and a half.
    pub fn is_valid(&self) -> (r: bool)
        ensures
            r == self.wf(),
    {
        let pairs: Vec<(u8, u32)> = sheet_pairs(&self.sheet);
        let mut i: usize = 0;
        while i < pairs.len()
            invariant
                i <= pairs@.len(),
                pairs@ == self@,
                forall|a: int|
                    0 <= a < i ==> (#[trigger] pairs@[a]).0 < KINDS && MIN_MULTIPLIER <= pairs@[a].1
                        <= MAX_MULTIPLIER,
                forall|a: int, b: int|
                    0 <= a < b < i ==> (#[trigger] pairs@[a]).0 != (#[trigger] pairs@[b]).0,
            decreases pairs@.len() - i,
        {
            let pair: (u8, u32) = pairs[i];
            if pair.0 >= KINDS || pair.1 < MIN_MULTIPLIER || pair.1 > MAX_MULTIPLIER {
                assert(self@[i as int] == pair);
                return false;
            }
            let mut j: usize = 0;
            while j < i
                invariant
                    j <= i < pairs@.len(),
                    pairs@ == self@,
                    pair == pairs@[i as int],
                    forall|a: int| 0 <= a < j ==> (#[trigger] pairs@[a]).0 != pair.0,
                decreases i - j,
            {
                if pairs[j].0 == pair.0 {
                    assert(self@[j as int].0 == self@[i as int].0);
                    return false;
                }
                j = j + 1;
            }
            i = i + 1;
        }
        true
    }

    /// A copy of the sheet.
    pub fn duplicate(&self) -> (r: CommodityPrices)
        ensures
            r@ == self@,
    {
        CommodityPrices { sheet: sheet_clone(&self.sheet) }
    }
}

/// What `position_from` returns: an index from `from` to the length, the
/// first from `from` on at which the key stands.
pub proof fn lemma_position(entries: Seq<(u8, u32)>, key: u8, from: int)
    requires
        0 <= from <= entries.len(),
    ensures
        from <= position_from(entries, key, from) <= entries.len(),
        position_from(entries, key, from) < entries.len() ==> entries[position_from(
            entries,
            key,
            from,
        )].0 == key,
        forall|i: int| from <= i < position_from(entries, key, from) ==> (#[trigger] entries[i]).0 != key,
    decreases entries.len() - from,
{
    if from < entries.len() && entries[from].0 != key {
        lemma_position(entries, key, from + 1);
    }
}

/// The position of a key in a sequence that agrees, up to an index at which
/// the key stands in it, with another.
proof fn lemma_position_same(a: Seq<(u8, u32)>, b: Seq<(u8, u32)>, key: u8, from: int, at: int)
    requires
        0 <= from <= at < a.len(),
        at < b.len(),
        forall|i: int| from <= i < at ==> (#[trigger] a[i]).0 != key,
        forall|i: int| from <= i < at ==> (#[trigger] b[i]).0 != key,
        a[at].0 == key,
        b[at].0 == key,
    ensures
        position_from(a, key, from) == at,
        position_from(b, key, from) == at,
    decreases at - from,
{
    if from < at {
        assert(a[from].0 != key);
        assert(b[from].0 != key);
        lemma_position_same(a, b, key, from + 1, at);
    }
}

/// Entering a pair keeps a valid list valid and makes the key's value the
/// one entered.
pub proof fn lemma_with_entry(entries: Seq<(u8, u32)>, key: u8, value: u32)
    requires
        key < KINDS,
        MIN_MULTIPLIER <= value <= MAX_MULTIPLIER,
        forall|i: int|
            0 <= i < entries.len() ==> (#[trigger] entries[i]).0 < KINDS && MIN_MULTIPLIER
                <= entries[i].1 <= MAX_MULTIPLIER,
        forall|i: int, j: int|
            0 <= i < j < entries.len() ==> (#[trigger] entries[i]).0 != (#[trigger] entries[j]).0,
    ensures
        ({
            let after = with_entry(entries, key, value);
            &&& forall|i: int|
                0 <= i < after.len() ==> (#[trigger] after[i]).0 < KINDS && MIN_MULTIPLIER
                    <= after[i].1 <= MAX_MULTIPLIER
            &&& forall|i: int, j: int|
                0 <= i < j < after.len() ==> (#[trigger] after[i]).0 != (#[trigger] after[j]).0
            &&& multiplier_in(after, key) == value
        }),
{
    let after = with_entry(entries, key, value);
    let at = position_of(entries, key);
    lemma_position(entries, key, 0);
    assert forall|i: int, j: int| 0 <= i < j < after.len() implies (#[trigger] after[i]).0 != (
    #[trigger] after[j]).0 by {
        if holds_key(entries, key) {
            assert(after[i].0 == entries[i].0);
            assert(after[j].0 == entries[j].0);
        } else {
            if j == entries.len() {
                assert(after[i] == entries[i]);
            } else {
                assert(after[i] == entries[i]);
                assert(after[j] == entries[j]);
            }
        }
    }
    assert forall|i: int| 0 <= i < after.len() implies (#[trigger] after[i]).0 < KINDS
        && MIN_MULTIPLIER <= after[i].1 <= MAX_MULTIPLIER by {
        if i < entries.len() && !(holds_key(entries, key) && i == at) {
            assert(after[i] == entries[i]);
        }
    }
    assert forall|i: int| 0 <= i < at implies (#[trigger] after[i]).0 != key by {
        assert(after[i] == entries[i]);
    }
    lemma_position_same(after, after, key, 0, at);
}

/// Where no kind occurs twice, the sheet lists the kinds one for one, in
/// their order.
pub proof fn lemma_sheet_of_distinct(kinds: Seq<CommodityKind>, draws: Seq<(bool, u32)>, n: int)
    requires
        0 <= n <= kinds.len(),
        kinds.len() == draws.len(),
        forall|i: int, j: int|
            0 <= i < j < kinds.len() ==> (#[trigger] kinds[i]).ord() != (#[trigger] kinds[j]).ord(),
    ensures
        sheet_of(kinds, draws, n).len() == n,
        forall|i: int|
            0 <= i < n ==> #[trigger] sheet_of(kinds, draws, n)[i] == (
                kinds[i].ord(),
                drawn_multiplier(draws[i]),
            ),
    decreases n,
{
    if n > 0 {
        lemma_sheet_of_distinct(kinds, draws, n - 1);
        let before = sheet_of(kinds, draws, n - 1);
        let key = kinds[n - 1].ord();
        lemma_position(before, key, 0);
        let at = position_of(before, key);
        if at < before.len() {
            assert(before[at] == (kinds[at].ord(), drawn_multiplier(draws[at])));
            assert(kinds[at].ord() != kinds[n - 1].ord());
        }
    }
}

} // verus!
