//! What follows from the definitions of the catalog, the growth cycle and the
//! farm's operations: facts a caller may rely on, each proved once here.
use vstd::prelude::*;
use crate::farm::{lemma_earnings_exact, Crop, FarmView, Field};
use crate::money::{coins, fixed_product, lemma_grow_by_half, MONEY_SCALE, SCALE_BITS};
use crate::util::GameError;

verus! {

/// The price of a level is two and a half planting prices for each level
/// already reached.
pub proof fn lemma_level_price_value(crop: Crop, level: nat)
    ensures
        2 * crop.next_level_price(level) == 5 * crop.planting_price() * level,
{
    let per_level = lemma_price_per_level(crop);
    assert(2 * (per_level * level) == (2 * per_level) * level) by (nonlinear_arith);
}

/// The price of the first level, of which the price of every level is a
/// multiple: two and a half planting prices.
proof fn lemma_price_per_level(crop: Crop) -> (per_level: int)
    ensures
        0 < per_level,
        2 * per_level == 5 * crop.planting_price(),
        forall|level: nat| #[trigger] crop.next_level_price(level) == per_level * level,
{
    let per_level = fixed_product(crop.planting_price() * 10, crop.multiplier() / 2);
    match crop {
        Crop::Wheat => {
            assert(per_level == 10_485_760 * 262_144 / 1_048_576);
        },
        Crop::Potato => {
            assert(per_level == 209_715_200 * 262_144 / 1_048_576);
        },
        Crop::Carrot => {
            assert(per_level == 524_288_000 * 262_144 / 1_048_576);
        },
    }
    per_level
}

/// The price of a level never falls as the level rises.
pub proof fn lemma_level_price_monotonic(crop: Crop, lower: nat, higher: nat)
    requires
        lower <= higher,
    ensures
        0 <= crop.next_level_price(lower) <= crop.next_level_price(higher),
{
    let per_level = lemma_price_per_level(crop);
    assert(0 <= per_level * lower <= per_level * higher) by (nonlinear_arith)
        requires
            0 < per_level,
            0 <= lower <= higher,
    ;
}

/// A field has a price for its next level exactly while it is below its
/// crop's cap; at the cap and beyond, asking for one is refused.
pub proof fn lemma_level_price_defined(field: Field)
    ensures
        field.level_up_step() is Ok <==> field.level < field.crop.max_level(),
        field.level_up_step() is Err ==> field.level_up_step() == Err::<Field, GameError>(
            GameError::MaxLevelReached,
        ),
{
}

/// Up to level `SCALE_BITS`, each level pays one and a half times what the
/// level below pays.
pub proof fn lemma_earnings_grow(crop: Crop, level: nat)
    requires
        level < SCALE_BITS,
    ensures
        2 * crop.earnings(level + 1) == 3 * crop.earnings(level),
        0 < crop.earnings(level) < crop.earnings(level + 1),
{
    lemma_earnings_exact(crop, level);
    lemma_earnings_exact(crop, level + 1);
    lemma_grow_by_half(
        crop.base_payout() / (MONEY_SCALE as int),
        level,
        (SCALE_BITS - level - 1) as nat,
    );
}

/// A growing field is ripe from the moment its grow duration has passed
/// since planting, and not before.
pub proof fn lemma_ripe_when_grown(field: Field, now: u128)
    requires
        field.growing(),
    ensures
        field.time_to_maturity(now as int) >= 0,
        field.time_to_maturity(now as int) == 0 <==> now >= field.plant_timestamp->0
            + field.crop.grow_duration(),
        field.harvest_step(now) is Ok <==> now >= field.plant_timestamp->0
            + field.crop.grow_duration(),
{
}

/// Planting an idle field and harvesting it before the grow duration has
/// passed is refused as not yet ready, also when the clock has not moved at
/// all since planting.
pub proof fn lemma_harvest_too_early(field: Field, planted_at: u128, now: u128)
    requires
        !field.growing(),
        now < planted_at + field.crop.grow_duration(),
    ensures
        field.plant_step(planted_at) matches Ok(sown) && sown.harvest_step(now) == Err::<
            Field,
            GameError,
        >(GameError::NotYetReady),
        field.plant_step(planted_at) matches Ok(sown) && sown.harvest_step(planted_at) == Err::<
            Field,
            GameError,
        >(GameError::NotYetReady),
{
}

/// Harvesting a growing field once its grow duration has passed succeeds:
/// the field is idle afterwards, with its crop and level as before.
pub proof fn lemma_harvest_when_grown(field: Field, now: u128)
    requires
        field.growing(),
        now >= field.plant_timestamp->0 + field.crop.grow_duration(),
    ensures
        field.harvest_step(now) == Ok::<Field, GameError>(
            Field { plant_timestamp: None, ..field },
        ),
{
}

/// A harvested field refuses every further harvest until it is planted
/// again, and it can be planted again at once.
pub proof fn lemma_harvest_once(field: Field, first: u128, second: u128)
    requires
        field.harvest_step(first) is Ok,
    ensures
        field.harvest_step(first) matches Ok(idle) && idle.harvest_step(second) == Err::<
            Field,
            GameError,
        >(GameError::AlreadyFarmed),
        field.harvest_step(first) matches Ok(idle) && idle.plant_step(second) is Ok,
{
}

/// On the farm, a harvest of a ripe field adds exactly the field's payout at
/// its current level to the balance, and touches no other field.
pub proof fn lemma_farm_harvest_pays(farm: FarmView, id: int, now: u128)
    requires
        farm.has_field(id),
        farm.fields[id].growing(),
        now >= farm.fields[id].plant_timestamp->0 + farm.fields[id].crop.grow_duration(),
    ensures
        farm.harvest_step(id, now) matches Ok(next) && {
            &&& next.money == farm.money + farm.fields[id].crop.earnings(
                farm.fields[id].level as nat,
            )
            &&& next.fields == farm.fields.update(
                id,
                Field { plant_timestamp: None, ..farm.fields[id] },
            )
            &&& next.name == farm.name
        },
{
}

/// On the farm, a field planted and harvested before its grow duration has
/// passed is refused as not yet ready; once harvested, it is refused as
/// already farmed.
pub proof fn lemma_farm_harvest_cycle(farm: FarmView, id: int, planted_at: u128, now: u128)
    requires
        farm.plant_step(id, planted_at) is Ok,
    ensures
        farm.plant_step(id, planted_at) matches Ok(sown) && {
            &&& now < planted_at + farm.fields[id].crop.grow_duration() ==> sown.harvest_step(
                id,
                now,
            ) == Err::<FarmView, GameError>(GameError::NotYetReady)
            &&& sown.harvest_step(id, now) matches Ok(reaped) ==> reaped.harvest_step(id, now)
                == Err::<FarmView, GameError>(GameError::AlreadyFarmed)
        },
{
}

/// Buying takes exactly the price of a new field off the balance and adds a
/// fresh field at the end; with less than the price it is refused.
pub proof fn lemma_buy(farm: FarmView, crop: Crop)
    ensures
        farm.buy_step(crop) is Ok <==> farm.money >= crop.new_field_price(),
        farm.buy_step(crop) is Err ==> farm.buy_step(crop) == Err::<FarmView, GameError>(
            GameError::InsufficientFunds,
        ),
        farm.buy_step(crop) matches Ok(next) ==> {
            &&& next.money == farm.money - crop.new_field_price()
            &&& next.fields.len() == farm.fields.len() + 1
            &&& next.fields.last() == Field::fresh(crop)
            &&& next.fields.drop_last() == farm.fields
            &&& next.name == farm.name
        },
{
    if farm.buy_step(crop) is Ok {
        assert(farm.fields.push(Field::fresh(crop)).drop_last() =~= farm.fields);
    }
}

/// An index that addresses no field is refused as out of bounds by every
/// operation that takes one.
pub proof fn lemma_out_of_bounds(farm: FarmView, id: int, now: u128)
    requires
        !farm.has_field(id),
    ensures
        farm.level_up_step(id) == Err::<FarmView, GameError>(GameError::OutOfBounds),
        farm.plant_step(id, now) == Err::<FarmView, GameError>(GameError::OutOfBounds),
        farm.harvest_step(id, now) == Err::<FarmView, GameError>(GameError::OutOfBounds),
        farm.sell_step(id) == Err::<FarmView, GameError>(GameError::OutOfBounds),
{
}

/// A sale removes the field sold and moves every field behind it up by one.
pub proof fn lemma_sell_shifts(farm: FarmView, id: int, other: int)
    requires
        farm.has_field(id),
        farm.has_field(other),
        other != id,
    ensures
        farm.sell_step(id) matches Ok(next) && {
            &&& next.money == farm.money + farm.fields[id].crop.new_field_price()
            &&& next.fields.len() == farm.fields.len() - 1
            &&& other < id ==> next.fields[other] == farm.fields[other]
            &&& other > id ==> next.fields[other - 1] == farm.fields[other]
        },
{
}

/// Every operation keeps the fields well formed, and those that keep a
/// field keep its crop and never lower its level.
pub proof fn lemma_steps_keep_fields_valid(farm: FarmView, crop: Crop, id: int, now: u128)
    requires
        farm.wf(),
    ensures
        farm.buy_step(crop) matches Ok(next) ==> next.wf(),
        farm.sell_step(id) matches Ok(next) ==> next.wf(),
        farm.level_up_step(id) matches Ok(next) ==> next.wf() && next.fields[id].level
            == farm.fields[id].level + 1,
        farm.plant_step(id, now) matches Ok(next) ==> next.wf() && next.fields[id].level
            == farm.fields[id].level,
        farm.harvest_step(id, now) matches Ok(next) ==> next.wf() && next.fields[id].level
            == farm.fields[id].level,
        forall|j: int|
            farm.has_field(j) ==> {
                &&& farm.level_up_step(id) matches Ok(next) ==> next.fields[j].crop
                    == farm.fields[j].crop && next.fields[j].level >= farm.fields[j].level
                &&& farm.plant_step(id, now) matches Ok(next) ==> next.fields[j].crop
                    == farm.fields[j].crop && next.fields[j].level == farm.fields[j].level
                &&& farm.harvest_step(id, now) matches Ok(next) ==> next.fields[j].crop
                    == farm.fields[j].crop && next.fields[j].level == farm.fields[j].level
            },
{
    if let Ok(next) = farm.buy_step(crop) {
        assert forall|i: int| 0 <= i < next.fields.len() implies (#[trigger] next.fields[i]).wf() by {
            if i < farm.fields.len() {
                assert(next.fields[i] == farm.fields[i]);
            }
        }
    }
    if let Ok(next) = farm.sell_step(id) {
        assert forall|i: int| 0 <= i < next.fields.len() implies (#[trigger] next.fields[i]).wf() by {
            if i < id {
                assert(next.fields[i] == farm.fields[i]);
            } else {
                assert(next.fields[i] == farm.fields[i + 1]);
            }
        }
    }
    if let Ok(next) = farm.level_up_step(id) {
        assert forall|i: int| 0 <= i < next.fields.len() implies (#[trigger] next.fields[i]).wf() by {
            assert(farm.fields[i].wf());
        }
    }
    if let Ok(next) = farm.plant_step(id, now) {
        assert forall|i: int| 0 <= i < next.fields.len() implies (#[trigger] next.fields[i]).wf() by {
            assert(farm.fields[i].wf());
        }
    }
    if let Ok(next) = farm.harvest_step(id, now) {
        assert forall|i: int| 0 <= i < next.fields.len() implies (#[trigger] next.fields[i]).wf() by {
            assert(farm.fields[i].wf());
        }
    }
}

/// No operation takes a balance that is not negative below zero: what is
/// paid is checked against the balance first, and what is earned is positive.
pub proof fn lemma_steps_keep_balance_nonnegative(farm: FarmView, crop: Crop, id: int, now: u128)
    requires
        farm.wf(),
        farm.money >= 0,
    ensures
        farm.buy_step(crop) matches Ok(next) ==> 0 <= next.money < farm.money,
        farm.level_up_step(id) matches Ok(next) ==> 0 <= next.money < farm.money,
        farm.plant_step(id, now) matches Ok(next) ==> 0 <= next.money < farm.money,
        farm.harvest_step(id, now) matches Ok(next) ==> next.money > farm.money,
        farm.sell_step(id) matches Ok(next) ==> next.money > farm.money,
{
    if farm.has_field(id) {
        let field = farm.fields[id];
        assert(field.wf());
        lemma_earnings_exact(field.crop, field.level as nat);
        lemma_level_price_monotonic(field.crop, 1, field.level as nat);
    }
}

/// What `count` level-ups in a row cost a field of kind `crop` that stands
/// at level `from`.
pub open spec fn level_up_cost(crop: Crop, from: nat, count: nat) -> int
    decreases count,
{
    if count == 0 {
        0
    } else {
        crop.next_level_price(from) + level_up_cost(crop, from + 1, (count - 1) as nat)
    }
}

/// The farm after `count` level-ups of field `id` in a row, or the refusal
/// of the first of them that is refused.
pub open spec fn level_ups(farm: FarmView, id: int, count: nat) -> Result<FarmView, GameError>
    decreases count,
{
    if count == 0 {
        Ok(farm)
    } else {
        match farm.level_up_step(id) {
            Ok(next) => level_ups(next, id, (count - 1) as nat),
            Err(e) => Err(e),
        }
    }
}

/// With a balance that covers their cost, the level-ups that take a field
/// from its level to its crop's cap all succeed, each for its own price; one
/// more is refused.
pub proof fn lemma_level_ups_reach_cap(farm: FarmView, id: int)
    requires
        farm.has_field(id),
        farm.fields[id].wf(),
        farm.money >= level_up_cost(
            farm.fields[id].crop,
            farm.fields[id].level as nat,
            (farm.fields[id].crop.max_level() - farm.fields[id].level) as nat,
        ),
    ensures
        level_ups(
            farm,
            id,
            (farm.fields[id].crop.max_level() - farm.fields[id].level) as nat,
        ) matches Ok(top) && {
            &&& top.has_field(id)
            &&& top.fields[id].level == farm.fields[id].crop.max_level()
            &&& top.fields[id].crop == farm.fields[id].crop
            &&& top.money == farm.money - level_up_cost(
                farm.fields[id].crop,
                farm.fields[id].level as nat,
                (farm.fields[id].crop.max_level() - farm.fields[id].level) as nat,
            )
            &&& top.level_up_step(id) == Err::<FarmView, GameError>(GameError::MaxLevelReached)
        },
    decreases farm.fields[id].crop.max_level() - farm.fields[id].level,
{
    let field = farm.fields[id];
    let count = (field.crop.max_level() - field.level) as nat;
    if count > 0 {
        lemma_level_up_cost_nonnegative(field.crop, (field.level + 1) as nat, (count - 1) as nat);
        let next = farm.level_up_step(id)->Ok_0;
        lemma_level_ups_reach_cap(next, id);
    }
}

/// A run of level-ups costs nothing less than nothing.
pub proof fn lemma_level_up_cost_nonnegative(crop: Crop, from: nat, count: nat)
    ensures
        0 <= level_up_cost(crop, from, count),
    decreases count,
{
    if count > 0 {
        lemma_level_price_monotonic(crop, from, from);
        lemma_level_up_cost_nonnegative(crop, from + 1, (count - 1) as nat);
    }
}

/// A field at its crop's cap is refused a further level whatever the
/// balance is.
pub proof fn lemma_level_up_at_cap(farm: FarmView, id: int)
    requires
        farm.has_field(id),
        farm.fields[id].level >= farm.fields[id].crop.max_level(),
    ensures
        farm.level_up_step(id) == Err::<FarmView, GameError>(GameError::MaxLevelReached),
{
}

/// Below the cap, a level-up succeeds exactly when the balance covers the
/// price of the level, and then takes exactly that price.
pub proof fn lemma_level_up_below_cap(farm: FarmView, id: int)
    requires
        farm.has_field(id),
        farm.fields[id].level < farm.fields[id].crop.max_level(),
    ensures
        farm.level_up_step(id) is Ok <==> farm.money >= farm.fields[id].crop.next_level_price(
            farm.fields[id].level as nat,
        ),
        farm.level_up_step(id) is Err ==> farm.level_up_step(id) == Err::<FarmView, GameError>(
            GameError::InsufficientFunds,
        ),
        farm.level_up_step(id) matches Ok(next) ==> next.money == farm.money
            - farm.fields[id].crop.next_level_price(farm.fields[id].level as nat),
{
}

/// The shop lists every crop kind, each once.
pub proof fn lemma_catalog_complete(crop: Crop)
    ensures
        Crop::all().contains(crop),
        Crop::all().no_duplicates(),
{
    let index: int = match crop {
        Crop::Wheat => 0,
        Crop::Potato => 1,
        Crop::Carrot => 2,
    };
    assert(Crop::all()[index] == crop);
}

/// The opening balance buys a wheat field and nothing dearer.
pub proof fn lemma_opening_balance(name: Seq<char>, crop: Crop)
    ensures
        FarmView::opening(name).wf(),
        FarmView::opening(name).money == coins(20),
        FarmView::opening(name).buy_step(crop) is Ok <==> crop == Crop::Wheat,
{
}

} // verus!
