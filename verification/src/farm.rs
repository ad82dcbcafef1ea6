//! The crop catalog, a single field and its growth cycle, and the farm that
//! owns the fields and the cash balance.
use vstd::prelude::*;
use vstd::arithmetic::power::*;
use vstd::arithmetic::div_mod::*;
use crate::money::{
    coins, fixed_product, lemma_grow_by_half, lemma_scale_is_power_of_two, mul_fixed,
    whole_coins, Money, MONEY_SCALE, SCALE_BITS,
};
use crate::util::{millis_of_seconds, seconds_to_millis, timestamp, GameError};

verus! {

/// A level of a field: 1 when bought, raised one at a time up to the crop's cap.
pub type Level = u8;

/// The kinds of crop a field can be bound to.
#[derive(Clone, Copy, Debug, PartialEq, Eq, Structural)]
pub enum Crop {
    Wheat,
    Potato,
    Carrot,
}

impl Crop {
    /// Every crop kind, in the order the shop lists them.
    pub open spec fn all() -> Seq<Crop> {
        seq![Crop::Wheat, Crop::Potato, Crop::Carrot]
    }

    /// What a new field of this kind costs.
    pub open spec fn new_field_price(self) -> int {
        match self {
            Crop::Wheat => coins(10),
            Crop::Potato => coins(100),
            Crop::Carrot => coins(1000),
        }
    }

    /// What each planting of a field of this kind costs.
    pub open spec fn planting_price(self) -> int {
        match self {
            Crop::Wheat => coins(1),
            Crop::Potato => coins(20),
            Crop::Carrot => coins(50),
        }
    }

    /// The highest level a field of this kind can reach.
    pub open spec fn max_level(self) -> nat {
        match self {
            Crop::Wheat => 5,
            Crop::Potato => 10,
            Crop::Carrot => 20,
        }
    }

    /// The fixed-point factor by which each level raises the payout, and
    /// half of which scales the price of a level: one half for every kind.
    pub open spec fn multiplier(self) -> int {
        MONEY_SCALE / 2
    }

    /// How long a planted field of this kind grows, in milliseconds.
    pub open spec fn grow_duration(self) -> nat {
        match self {
            Crop::Wheat => millis_of_seconds(100) as nat,
            Crop::Potato => millis_of_seconds(300) as nat,
            Crop::Carrot => millis_of_seconds(1000) as nat,
        }
    }

    /// The payout of a harvest before any level is counted in.
    pub open spec fn base_payout(self) -> int {
        match self {
            Crop::Wheat => coins(1),
            Crop::Potato => coins(10),
            Crop::Carrot => coins(100),
        }
    }

    /// The price of raising a field of this kind from `level` to the next:
    /// ten plantings, times half the multiplier, times the level.
    pub open spec fn next_level_price(self, level: nat) -> int {
        fixed_product(self.planting_price() * 10, self.multiplier() / 2) * level
    }

    /// What a harvest of a field of this kind pays at `level`: the base payout
    /// compounded `level` times by one plus the multiplier.
    pub open spec fn earnings(self, level: nat) -> int {
        self.base_payout() * pow(MONEY_SCALE + self.multiplier(), level) / pow(
            MONEY_SCALE as int,
            level,
        )
    }

    /// What a new field of this kind costs.
    pub fn get_new_field_price(&self) -> (price: Money)
        ensures
            price == self.new_field_price(),
    {
        match self {
            Crop::Wheat => whole_coins(10),
            Crop::Potato => whole_coins(100),
            Crop::Carrot => whole_coins(1000),
        }
    }

    /// What each planting of a field of this kind costs.
    pub fn get_planting_price(&self) -> (price: Money)
        ensures
            price == self.planting_price(),
    {
        match self {
            Crop::Wheat => whole_coins(1),
            Crop::Potato => whole_coins(20),
            Crop::Carrot => whole_coins(50),
        }
    }

    /// The highest level a field of this kind can reach.
    pub fn get_max_level(&self) -> (level: Level)
        ensures
            level == self.max_level(),
    {
        match self {
            Crop::Wheat => 5,
            Crop::Potato => 10,
            Crop::Carrot => 20,
        }
    }

    /// The factor by which each level raises the payout.
    pub fn level_multiplier(&self) -> (factor: Money)
        ensures
            factor == self.multiplier(),
    {
        MONEY_SCALE / 2
    }

    /// How long a planted field of this kind grows, in milliseconds.
    pub fn grow_time(&self) -> (millis: u128)
        ensures
            millis == self.grow_duration(),
    {
        let time: u128 = match self {
            Crop::Wheat => 100,
            Crop::Potato => 300,
            Crop::Carrot => 1000,
        };
        seconds_to_millis(time)
    }

    /// The payout of a harvest before any level is counted in.
    pub fn payout(&self) -> (amount: Money)
        ensures
            amount == self.base_payout(),
    {
        match self {
            Crop::Wheat => whole_coins(1),
            Crop::Potato => whole_coins(10),
            Crop::Carrot => whole_coins(100),
        }
    }

    /// The price of raising a field of this kind from `level` to the next.
    pub fn get_next_level_price(&self, level: Level) -> (price: Money)
        ensures
            price == self.next_level_price(level as nat),
    {
        let base_price: Money = self.get_planting_price() * 10;
        let level_multiplier: Money = self.level_multiplier() / 2;
        let per_level: Money = mul_fixed(base_price, level_multiplier);
        assert(0 <= per_level * level <= coins(125) * 255) by (nonlinear_arith)
            requires
                0 <= per_level <= coins(125),
                0 <= level <= 255,
        ;
        per_level * (level as Money)
    }

    /// The English name of the crop.
    pub fn name(&self) -> (text: &'static str)
        ensures
            text@ == self.name_text(),
    {
        match self {
            Crop::Wheat => "Wheat",
            Crop::Potato => "Potato",
            Crop::Carrot => "Carrot",
        }
    }

    /// The characters of the crop's name.
    pub open spec fn name_text(self) -> Seq<char> {
        match self {
            Crop::Wheat => "Wheat"@,
            Crop::Potato => "Potato"@,
            Crop::Carrot => "Carrot"@,
        }
    }
}

/// The payout formula is exact up to level `SCALE_BITS`: the division in
/// `Crop::earnings` leaves no remainder, and the result is the base payout's
/// whole coins times `3^level * 2^(SCALE_BITS - level)` units.
pub proof fn lemma_earnings_exact(crop: Crop, level: nat)
    requires
        level <= SCALE_BITS,
    ensures
        crop.earnings(level) * pow(MONEY_SCALE as int, level) == crop.base_payout() * pow(
            MONEY_SCALE + crop.multiplier(),
            level,
        ),
        crop.earnings(level) == crop.base_payout() / (MONEY_SCALE as int) * pow(3, level) * pow(
            2,
            (SCALE_BITS - level) as nat,
        ),
        0 < crop.earnings(level),
{
    let w = crop.base_payout() / (MONEY_SCALE as int);
    let half: int = 524_288;
    let a = pow(3, level);
    let b = pow(2, (SCALE_BITS - level) as nat);
    let c = pow(2, level);
    let h = pow(half, level);
    lemma_scale_is_power_of_two();
    lemma_pow_adds(2, (SCALE_BITS - level) as nat, level);
    lemma_pow_distributes(3, half, level);
    lemma_pow_distributes(2, half, level);
    lemma_pow_positive(2, level);
    lemma_pow_positive(half, level);
    assert(crop.base_payout() == w * (b * c));
    assert(MONEY_SCALE + crop.multiplier() == 3 * half);
    assert(MONEY_SCALE as int == 2 * half);
    let d = c * h;
    assert(0 < d) by (nonlinear_arith)
        requires
            d == c * h,
            0 < c,
            0 < h,
    ;
    assert((w * (b * c)) * (a * h) == d * (w * a * b)) by (nonlinear_arith)
        requires
            d == c * h,
    ;
    lemma_div_multiples_vanish(w * a * b, d);
    assert((w * a * b) * d == d * (w * a * b)) by (nonlinear_arith);
    lemma_pow_positive(3, level);
    lemma_pow_positive(2, (SCALE_BITS - level) as nat);
    assert(0 < w * a * b) by (nonlinear_arith)
        requires
            0 < w,
            0 < a,
            0 < b,
    ;
}

/// A bound on every amount of the form `w * 3^d * 2^n` that a payout passes
/// through while it is compounded.
proof fn lemma_compound_bound(w: int, d: nat, n: nat)
    requires
        0 <= w <= 100,
        d <= SCALE_BITS,
        n <= SCALE_BITS,
    ensures
        0 <= w * pow(3, d) * pow(2, n) <= 365_615_844_006_297_600,
{
    lemma_pow_positive(3, d);
    lemma_pow_positive(2, n);
    lemma_pow_increases(3, d, SCALE_BITS as nat);
    lemma_pow_increases(2, n, SCALE_BITS as nat);
    assert(pow(3, 20) == 3_486_784_401) by {
        reveal_with_fuel(pow, 21);
    }
    assert(pow(2, 20) == 1_048_576) by {
        reveal_with_fuel(pow, 21);
    }
    let a = pow(3, d);
    let b = pow(2, n);
    assert(0 <= w * a * b <= 100 * 3_486_784_401 * 1_048_576) by (nonlinear_arith)
        requires
            0 <= w <= 100,
            0 < a <= 3_486_784_401,
            0 < b <= 1_048_576,
    ;
}

/// A purchased plot, bound to one crop kind. It is idle until planted, grows
/// from the moment of planting, and is idle again once harvested.
#[derive(Clone, Copy, Debug, PartialEq, Eq)]
pub struct Field {
    pub crop: Crop,
    pub level: Level,
    pub plant_timestamp: Option<u128>,
}

impl Field {
    /// The field as it is when bought: level 1 and idle.
    pub open spec fn fresh(crop: Crop) -> Field {
        Field { crop, level: 1, plant_timestamp: None }
    }

    /// The level lies between 1 and the crop's cap.
    pub open spec fn wf(self) -> bool {
        1 <= self.level <= self.crop.max_level()
    }

    /// The field has been planted and not harvested since.
    pub open spec fn growing(self) -> bool {
        self.plant_timestamp is Some
    }

    /// How long a growing field still needs at the time `now`: the grow
    /// duration less the time since planting, and never below zero.
    pub open spec fn time_to_maturity(self, now: int) -> int
        recommends
            self.growing(),
    {
        let left = self.crop.grow_duration() - (now - self.plant_timestamp->0);
        if left > 0 {
            left
        } else {
            0
        }
    }

    /// What a harvest of this field pays at its current level.
    pub open spec fn harvest_value(self) -> int {
        self.crop.earnings(self.level as nat)
    }

    /// What selling the field brings in: the price it was acquired for,
    /// whatever its level and whether or not it is growing.
    pub open spec fn resale_value(self) -> int {
        self.crop.new_field_price()
    }

    /// Planting at the time `now`: refused while the field is growing,
    /// otherwise the field grows from `now`.
    pub open spec fn plant_step(self, now: u128) -> Result<Field, GameError> {
        if self.growing() {
            Err(GameError::AlreadyPlanted)
        } else {
            Ok(Field { plant_timestamp: Some(now), ..self })
        }
    }

    /// Harvesting at the time `now`: refused on an idle field and on one that
    /// still needs time, otherwise the field is idle again.
    pub open spec fn harvest_step(self, now: u128) -> Result<Field, GameError> {
        if !self.growing() {
            Err(GameError::AlreadyFarmed)
        } else if self.time_to_maturity(now as int) > 0 {
            Err(GameError::NotYetReady)
        } else {
            Ok(Field { plant_timestamp: None, ..self })
        }
    }

    /// Raising the level by one: refused at the crop's cap.
    pub open spec fn level_up_step(self) -> Result<Field, GameError> {
        if self.level >= self.crop.max_level() {
            Err(GameError::MaxLevelReached)
        } else {
            Ok(Field { level: (self.level + 1) as Level, ..self })
        }
    }

    /// What a harvest at the time `now` makes of the field `pre`: the field
    /// afterwards and the payout, or the refusal with the field unchanged.
    pub open spec fn harvest_outcome(
        pre: Field,
        now: u128,
        post: Field,
        r: Result<Money, GameError>,
    ) -> bool {
        match pre.harvest_step(now) {
            Ok(next) => post == next && (r matches Ok(paid) && paid == pre.harvest_value()),
            Err(e) => post == pre && r == Err::<Money, GameError>(e),
        }
    }

    /// A field of kind `crop` as it is when bought.
    pub fn new(crop: Crop) -> (field: Field)
        ensures
            field == Field::fresh(crop),
    {
        Self { crop, level: 1, plant_timestamp: None }
    }

    /// What a field of kind `crop` costs.
    pub fn calculate_price(crop: Crop) -> (price: Money)
        ensures
            price == crop.new_field_price(),
    {
        crop.get_new_field_price()
    }

    /// The price of the field's next level, unless it stands at its cap.
    pub fn level_up_price(&self) -> (r: Result<Money, GameError>)
        ensures
            match self.level_up_step() {
                Ok(_) => (r matches Ok(price) && price == self.crop.next_level_price(
                    self.level as nat,
                )),
                Err(e) => r == Err::<Money, GameError>(e),
            },
    {
        if self.level >= self.crop.get_max_level() {
            return Err(GameError::MaxLevelReached);
        }
        Ok(self.crop.get_next_level_price(self.level))
    }

    /// Raises the level by one, unless the field stands at its cap. Paying
    /// for the level is the caller's business.
    pub fn level_up(&mut self) -> (r: Result<(), GameError>)
        ensures
            match old(self).level_up_step() {
                Ok(next) => r is Ok && *final(self) == next,
                Err(e) => r == Err::<(), GameError>(e) && *final(self) == *old(self),
            },
    {
        if self.level >= self.crop.get_max_level() {
            return Err(GameError::MaxLevelReached);
        }
        self.level += 1;
        Ok(())
    }

    /// Whether the field is growing.
    pub fn planted(&self) -> (yes: bool)
        ensures
            yes == self.growing(),
    {
        self.plant_timestamp.is_some()
    }

    /// Plants the field at the time `timestamp`, unless it is growing.
    pub fn plant(&mut self, timestamp: u128) -> (r: Result<(), GameError>)
        ensures
            match old(self).plant_step(timestamp) {
                Ok(next) => r is Ok && *final(self) == next,
                Err(e) => r == Err::<(), GameError>(e) && *final(self) == *old(self),
            },
    {
        if self.planted() {
            return Err(GameError::AlreadyPlanted);
        }
        self.plant_timestamp = Some(timestamp);
        Ok(())
    }

    /// The time a growing field still needs at `timestamp`.
    pub fn time_to_farm(&self, timestamp: u128) -> (remaining: u128)
        requires
            self.growing(),
            self.time_to_maturity(timestamp as int) <= u128::MAX,
        ensures
            remaining == self.time_to_maturity(timestamp as int),
    {
        let planted_at: u128 = self.plant_timestamp.unwrap();
        let grow: u128 = self.crop.grow_time();
        if timestamp >= planted_at {
            grow.checked_sub(timestamp - planted_at).unwrap_or(0)
        } else {
            grow + (planted_at - timestamp)
        }
    }

    /// Harvests the field at the time `timestamp`.
    pub fn farm_at(&mut self, timestamp: u128) -> (r: Result<Money, GameError>)
        requires
            old(self).wf(),
        ensures
            Field::harvest_outcome(*old(self), timestamp, *final(self), r),
    {
        let planted_at: u128 = match self.plant_timestamp {
            Some(at) => at,
            None => {
                return Err(GameError::AlreadyFarmed);
            },
        };
        if timestamp < planted_at || self.time_to_farm(timestamp) > 0 {
            return Err(GameError::NotYetReady);
        }
        let paid: Money = self.earnings();
        self.plant_timestamp = None;
        Ok(paid)
    }

    /// Harvests the field at the time the system clock shows. The outcome is
    /// that of a harvest at some time; which time, the clock decides.
    pub fn farm(&mut self) -> (r: Result<Money, GameError>)
        requires
            old(self).wf(),
        ensures
            exists|now: u128| Field::harvest_outcome(*old(self), now, *final(self), r),
    {
        let now: u128 = timestamp();
        self.farm_at(now)
    }

    /// What a harvest of this field pays at its current level. The field
    /// need not be ripe, nor even growing.
    pub fn earnings(&self) -> (paid: Money)
        requires
            self.wf(),
        ensures
            paid == self.harvest_value(),
    {
        let factor: Money = MONEY_SCALE + self.crop.level_multiplier();
        let mut paid: Money = self.crop.payout();
        let mut done: Level = 0;
        let ghost w = self.crop.base_payout() / (MONEY_SCALE as int);
        proof {
            lemma_scale_is_power_of_two();
            lemma_pow0(3);
            assert(paid == w * pow(3, 0) * pow(2, SCALE_BITS as nat)) by (nonlinear_arith)
                requires
                    paid == w * MONEY_SCALE,
                    pow(3, 0) == 1,
                    pow(2, SCALE_BITS as nat) == MONEY_SCALE,
            ;
        }
        while done < self.level
            invariant
                done <= self.level <= SCALE_BITS,
                0 <= w <= 100,
                w == self.crop.base_payout() / (MONEY_SCALE as int),
                factor == MONEY_SCALE + MONEY_SCALE / 2,
                paid == w * pow(3, done as nat) * pow(2, (SCALE_BITS - done) as nat),
            decreases self.level - done,
        {
            proof {
                lemma_compound_bound(w, done as nat, (SCALE_BITS - done) as nat);
                lemma_compound_bound(w, (done + 1) as nat, (SCALE_BITS - done - 1) as nat);
                lemma_grow_by_half(w, done as nat, (SCALE_BITS - done - 1) as nat);
            }
            paid = mul_fixed(paid, factor);
            done += 1;
        }
        proof {
            lemma_earnings_exact(self.crop, self.level as nat);
        }
        paid
    }
}

/// The player's farm: a name, a cash balance, and the fields in the order
/// they were bought. A field is addressed by its position in that order.
#[derive(Clone, Debug, PartialEq, Eq)]
pub struct Farm {
    pub name: String,
    pub money: Money,
    pub fields: Vec<Field>,
}

/// A farm as a mathematical value: what the operations are stated over.
#[verifier::ext_equal]
pub struct FarmView {
    pub name: Seq<char>,
    pub money: int,
    pub fields: Seq<Field>,
}

impl View for Farm {
    type V = FarmView;

    open spec fn view(&self) -> FarmView {
        FarmView { name: self.name@, money: self.money as int, fields: self.fields@ }
    }
}

impl FarmView {
    /// A new farm: the opening balance of 20 coins and no field.
    pub open spec fn opening(name: Seq<char>) -> FarmView {
        FarmView { name, money: coins(20), fields: Seq::empty() }
    }

    /// Every field is well formed.
    pub open spec fn wf(self) -> bool {
        forall|i: int| 0 <= i < self.fields.len() ==> (#[trigger] self.fields[i]).wf()
    }

    /// `id` addresses a field of the farm.
    pub open spec fn has_field(self, id: int) -> bool {
        0 <= id < self.fields.len()
    }

    /// Buying a field of kind `crop`: refused when the balance is below the
    /// price, otherwise the price is paid and a fresh field comes last.
    pub open spec fn buy_step(self, crop: Crop) -> Result<FarmView, GameError> {
        if self.money < crop.new_field_price() {
            Err(GameError::InsufficientFunds)
        } else {
            Ok(
                FarmView {
                    money: self.money - crop.new_field_price(),
                    fields: self.fields.push(Field::fresh(crop)),
                    ..self
                },
            )
        }
    }

    /// Raising the level of field `id`: refused for an index out of range,
    /// for a field at its cap, and when the balance is below the price of the
    /// level; otherwise the price is paid and the level rises by one.
    pub open spec fn level_up_step(self, id: int) -> Result<FarmView, GameError> {
        if !self.has_field(id) {
            Err(GameError::OutOfBounds)
        } else {
            let field = self.fields[id];
            let price = field.crop.next_level_price(field.level as nat);
            match field.level_up_step() {
                Err(e) => Err(e),
                Ok(raised) => if self.money < price {
                    Err(GameError::InsufficientFunds)
                } else {
                    Ok(
                        FarmView {
                            money: self.money - price,
                            fields: self.fields.update(id, raised),
                            ..self
                        },
                    )
                },
            }
        }
    }

    /// Planting field `id` at the time `now`: refused for an index out of
    /// range, when the balance is below the planting price, and for a field
    /// that is growing; otherwise the price is paid and the field grows from
    /// `now`.
    pub open spec fn plant_step(self, id: int, now: u128) -> Result<FarmView, GameError> {
        if !self.has_field(id) {
            Err(GameError::OutOfBounds)
        } else {
            let field = self.fields[id];
            let price = field.crop.planting_price();
            if self.money < price {
                Err(GameError::InsufficientFunds)
            } else {
                match field.plant_step(now) {
                    Err(e) => Err(e),
                    Ok(sown) => Ok(
                        FarmView {
                            money: self.money - price,
                            fields: self.fields.update(id, sown),
                            ..self
                        },
                    ),
                }
            }
        }
    }

    /// Harvesting field `id` at the time `now`: refused for an index out of
    /// range and where the field refuses; otherwise the field's payout is
    /// added to the balance and the field is idle again.
    pub open spec fn harvest_step(self, id: int, now: u128) -> Result<FarmView, GameError> {
        if !self.has_field(id) {
            Err(GameError::OutOfBounds)
        } else {
            let field = self.fields[id];
            match field.harvest_step(now) {
                Err(e) => Err(e),
                Ok(idle) => Ok(
                    FarmView {
                        money: self.money + field.harvest_value(),
                        fields: self.fields.update(id, idle),
                        ..self
                    },
                ),
            }
        }
    }

    /// Selling field `id`: refused for an index out of range; otherwise the
    /// field leaves the farm, the fields behind it move up by one, and its
    /// resale value is added to the balance.
    pub open spec fn sell_step(self, id: int) -> Result<FarmView, GameError> {
        if !self.has_field(id) {
            Err(GameError::OutOfBounds)
        } else {
            Ok(
                FarmView {
                    money: self.money + self.fields[id].resale_value(),
                    fields: self.fields.remove(id),
                    ..self
                },
            )
        }
    }

    /// An operation that returns nothing took the farm from `self` to `post`
    /// as `step` says, or was refused with `step`'s error and changed nothing.
    pub open spec fn settled(
        self,
        step: Result<FarmView, GameError>,
        post: FarmView,
        r: Result<(), GameError>,
    ) -> bool {
        match step {
            Ok(next) => post =~= next && r is Ok,
            Err(e) => post =~= self && r == Err::<(), GameError>(e),
        }
    }

    /// An operation that returns what it added to the balance took the farm
    /// from `self` to `post` as `step` says, or was refused with `step`'s
    /// error and changed nothing.
    pub open spec fn paid_out(
        self,
        step: Result<FarmView, GameError>,
        post: FarmView,
        r: Result<Money, GameError>,
    ) -> bool {
        match step {
            Ok(next) => post =~= next && (r matches Ok(paid) && paid == next.money - self.money),
            Err(e) => post =~= self && r == Err::<Money, GameError>(e),
        }
    }

    /// The balance that `step` leaves, where it succeeds, fits in `Money`.
    pub open spec fn affordable(step: Result<FarmView, GameError>) -> bool {
        step matches Ok(next) ==> next.money <= Money::MAX
    }
}

impl Farm {
    /// A farm for the player `name`, with the opening balance and no field.
    pub fn new(name: String) -> (farm: Farm)
        ensures
            farm@ == FarmView::opening(name@),
    {
        Self { name, money: whole_coins(20), fields: Vec::new() }
    }

    /// Every crop kind, in the order the shop lists them.
    pub fn available_crops() -> (crops: Vec<Crop>)
        ensures
            crops@ == Crop::all(),
    {
        vec![Crop::Wheat, Crop::Potato, Crop::Carrot]
    }

    /// Buys a field of kind `crop`.
    pub fn buy_field(&mut self, crop: Crop) -> (r: Result<(), GameError>)
        ensures
            old(self)@.settled(old(self)@.buy_step(crop), final(self)@, r),
    {
        let price: Money = crop.get_new_field_price();
        if self.money < price {
            return Err(GameError::InsufficientFunds);
        }
        self.fields.push(Field::new(crop));
        self.money -= price;
        Ok(())
    }

    /// Pays for the next level of field `id` and raises it.
    pub fn level_up_field(&mut self, id: u32) -> (r: Result<(), GameError>)
        ensures
            old(self)@.settled(old(self)@.level_up_step(id as int), final(self)@, r),
    {
        let index: usize = id as usize;
        if index >= self.fields.len() {
            return Err(GameError::OutOfBounds);
        }
        let level_up_price: Money = match self.fields[index].level_up_price() {
            Ok(price) => price,
            Err(e) => {
                return Err(e);
            },
        };
        if level_up_price > self.money {
            return Err(GameError::InsufficientFunds);
        }
        match self.fields[index].level_up() {
            Ok(()) => {},
            Err(e) => {
                return Err(e);
            },
        }
        self.money -= level_up_price;
        Ok(())
    }

    /// Plants field `id` at the time `timestamp`.
    pub fn plant_field_at(&mut self, id: u32, timestamp: u128) -> (r: Result<(), GameError>)
        ensures
            old(self)@.settled(old(self)@.plant_step(id as int, timestamp), final(self)@, r),
    {
        let index: usize = id as usize;
        if index >= self.fields.len() {
            return Err(GameError::OutOfBounds);
        }
        let price: Money = self.fields[index].crop.get_planting_price();
        if price > self.money {
            return Err(GameError::InsufficientFunds);
        }
        match self.fields[index].plant(timestamp) {
            Ok(()) => {},
            Err(e) => {
                return Err(e);
            },
        }
        self.money -= price;
        Ok(())
    }

    /// Plants field `id` at the time the system clock shows.
    pub fn plant_field(&mut self, id: u32) -> (r: Result<(), GameError>)
        ensures
            exists|now: u128|
                old(self)@.settled(old(self)@.plant_step(id as int, now), final(self)@, r),
    {
        let now: u128 = timestamp();
        self.plant_field_at(id, now)
    }

    /// Harvests field `id` at the time `timestamp`.
    pub fn farm_field_at(&mut self, id: u32, timestamp: u128) -> (r: Result<Money, GameError>)
        requires
            old(self)@.wf(),
            FarmView::affordable(old(self)@.harvest_step(id as int, timestamp)),
        ensures
            old(self)@.paid_out(old(self)@.harvest_step(id as int, timestamp), final(self)@, r),
    {
        let index: usize = id as usize;
        if index >= self.fields.len() {
            return Err(GameError::OutOfBounds);
        }
        let payout: Money = match self.fields[index].farm_at(timestamp) {
            Ok(paid) => paid,
            Err(e) => {
                return Err(e);
            },
        };
        proof {
            let field = old(self)@.fields[id as int];
            lemma_earnings_exact(field.crop, field.level as nat);
        }
        self.money += payout;
        Ok(payout)
    }

    /// Harvests field `id` at the time the system clock shows.
    pub fn farm_field(&mut self, id: u32) -> (r: Result<Money, GameError>)
        requires
            old(self)@.wf(),
            forall|now: u128| FarmView::affordable(#[trigger] old(self)@.harvest_step(id as int, now)),
        ensures
            exists|now: u128|
                old(self)@.paid_out(
                    #[trigger] old(self)@.harvest_step(id as int, now),
                    final(self)@,
                    r,
                ),
    {
        let now: u128 = timestamp();
        self.farm_field_at(id, now)
    }

    /// Sells field `id` for its resale value.
    pub fn sell_field(&mut self, id: u32) -> (r: Result<Money, GameError>)
        requires
            FarmView::affordable(old(self)@.sell_step(id as int)),
        ensures
            old(self)@.paid_out(old(self)@.sell_step(id as int), final(self)@, r),
    {
        let index: usize = id as usize;
        if index >= self.fields.len() {
            return Err(GameError::OutOfBounds);
        }
        let sold: Field = self.fields.remove(index);
        let price: Money = Field::calculate_price(sold.crop);
        self.money += price;
        Ok(price)
    }
}

} // verus!
