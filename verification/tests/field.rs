use cli_farm::farm::{Crop, Farm, Field};
use cli_farm::money::{Money, MONEY_SCALE};
use cli_farm::util::GameError;

fn coins(amount: f64) -> Money {
    (amount * MONEY_SCALE as f64) as Money
}

fn field_at_level(crop: Crop, level: u8) -> Field {
    Field { crop, level, plant_timestamp: None }
}

#[test]
fn a_new_field_is_idle_at_level_one() {
    let field = Field::new(Crop::Potato);
    assert_eq!(field.crop, Crop::Potato);
    assert_eq!(field.level, 1);
    assert_eq!(field.plant_timestamp, None);
    assert!(!field.planted());
}

#[test]
fn planting_records_the_time() {
    let mut field = Field::new(Crop::Wheat);
    assert_eq!(field.plant(1_234), Ok(()));
    assert!(field.planted());
    assert_eq!(field.plant_timestamp, Some(1_234));
    assert_eq!(field.level, 1);
    assert_eq!(field.crop, Crop::Wheat);
}

#[test]
fn planting_a_growing_field_is_refused() {
    let mut field = Field::new(Crop::Wheat);
    assert_eq!(field.plant(10), Ok(()));
    assert_eq!(field.plant(20), Err(GameError::AlreadyPlanted));
    assert_eq!(field.plant_timestamp, Some(10));
}

#[test]
fn time_to_farm_counts_down_and_stops_at_zero() {
    let mut field = Field::new(Crop::Wheat);
    field.plant(5_000).unwrap();
    assert_eq!(field.time_to_farm(5_000), 100_000);
    assert_eq!(field.time_to_farm(5_001), 99_999);
    assert_eq!(field.time_to_farm(104_999), 1);
    assert_eq!(field.time_to_farm(105_000), 0);
    assert_eq!(field.time_to_farm(105_001), 0);
    assert_eq!(field.time_to_farm(u128::MAX), 0);
}

#[test]
fn time_to_farm_with_a_clock_behind_the_planting() {
    let mut field = Field::new(Crop::Potato);
    field.plant(5_000).unwrap();
    assert_eq!(field.time_to_farm(4_000), 301_000);
    assert_eq!(field.time_to_farm(0), 305_000);
}

#[test]
fn harvest_before_maturity_is_not_yet_ready() {
    let mut field = Field::new(Crop::Wheat);
    field.plant(1_000).unwrap();
    assert_eq!(field.farm_at(1_000), Err(GameError::NotYetReady));
    assert_eq!(field.farm_at(100_999), Err(GameError::NotYetReady));
    assert_eq!(field.farm_at(0), Err(GameError::NotYetReady));
    assert_eq!(field.plant_timestamp, Some(1_000));
}

#[test]
fn harvest_exactly_at_maturity_pays_the_earnings() {
    let mut field = Field::new(Crop::Wheat);
    field.plant(1_000).unwrap();
    assert_eq!(field.farm_at(101_000), Ok(coins(1.5)));
    assert!(!field.planted());
    assert_eq!(field.level, 1);
}

#[test]
fn harvest_after_maturity_pays_the_earnings_of_the_current_level() {
    let mut field = field_at_level(Crop::Potato, 3);
    field.plant(0).unwrap();
    assert_eq!(field.farm_at(1_000_000_000), Ok(coins(33.75)));
    assert_eq!(field, field_at_level(Crop::Potato, 3));
}

#[test]
fn harvest_of_an_idle_field_is_already_farmed() {
    let mut field = Field::new(Crop::Carrot);
    assert_eq!(field.farm_at(0), Err(GameError::AlreadyFarmed));
    assert_eq!(field.farm_at(u128::MAX), Err(GameError::AlreadyFarmed));
    assert_eq!(field, Field::new(Crop::Carrot));
}

#[test]
fn harvest_twice_without_replanting_is_already_farmed() {
    let mut field = Field::new(Crop::Wheat);
    field.plant(0).unwrap();
    assert_eq!(field.farm_at(100_000), Ok(coins(1.5)));
    assert_eq!(field.farm_at(100_000), Err(GameError::AlreadyFarmed));
    assert_eq!(field.farm_at(900_000), Err(GameError::AlreadyFarmed));
    field.plant(900_000).unwrap();
    assert_eq!(field.farm_at(999_999), Err(GameError::NotYetReady));
    assert_eq!(field.farm_at(1_000_000), Ok(coins(1.5)));
}

#[test]
fn harvest_by_the_system_clock() {
    let mut idle = Field::new(Crop::Wheat);
    assert_eq!(idle.farm(), Err(GameError::AlreadyFarmed));

    let mut ripe = Field::new(Crop::Wheat);
    ripe.plant(0).unwrap();
    assert_eq!(ripe.farm(), Ok(coins(1.5)));
    assert!(!ripe.planted());

    let mut sown = Field::new(Crop::Wheat);
    sown.plant(u128::MAX - 100_000).unwrap();
    assert_eq!(sown.farm(), Err(GameError::NotYetReady));
    assert!(sown.planted());
}

#[test]
fn earnings_compound_by_one_and_a_half_per_level() {
    assert_eq!(field_at_level(Crop::Wheat, 1).earnings(), coins(1.5));
    assert_eq!(field_at_level(Crop::Wheat, 1).earnings(), 1_572_864);
    assert_eq!(field_at_level(Crop::Wheat, 2).earnings(), coins(2.25));
    assert_eq!(field_at_level(Crop::Wheat, 5).earnings(), coins(7.59375));
    assert_eq!(field_at_level(Crop::Potato, 1).earnings(), coins(15.0));
    assert_eq!(field_at_level(Crop::Potato, 10).earnings(), 604_661_760);
    assert_eq!(field_at_level(Crop::Carrot, 1).earnings(), coins(150.0));
    assert_eq!(field_at_level(Crop::Carrot, 20).earnings(), 348_678_440_100);
}

#[test]
fn earnings_do_not_depend_on_growth() {
    let mut field = field_at_level(Crop::Carrot, 7);
    let idle = field.earnings();
    field.plant(42).unwrap();
    assert_eq!(field.earnings(), idle);
    assert_eq!(idle, 100 * 2187 * 8192);
}

#[test]
fn level_up_price_by_level() {
    assert_eq!(field_at_level(Crop::Wheat, 1).level_up_price(), Ok(coins(2.5)));
    assert_eq!(field_at_level(Crop::Wheat, 4).level_up_price(), Ok(coins(10.0)));
    assert_eq!(field_at_level(Crop::Potato, 9).level_up_price(), Ok(coins(450.0)));
    assert_eq!(field_at_level(Crop::Carrot, 19).level_up_price(), Ok(coins(2375.0)));
}

#[test]
fn level_up_price_at_the_cap_is_refused() {
    assert_eq!(field_at_level(Crop::Wheat, 5).level_up_price(), Err(GameError::MaxLevelReached));
    assert_eq!(field_at_level(Crop::Potato, 10).level_up_price(), Err(GameError::MaxLevelReached));
    assert_eq!(field_at_level(Crop::Carrot, 20).level_up_price(), Err(GameError::MaxLevelReached));
    assert_eq!(field_at_level(Crop::Wheat, 6).level_up_price(), Err(GameError::MaxLevelReached));
}

#[test]
fn level_up_raises_the_level_by_one_up_to_the_cap() {
    for crop in Farm::available_crops() {
        let mut field = Field::new(crop);
        for expected in 2..=crop.get_max_level() {
            assert_eq!(field.level_up(), Ok(()));
            assert_eq!(field.level, expected);
        }
        assert_eq!(field.level_up(), Err(GameError::MaxLevelReached));
        assert_eq!(field.level, crop.get_max_level());
    }
}

#[test]
fn level_up_keeps_a_growing_field_growing() {
    let mut field = Field::new(Crop::Wheat);
    field.plant(77).unwrap();
    assert_eq!(field.level_up(), Ok(()));
    assert_eq!(field, Field { crop: Crop::Wheat, level: 2, plant_timestamp: Some(77) });
}
