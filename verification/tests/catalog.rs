use cli_farm::farm::{Crop, Farm, Field};
use cli_farm::money::{whole_coins, Money, MONEY_SCALE};

fn coins(amount: f64) -> Money {
    (amount * MONEY_SCALE as f64) as Money
}

#[test]
fn one_coin_is_two_to_the_twentieth_units() {
    assert_eq!(MONEY_SCALE, 1 << 20);
    assert_eq!(whole_coins(1), MONEY_SCALE);
    assert_eq!(whole_coins(0), 0);
    assert_eq!(whole_coins(20), 20_971_520);
    assert_eq!(whole_coins(u32::MAX), (u32::MAX as i64) << 20);
}

#[test]
fn new_field_prices() {
    assert_eq!(Crop::Wheat.get_new_field_price(), coins(10.0));
    assert_eq!(Crop::Potato.get_new_field_price(), coins(100.0));
    assert_eq!(Crop::Carrot.get_new_field_price(), coins(1000.0));
}

#[test]
fn planting_prices() {
    assert_eq!(Crop::Wheat.get_planting_price(), coins(1.0));
    assert_eq!(Crop::Potato.get_planting_price(), coins(20.0));
    assert_eq!(Crop::Carrot.get_planting_price(), coins(50.0));
}

#[test]
fn max_levels() {
    assert_eq!(Crop::Wheat.get_max_level(), 5);
    assert_eq!(Crop::Potato.get_max_level(), 10);
    assert_eq!(Crop::Carrot.get_max_level(), 20);
}

#[test]
fn level_multiplier_is_one_half() {
    for crop in Farm::available_crops() {
        assert_eq!(crop.level_multiplier(), coins(0.5));
        assert_eq!(crop.level_multiplier(), 524_288);
    }
}

#[test]
fn grow_times_in_milliseconds() {
    assert_eq!(Crop::Wheat.grow_time(), 100_000);
    assert_eq!(Crop::Potato.grow_time(), 300_000);
    assert_eq!(Crop::Carrot.grow_time(), 1_000_000);
}

#[test]
fn base_payouts() {
    assert_eq!(Crop::Wheat.payout(), coins(1.0));
    assert_eq!(Crop::Potato.payout(), coins(10.0));
    assert_eq!(Crop::Carrot.payout(), coins(100.0));
}

#[test]
fn next_level_price_halves_the_multiplier() {
    // planting price * 10 * (0.5 / 2) * level
    assert_eq!(Crop::Wheat.get_next_level_price(1), coins(2.5));
    assert_eq!(Crop::Wheat.get_next_level_price(1), 2_621_440);
    assert_eq!(Crop::Wheat.get_next_level_price(4), coins(10.0));
    assert_eq!(Crop::Potato.get_next_level_price(3), coins(150.0));
    assert_eq!(Crop::Carrot.get_next_level_price(19), coins(2375.0));
}

#[test]
fn next_level_price_at_the_edges_of_a_level() {
    assert_eq!(Crop::Wheat.get_next_level_price(0), 0);
    assert_eq!(Crop::Carrot.get_next_level_price(255), coins(125.0 * 255.0));
}

#[test]
fn next_level_price_never_falls_with_the_level() {
    for crop in Farm::available_crops() {
        let mut last: Money = 0;
        for level in 0..=crop.get_max_level() {
            let price = crop.get_next_level_price(level);
            assert!(price >= last);
            last = price;
        }
    }
}

#[test]
fn available_crops_in_declaration_order() {
    assert_eq!(Farm::available_crops(), vec![Crop::Wheat, Crop::Potato, Crop::Carrot]);
}

#[test]
fn crop_names() {
    assert_eq!(Crop::Wheat.name(), "Wheat");
    assert_eq!(Crop::Potato.name(), "Potato");
    assert_eq!(Crop::Carrot.name(), "Carrot");
}

#[test]
fn calculate_price_is_the_new_field_price() {
    for crop in Farm::available_crops() {
        assert_eq!(Field::calculate_price(crop), crop.get_new_field_price());
    }
    assert_eq!(Field::calculate_price(Crop::Potato), coins(100.0));
}

#[test]
fn a_new_field_may_cost_less_than_ten_plantings() {
    // Nothing ties the two prices together but the catalog itself.
    for crop in Farm::available_crops() {
        assert!(crop.get_new_field_price() > crop.get_planting_price());
    }
    assert!(Crop::Carrot.get_new_field_price() > 10 * Crop::Carrot.get_planting_price());
    assert!(Crop::Potato.get_new_field_price() < 10 * Crop::Potato.get_planting_price());
}
