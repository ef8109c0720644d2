use alloy::eips::BlockId;
use tick_events::chain_types::to_block_reference;
use tick_events::liquidity_math::{saturating_add_amount, saturating_sub_amount};
use tick_events::tick::Tick;
use tick_events::tick_data_provider::EphemeralTickDataProvider;

#[test]
fn new_table_is_empty() {
    let provider = EphemeralTickDataProvider::new();
    assert!(provider.ticks.is_empty());
    assert_eq!(provider.block_id, None);
    assert_eq!(provider.find(0), None);
}

#[test]
fn insert_keeps_the_records_sorted_by_index() {
    let mut provider = EphemeralTickDataProvider::new();
    provider.insert_tick(Tick::new(30, 3, 3));
    provider.insert_tick(Tick::new(-30, 1, 1));
    provider.insert_tick(Tick::new(0, 2, -2));
    provider.insert_tick(Tick::new(90, 4, 4));
    provider.insert_tick(Tick::new(-887272, 5, 5));
    assert_eq!(
        provider.ticks,
        vec![
            Tick::new(-887272, 5, 5),
            Tick::new(-30, 1, 1),
            Tick::new(0, 2, -2),
            Tick::new(30, 3, 3),
            Tick::new(90, 4, 4),
        ]
    );
}

#[test]
fn find_returns_the_record_with_the_index() {
    let mut provider = EphemeralTickDataProvider::new();
    provider.insert_tick(Tick::new(30, 3, -3));
    provider.insert_tick(Tick::new(-30, 1, 1));
    assert_eq!(provider.find(30), Some(&Tick::new(30, 3, -3)));
    assert_eq!(provider.find(-30), Some(&Tick::new(-30, 1, 1)));
    assert_eq!(provider.find(31), None);
}

#[test]
fn update_sets_absolute_values() {
    let mut provider = EphemeralTickDataProvider::new();
    provider.insert_tick(Tick::new(30, 3, -3));
    provider.insert_tick(Tick::new(-30, 1, 1));
    provider.update_tick(30, 100, 50);
    assert_eq!(provider.ticks, vec![Tick::new(-30, 1, 1), Tick::new(30, 100, 50)]);
}

#[test]
fn clone_is_independent_of_its_source() {
    let mut provider = EphemeralTickDataProvider::new();
    provider.insert_tick(Tick::new(1, 1, 1));
    let copy = provider.clone();
    provider.update_tick(1, 2, 2);
    assert_eq!(copy.ticks, vec![Tick::new(1, 1, 1)]);
    assert_eq!(provider.ticks, vec![Tick::new(1, 2, 2)]);
}

#[test]
fn adding_an_amount_clamps_at_the_signed_maximum() {
    assert_eq!(saturating_add_amount(0, 0), 0);
    assert_eq!(saturating_add_amount(5, 7), 12);
    assert_eq!(saturating_add_amount(-5, 7), 2);
    assert_eq!(saturating_add_amount(0, i128::MAX as u128), i128::MAX);
    assert_eq!(saturating_add_amount(0, 1u128 << 127), i128::MAX);
    assert_eq!(saturating_add_amount(i128::MAX, 1), i128::MAX);
    assert_eq!(saturating_add_amount(i128::MIN, 1u128 << 127), 0);
    assert_eq!(saturating_add_amount(i128::MIN, u128::MAX), i128::MAX);
    assert_eq!(saturating_add_amount(-1, u128::MAX), i128::MAX);
    assert_eq!(saturating_add_amount(i128::MIN, (1u128 << 127) + 5), 5);
}

#[test]
fn taking_an_amount_clamps_at_the_signed_minimum() {
    assert_eq!(saturating_sub_amount(0, 0), 0);
    assert_eq!(saturating_sub_amount(5, 7), -2);
    assert_eq!(saturating_sub_amount(-5, 7), -12);
    assert_eq!(saturating_sub_amount(0, i128::MAX as u128), -i128::MAX);
    assert_eq!(saturating_sub_amount(0, 1u128 << 127), i128::MIN);
    assert_eq!(saturating_sub_amount(0, (1u128 << 127) + 1), i128::MIN);
    assert_eq!(saturating_sub_amount(i128::MIN, 1), i128::MIN);
    assert_eq!(saturating_sub_amount(i128::MAX, u128::MAX), i128::MIN);
    assert_eq!(saturating_sub_amount(i128::MAX, 1u128 << 127), -1);
    assert_eq!(saturating_sub_amount(0, u128::MAX), i128::MIN);
}

#[test]
fn amount_arithmetic_agrees_with_the_standard_library() {
    let values = [i128::MIN, i128::MIN + 1, -7, -1, 0, 1, 7, i128::MAX - 1, i128::MAX];
    let amounts = [
        0,
        1,
        7,
        i128::MAX as u128,
        1u128 << 127,
        (1u128 << 127) + 1,
        u128::MAX - 1,
        u128::MAX,
    ];
    for x in values {
        for amount in amounts {
            assert_eq!(saturating_add_amount(x, amount), x.saturating_add_unsigned(amount));
            assert_eq!(saturating_sub_amount(x, amount), x.saturating_sub_unsigned(amount));
        }
    }
}

#[test]
fn block_reference_names_the_block_by_number() {
    assert_eq!(to_block_reference(None), None);
    assert_eq!(to_block_reference(Some(0)), Some(BlockId::number(0)));
    let reference = to_block_reference(Some(19_000_000)).unwrap();
    assert!(reference.is_number());
    assert_eq!(reference.as_u64(), Some(19_000_000));
}

#[test]
fn well_formedness_is_sortedness_without_repeats() {
    let mut provider = EphemeralTickDataProvider::new();
    assert!(provider.is_well_formed());
    provider.insert_tick(Tick::new(5, 1, 1));
    assert!(provider.is_well_formed());
    provider.insert_tick(Tick::new(-5, 1, 1));
    provider.insert_tick(Tick::new(7, 1, 1));
    assert!(provider.is_well_formed());
    provider.ticks.push(Tick::new(7, 2, 2));
    assert!(!provider.is_well_formed());
    provider.ticks.pop();
    provider.ticks.push(Tick::new(6, 2, 2));
    assert!(!provider.is_well_formed());
    provider.ticks.pop();
    provider.ticks.push(Tick::new(8, 2, 2));
    assert!(provider.is_well_formed());
}
