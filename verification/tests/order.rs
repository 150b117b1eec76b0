use ajo::order::sort_by_position;
use ajo::Identity;

fn who(n: u8) -> Identity {
    Identity::new([n; 32])
}

#[test]
fn sorting_puts_positions_in_ascending_order() {
    let order = vec![(who(1), 3), (who(2), 1), (who(3), 4), (who(4), 2)];
    assert_eq!(
        sort_by_position(&order),
        vec![(who(2), 1), (who(4), 2), (who(1), 3), (who(3), 4)]
    );
}

#[test]
fn sorting_leaves_a_sorted_order_as_it_is() {
    let order = vec![(who(9), 1), (who(8), 2), (who(7), 3)];
    assert_eq!(sort_by_position(&order), order);
}

#[test]
fn sorting_reverses_a_descending_order() {
    let order: Vec<(Identity, u8)> = (1..=10u8).rev().map(|p| (who(p), p)).collect();
    let expected: Vec<(Identity, u8)> = (1..=10u8).map(|p| (who(p), p)).collect();
    assert_eq!(sort_by_position(&order), expected);
}

#[test]
fn sorting_keeps_entries_of_one_position_in_their_order() {
    let order = vec![(who(1), 2), (who(2), 1), (who(3), 2), (who(4), 1), (who(5), 2)];
    assert_eq!(
        sort_by_position(&order),
        vec![(who(2), 1), (who(4), 1), (who(1), 2), (who(3), 2), (who(5), 2)]
    );
}

#[test]
fn sorting_nothing_gives_nothing() {
    assert_eq!(sort_by_position(&Vec::new()), Vec::new());
    assert_eq!(sort_by_position(&vec![(who(1), 255)]), vec![(who(1), 255)]);
}
