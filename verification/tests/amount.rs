use todo_app::Amount;
use todo_app::Error;
use todo_app::Todo;

#[test]
fn zero_is_zero() {
    assert_eq!(Amount::zero().words, [0, 0, 0, 0]);
    assert!(Amount::zero().is_zero());
    assert!(!Amount { words: [0, 0, 0, 1] }.is_zero());
    assert!(!Amount::from_u128(1).is_zero());
}

#[test]
fn from_u128_fills_the_low_words() {
    assert_eq!(Amount::from_u128(0).words, [0, 0, 0, 0]);
    assert_eq!(Amount::from_u128(5).words, [5, 0, 0, 0]);
    assert_eq!(Amount::from_u128(1u128 << 64).words, [0, 1, 0, 0]);
    assert_eq!(Amount::from_u128(u128::MAX).words, [u64::MAX, u64::MAX, 0, 0]);
}

#[test]
fn less_than_orders_by_the_high_words_first() {
    let low = Amount { words: [u64::MAX, 0, 0, 0] };
    let high = Amount { words: [0, 0, 0, 1] };
    assert!(low.less_than(&high));
    assert!(!high.less_than(&low));
    assert!(!low.less_than(&low));
    assert!(Amount::from_u128(1).less_than(&Amount::from_u128(2)));
    assert!(Amount::zero().less_than(&Amount::from_u128(1)));
}

#[test]
fn open_admits_from_the_minimum_on() {
    let at = Amount::from_u128(1_000_000_000_000);
    let below = Amount::from_u128(999_999_999_999);
    assert_eq!(
        Todo::open(3, String::from("t"), at),
        Ok(Todo { id: 3, content: String::from("t"), completed: false, amount: at })
    );
    assert_eq!(Todo::open(3, String::from("t"), below), Err(Error::NotEnoughFunds));
}

#[test]
fn toggle_flips_only_the_completion() {
    let t = Todo { id: 9, content: String::from("t"), completed: false, amount: Amount::from_u128(4) };
    let flipped = t.duplicate().toggle();
    assert_eq!(
        flipped,
        Todo { id: 9, content: String::from("t"), completed: true, amount: Amount::from_u128(4) }
    );
    assert_eq!(flipped.toggle(), t);
}

#[test]
fn release_gives_each_outcome() {
    let four = Amount::from_u128(4);
    let open = Todo { id: 1, content: String::from("t"), completed: false, amount: four };
    let done = Todo { id: 1, content: String::from("t"), completed: true, amount: four };
    let gone = Todo { id: 1, content: String::from("t"), completed: true, amount: Amount::zero() };
    assert_eq!(open.release(&four), Err(Error::InvalidTodo));
    assert_eq!(gone.duplicate().release(&four), Err(Error::InvalidTodo));
    assert_eq!(done.duplicate().release(&Amount::from_u128(3)), Err(Error::NotEnoughFunds));
    assert_eq!(done.release(&four), Ok((gone, four)));
}
