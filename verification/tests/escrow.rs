use todo_app::Amount;
use todo_app::Error;
use todo_app::Owner;
use todo_app::Todo;
use todo_app::TodoApp;
use todo_app::MINIMUM_DEPOSIT;

fn owner(tag: u8) -> Owner {
    let mut bytes = [0u8; 32];
    bytes[0] = tag;
    Owner::new(bytes)
}

fn minimum() -> Amount {
    Amount::from_u128(MINIMUM_DEPOSIT)
}

#[test]
fn minimum_deposit_is_a_hundred_times_ten_to_the_tenth() {
    assert_eq!(MINIMUM_DEPOSIT, 100 * 10u128.pow(10));
    assert_eq!(Amount::minimum_deposit().words, [1_000_000_000_000u64, 0, 0, 0]);
}

#[test]
fn new_ledger_is_empty() {
    let app = TodoApp::new();
    assert_eq!(app.get_counter(owner(1)), 0);
    assert_eq!(app.get_todo(owner(1), 0), None);
}

#[test]
fn default_ledger_is_empty() {
    let mut app = TodoApp::default();
    assert_eq!(app.get_counter(owner(9)), 0);
    assert_eq!(app.toggle_todo(owner(9), 0), None);
}

#[test]
fn create_toggle_release_then_release_again() {
    let a = owner(1);
    let mut app = TodoApp::new();
    assert_eq!(app.add_todo(a, minimum(), String::from("x")), Ok(()));
    assert_eq!(
        app.get_todo(a, 0),
        Some(Todo { id: 0, content: String::from("x"), completed: false, amount: minimum() })
    );
    assert_eq!(app.toggle_todo(a, 0), Some(true));
    assert_eq!(app.release_deposit(a, 0, minimum()), Ok(minimum()));
    let settled = app.get_todo(a, 0).unwrap();
    assert_eq!(settled.amount, Amount::zero());
    assert!(settled.completed);
    assert_eq!(app.release_deposit(a, 0, minimum()), Err(Error::InvalidTodo));
}

#[test]
fn create_below_minimum_is_refused() {
    let a = owner(1);
    let mut app = TodoApp::new();
    let paid = Amount::from_u128(MINIMUM_DEPOSIT - 1);
    assert_eq!(app.add_todo(a, paid, String::from("x")), Err(Error::NotEnoughFunds));
    assert_eq!(app.get_counter(a), 0);
    assert_eq!(app.get_todo(a, 0), None);
}

#[test]
fn create_with_nothing_paid_is_refused() {
    let a = owner(1);
    let mut app = TodoApp::new();
    assert_eq!(app.add_todo(a, Amount::zero(), String::new()), Err(Error::NotEnoughFunds));
    assert_eq!(app.get_counter(a), 0);
}

#[test]
fn create_above_minimum_locks_all_that_was_paid() {
    let a = owner(1);
    let mut app = TodoApp::new();
    let paid = Amount { words: [0, 0, 0, 7] };
    assert_eq!(app.add_todo(a, paid, String::from("big")), Ok(()));
    assert_eq!(app.get_todo(a, 0).unwrap().amount, paid);
}

#[test]
fn counter_counts_creates_and_ids_follow_creation() {
    let a = owner(1);
    let mut app = TodoApp::new();
    let names = ["zero", "one", "two", "three", "four"];
    for (n, name) in names.iter().enumerate() {
        assert_eq!(app.get_counter(a), n as u64);
        assert_eq!(app.add_todo(a, minimum(), String::from(*name)), Ok(()));
    }
    assert_eq!(app.get_counter(a), 5);
    for (n, name) in names.iter().enumerate() {
        let t = app.get_todo(a, n as u64).unwrap();
        assert_eq!(t.id, n as u64);
        assert_eq!(t.content, *name);
        assert!(!t.completed);
    }
    assert_eq!(app.get_todo(a, 5), None);
}

#[test]
fn refused_create_does_not_use_up_an_id() {
    let a = owner(1);
    let mut app = TodoApp::new();
    assert_eq!(app.add_todo(a, minimum(), String::from("first")), Ok(()));
    assert_eq!(
        app.add_todo(a, Amount::from_u128(1), String::from("cheap")),
        Err(Error::NotEnoughFunds)
    );
    assert_eq!(app.get_counter(a), 1);
    assert_eq!(app.add_todo(a, minimum(), String::from("second")), Ok(()));
    assert_eq!(app.get_todo(a, 1).unwrap().content, "second");
}

#[test]
fn toggle_of_a_missing_todo_gives_none() {
    let a = owner(1);
    let mut app = TodoApp::new();
    assert_eq!(app.toggle_todo(a, 0), None);
    assert_eq!(app.add_todo(a, minimum(), String::from("x")), Ok(()));
    assert_eq!(app.toggle_todo(a, 1), None);
    assert_eq!(app.toggle_todo(owner(2), 0), None);
}

#[test]
fn toggle_twice_restores_the_todo() {
    let a = owner(1);
    let mut app = TodoApp::new();
    assert_eq!(app.add_todo(a, minimum(), String::from("x")), Ok(()));
    let before = app.get_todo(a, 0);
    assert_eq!(app.toggle_todo(a, 0), Some(true));
    assert_eq!(app.toggle_todo(a, 0), Some(false));
    assert_eq!(app.get_todo(a, 0), before);
}

#[test]
fn release_of_a_missing_todo_is_invalid() {
    let mut app = TodoApp::new();
    assert_eq!(app.release_deposit(owner(1), 0, minimum()), Err(Error::InvalidTodo));
}

#[test]
fn release_before_completion_is_invalid() {
    let a = owner(1);
    let mut app = TodoApp::new();
    assert_eq!(app.add_todo(a, minimum(), String::from("x")), Ok(()));
    let before = app.get_todo(a, 0);
    assert_eq!(
        app.release_deposit(a, 0, Amount { words: [u64::MAX; 4] }),
        Err(Error::InvalidTodo)
    );
    assert_eq!(app.get_todo(a, 0), before);
}

#[test]
fn release_without_funds_leaves_the_todo() {
    let a = owner(1);
    let mut app = TodoApp::new();
    assert_eq!(app.add_todo(a, minimum(), String::from("x")), Ok(()));
    assert_eq!(app.toggle_todo(a, 0), Some(true));
    let short = Amount::from_u128(MINIMUM_DEPOSIT - 1);
    assert_eq!(app.release_deposit(a, 0, short), Err(Error::NotEnoughFunds));
    let t = app.get_todo(a, 0).unwrap();
    assert_eq!(t.amount, minimum());
    assert!(t.completed);
    assert_eq!(app.release_deposit(a, 0, minimum()), Ok(minimum()));
}

#[test]
fn release_compares_all_256_bits() {
    let a = owner(1);
    let mut app = TodoApp::new();
    let paid = Amount { words: [0, 0, 1, 0] };
    assert_eq!(app.add_todo(a, paid, String::from("x")), Ok(()));
    assert_eq!(app.toggle_todo(a, 0), Some(true));
    let low_only = Amount { words: [u64::MAX, u64::MAX, 0, 0] };
    assert_eq!(app.release_deposit(a, 0, low_only), Err(Error::NotEnoughFunds));
    let more = Amount { words: [0, 0, 0, 1] };
    assert_eq!(app.release_deposit(a, 0, more), Ok(paid));
}

#[test]
fn settled_todo_can_be_toggled_but_not_released() {
    let a = owner(1);
    let mut app = TodoApp::new();
    assert_eq!(app.add_todo(a, minimum(), String::from("x")), Ok(()));
    assert_eq!(app.toggle_todo(a, 0), Some(true));
    assert_eq!(app.release_deposit(a, 0, minimum()), Ok(minimum()));
    assert_eq!(app.toggle_todo(a, 0), Some(false));
    assert_eq!(app.get_todo(a, 0).unwrap().amount, Amount::zero());
    assert_eq!(app.toggle_todo(a, 0), Some(true));
    assert_eq!(app.release_deposit(a, 0, minimum()), Err(Error::InvalidTodo));
}

#[test]
fn owners_do_not_touch_each_other() {
    let a = owner(1);
    let b = owner(2);
    let mut app = TodoApp::new();
    assert_eq!(app.add_todo(a, minimum(), String::from("a0")), Ok(()));
    assert_eq!(app.add_todo(b, minimum(), String::from("b0")), Ok(()));
    let b0 = app.get_todo(b, 0);
    assert_eq!(app.toggle_todo(a, 0), Some(true));
    assert_eq!(app.release_deposit(a, 0, minimum()), Ok(minimum()));
    assert_eq!(app.add_todo(a, minimum(), String::from("a1")), Ok(()));
    assert_eq!(app.get_todo(b, 0), b0);
    assert_eq!(app.get_counter(b), 1);
    assert_eq!(app.get_counter(a), 2);
    assert_eq!(app.release_deposit(b, 0, minimum()), Err(Error::InvalidTodo));
}

#[test]
fn owners_differ_in_any_byte() {
    let mut bytes = [0u8; 32];
    bytes[31] = 1;
    let a = Owner::new([0u8; 32]);
    let b = Owner::new(bytes);
    assert!(a.same_as(&a));
    assert!(!a.same_as(&b));
    let mut app = TodoApp::new();
    assert_eq!(app.add_todo(a, minimum(), String::from("x")), Ok(()));
    assert_eq!(app.get_todo(b, 0), None);
    assert_eq!(app.get_counter(b), 0);
}
