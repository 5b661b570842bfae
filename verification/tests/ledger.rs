use e_plugin::milestones::{milestone, MILESTONE_COUNT};
use e_plugin::player::player_uuid;
use e_plugin::state::EState;

#[test]
fn unknown_player_has_zero() {
    let s = EState::new();
    assert_eq!(s.get_e(7), 0);
}

#[test]
fn add_then_get_gives_sum() {
    let mut s = EState::new();
    s.add_e(1, 5);
    assert_eq!(s.get_e(1), 5);
    s.add_e(1, -8);
    assert_eq!(s.get_e(1), -3);
    assert_eq!(s.get_e(2), 0);
}

#[test]
fn remove_undoes_add() {
    let mut s = EState::new();
    s.set_e(3, 40);
    s.add_e(3, 17);
    s.remove_e(3, 17);
    assert_eq!(s.get_e(3), 40);
    s.remove_e(9, 4);
    assert_eq!(s.get_e(9), -4);
}

#[test]
fn set_then_get() {
    let mut s = EState::new();
    s.add_e(4, 10);
    s.set_e(4, -1);
    assert_eq!(s.get_e(4), -1);
    s.set_e(5, i64::MAX);
    assert_eq!(s.get_e(5), i64::MAX);
    assert_eq!(s.get_e(4), -1);
}

#[test]
fn award_reports_first_milestones() {
    let mut s = EState::new();
    let a = s.award_es(11, 12);
    assert_eq!(a.old_balance, 0);
    assert_eq!(a.new_balance, 12);
    assert_eq!(a.reached, vec![0, 1]);
    assert!(a.show_gain);
    assert_eq!(s.get_e(11), 12);
}

#[test]
fn award_of_zero_shows_nothing() {
    let mut s = EState::new();
    s.set_e(11, 30);
    let a = s.award_es(11, 0);
    assert!(a.reached.is_empty());
    assert!(!a.show_gain);
    assert_eq!(s.get_e(11), 30);
}

#[test]
fn award_reaching_exact_amounts() {
    let mut s = EState::new();
    s.set_e(2, 9);
    let a = s.award_es(2, 16);
    assert_eq!(a.reached, vec![1, 2]);
    let b = s.award_es(2, 999_975);
    assert_eq!(b.old_balance, 25);
    assert_eq!(b.new_balance, 1_000_000);
    assert_eq!(b.reached, (3..15).collect::<Vec<usize>>());
    let c = s.award_es(2, -999_999);
    assert!(c.reached.is_empty());
    let d = s.award_es(2, 1);
    assert_eq!(d.reached, Vec::<usize>::new());
    assert_eq!(d.new_balance, 2);
}

#[test]
fn milestones_in_order() {
    let amounts: Vec<i64> = (0..MILESTONE_COUNT).map(|i| milestone(i).amount).collect();
    assert_eq!(
        amounts,
        vec![1, 10, 25, 100, 250, 500, 1_000, 2_000, 5_000, 10_000, 25_000, 100_000, 250_000, 500_000, 1_000_000]
    );
    assert!(milestone(8).message.contains('\u{24d4}'));
    assert!(milestone(14).message.starts_with("1,000,000 Es!"));
}

#[test]
fn entries_load_back() {
    let mut s = EState::new();
    s.set_e(1, 10);
    s.set_e(2, -20);
    s.set_e(u128::MAX, 30);
    let mut entries = s.balance_entries();
    entries.sort();
    assert_eq!(entries, vec![(1, 10), (2, -20), (u128::MAX, 30)]);
    let mut t = EState::new();
    t.set_e(5, 5);
    t.replace_balances(entries);
    assert_eq!(t.get_e(1), 10);
    assert_eq!(t.get_e(2), -20);
    assert_eq!(t.get_e(u128::MAX), 30);
    assert_eq!(t.get_e(5), 0);
}

#[test]
fn later_entry_wins() {
    let mut s = EState::new();
    s.replace_balances(vec![(1, 1), (2, 2), (1, 3)]);
    assert_eq!(s.get_e(1), 3);
    assert_eq!(s.get_e(2), 2);
    assert_eq!(s.balance_entries().len(), 2);
}

#[test]
fn chat_ago_is_elapsed_time() {
    let mut s = EState::new();
    assert_eq!(s.get_latest_chat_ago(1, 500), None);
    s.set_latest_chat_instant(1, 100);
    assert_eq!(s.get_latest_chat_ago(1, 250), Some(150));
    assert_eq!(s.get_latest_chat_ago(1, 100), Some(0));
    assert_eq!(s.get_latest_chat_ago(1, 50), Some(0));
    assert_eq!(s.get_latest_chat_ago(2, 250), None);
    assert_eq!(s.get_e(1), 0);
}

#[test]
fn player_uuid_joins_halves() {
    assert_eq!(player_uuid(1, 2), (1u128 << 64) | 2);
    assert_eq!(player_uuid(0xa1a2a3a4b1b2c1c2, 0xd1d2d3d4d5d6d7d8), 0xa1a2a3a4b1b2c1c2d1d2d3d4d5d6d7d8);
    assert_eq!(player_uuid(0, 0), 0);
}

#[test]
fn milestones_in_two_steps_match_one_step() {
    let mut two = EState::new();
    let first = two.award_es(1, 12);
    let second = two.award_es(1, 18);
    let mut one = EState::new();
    let whole = one.award_es(1, 30);
    let mut stepped = first.reached.clone();
    stepped.extend(second.reached.iter().copied());
    assert_eq!(stepped, whole.reached);
    assert_eq!(whole.reached, vec![0, 1, 2]);
    assert_eq!(two.get_e(1), one.get_e(1));
}
