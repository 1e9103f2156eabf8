use notation_tab::text::decimal_string;
use notation_tab::BarPosition;
use notation_tab::Position;
use notation_tab::TabPosition;
use notation_tab::Units;

#[test]
fn new_position_is_at_the_start_of_bar_one() {
    let p = Position::new(Units(16));
    assert_eq!(p.bar_units, Units(16));
    assert_eq!(p.tab, TabPosition::new(Units(0)));
    assert_eq!(p.bar, BarPosition::new(1, Units(0)));
}

#[test]
fn constructors_keep_their_arguments() {
    assert_eq!(TabPosition::new(Units(7)).in_tab_pos, Units(7));
    let b = BarPosition::new(3, Units(5));
    assert_eq!(b.bar_ordinal, 3);
    assert_eq!(b.in_bar_pos, Units(5));
}

#[test]
fn bar_ordinal_counts_whole_bars_from_one() {
    let p = Position::new(Units(16));
    assert_eq!(p.calc_bar_ordinal(Units(0)), 1);
    assert_eq!(p.calc_bar_ordinal(Units(15)), 1);
    assert_eq!(p.calc_bar_ordinal(Units(16)), 2);
    assert_eq!(p.calc_bar_ordinal(Units(31)), 2);
    assert_eq!(p.calc_bar_ordinal(Units(40)), 3);
}

#[test]
fn bar_ordinal_with_bars_of_one_tick() {
    let p = Position::new(Units(1));
    assert_eq!(p.calc_bar_ordinal(Units(0)), 1);
    assert_eq!(p.calc_bar_ordinal(Units(9)), 10);
}

#[test]
fn bar_pos_is_the_start_of_the_bar() {
    let p = Position::new(Units(16));
    assert_eq!(p.cal_bar_pos(1), Units(0));
    assert_eq!(p.cal_bar_pos(2), Units(16));
    assert_eq!(p.cal_bar_pos(3), Units(32));
    let empty = Position::new(Units(0));
    assert_eq!(empty.cal_bar_pos(5), Units(0));
}

#[test]
fn set_in_tab_finds_bar_and_place_in_bar() {
    let mut p = Position::new(Units(16));
    p.set_in_tab(Units(40));
    assert_eq!(p.bar_units, Units(16));
    assert_eq!(p.tab.in_tab_pos, Units(40));
    assert_eq!(p.bar.bar_ordinal, 3);
    assert_eq!(p.bar.in_bar_pos, Units(8));
}

#[test]
fn set_in_tab_on_a_bar_line_starts_the_next_bar() {
    let mut p = Position::new(Units(16));
    p.set_in_tab(Units(32));
    assert_eq!(p.bar.bar_ordinal, 3);
    assert_eq!(p.bar.in_bar_pos, Units(0));
}

#[test]
fn set_in_bar_finds_the_place_in_the_tab() {
    let mut p = Position::new(Units(16));
    p.set_in_bar(3, Units(8));
    assert_eq!(p.bar_units, Units(16));
    assert_eq!(p.tab.in_tab_pos, Units(40));
    assert_eq!(p.bar.bar_ordinal, 3);
    assert_eq!(p.bar.in_bar_pos, Units(8));
}

#[test]
fn set_in_bar_keeps_a_place_beyond_the_bar_as_given() {
    let mut p = Position::new(Units(16));
    p.set_in_bar(1, Units(20));
    assert_eq!(p.tab.in_tab_pos, Units(20));
    assert_eq!(p.bar.bar_ordinal, 1);
    assert_eq!(p.bar.in_bar_pos, Units(20));
}

#[test]
fn bar_then_tab_gives_the_same_place() {
    let mut p = Position::new(Units(12));
    p.set_in_bar(5, Units(11));
    let q = p;
    p.set_in_tab(q.tab.in_tab_pos);
    assert_eq!(p, q);
}

#[test]
fn tab_then_bar_gives_the_same_place() {
    let mut p = Position::new(Units(12));
    p.set_in_tab(Units(100));
    let q = p;
    p.set_in_bar(q.bar.bar_ordinal, q.bar.in_bar_pos);
    assert_eq!(p, q);
}

#[test]
fn tick_moves_forward_and_crosses_bar_lines() {
    let mut p = Position::new(Units(16));
    p.tick(Units(10));
    assert_eq!(p.tab.in_tab_pos, Units(10));
    assert_eq!(p.bar, BarPosition::new(1, Units(10)));
    p.tick(Units(10));
    assert_eq!(p.tab.in_tab_pos, Units(20));
    assert_eq!(p.bar, BarPosition::new(2, Units(4)));
    p.tick(Units(0));
    assert_eq!(p.tab.in_tab_pos, Units(20));
    assert_eq!(p.bar, BarPosition::new(2, Units(4)));
}

#[test]
fn two_ticks_are_one_tick_by_the_sum() {
    let mut a = Position::new(Units(7));
    a.tick(Units(5));
    a.tick(Units(30));
    let mut b = Position::new(Units(7));
    b.tick(Units(35));
    assert_eq!(a, b);
}

#[test]
fn tick_corrects_a_place_that_was_beyond_its_bar() {
    let mut p = Position::new(Units(16));
    p.set_in_bar(1, Units(20));
    p.tick(Units(1));
    assert_eq!(p.tab.in_tab_pos, Units(21));
    assert_eq!(p.bar, BarPosition::new(2, Units(5)));
}

#[test]
fn a_place_is_passed_from_the_moment_it_is_reached() {
    let mut p = Position::new(Units(16));
    p.set_in_tab(Units(40));
    assert!(p.is_passed(&BarPosition::new(3, Units(8))));
    assert!(p.is_passed(&BarPosition::new(3, Units(7))));
    assert!(!p.is_passed(&BarPosition::new(3, Units(9))));
    assert!(p.is_passed(&BarPosition::new(1, Units(15))));
    assert!(!p.is_passed(&BarPosition::new(4, Units(0))));
}

#[test]
fn a_place_stays_passed_as_playback_goes_on() {
    let mut p = Position::new(Units(16));
    let place = BarPosition::new(2, Units(3));
    p.set_in_tab(Units(19));
    assert!(p.is_passed(&place));
    p.tick(Units(1));
    assert!(p.is_passed(&place));
    p.tick(Units(100));
    assert!(p.is_passed(&place));
}

#[test]
fn an_end_is_passed_when_start_and_duration_are_reached() {
    let mut p = Position::new(Units(16));
    p.set_in_tab(Units(40));
    let start = BarPosition::new(3, Units(4));
    assert!(p.is_passed_with(&start, Units(4)));
    assert!(p.is_passed_with(&start, Units(0)));
    assert!(!p.is_passed_with(&start, Units(5)));
    assert!(p.is_passed_with(&BarPosition::new(2, Units(0)), Units(24)));
    assert!(!p.is_passed_with(&BarPosition::new(2, Units(0)), Units(25)));
}

#[test]
fn passing_is_decided_without_overflow() {
    let mut p = Position::new(Units(u64::MAX));
    p.set_in_tab(Units(u64::MAX));
    assert_eq!(p.bar.bar_ordinal, 2);
    assert_eq!(p.bar.in_bar_pos, Units(0));
    let far = BarPosition::new(usize::MAX, Units(u64::MAX));
    assert!(!p.is_passed(&far));
    assert!(!p.is_passed_with(&far, Units(u64::MAX)));
    assert!(p.is_passed(&BarPosition::new(2, Units(0))));
    assert!(!p.is_passed(&BarPosition::new(2, Units(1))));
}

#[test]
fn tab_position_text() {
    assert_eq!(TabPosition::new(Units(40)).to_string(), "<TabPosition>(40)");
    assert_eq!(TabPosition::new(Units(0)).to_string(), "<TabPosition>(0)");
}

#[test]
fn bar_position_text() {
    assert_eq!(BarPosition::new(3, Units(8)).to_string(), "<BarPosition>(3:8)");
    assert_eq!(BarPosition::new(12, Units(0)).to_string(), "<BarPosition>(12:0)");
}

#[test]
fn position_text() {
    let mut p = Position::new(Units(16));
    assert_eq!(p.to_string(), "<Position>(tab:0, bar:1:0)");
    p.set_in_tab(Units(40));
    assert_eq!(p.to_string(), "<Position>(tab:40, bar:3:8)");
}

#[test]
fn decimal_numerals() {
    assert_eq!(decimal_string(0), "0");
    assert_eq!(decimal_string(7), "7");
    assert_eq!(decimal_string(10), "10");
    assert_eq!(decimal_string(109), "109");
    assert_eq!(decimal_string(1234567890), "1234567890");
    assert_eq!(decimal_string(u64::MAX), "18446744073709551615");
}
