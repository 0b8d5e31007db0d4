use gbretools::disassembler::{ByteType, Disassembler};
use gbretools::gb::GameBoy;
use gbretools::navigation::{Navigation, label_branch_targets};

#[test]
fn new_navigation_starts_empty() {
    let nav = Navigation::new(0x100);
    assert_eq!(nav.cursor(), 0x100);
    assert_eq!(nav.label_for(0), None);
    assert_eq!(nav.bank_for(0), None);
}

#[test]
fn move_cursor_does_not_record_history() {
    let mut nav = Navigation::new(0x100);
    nav.move_cursor(0x200);
    assert_eq!(nav.cursor(), 0x200);
    assert_eq!(nav.back(), None);
}

#[test]
fn scenario_three_follows_three_backs() {
    // three follows and then three backs return the cursor to the start
    let mut nav = Navigation::new(0x100);
    nav.follow(0x200);
    nav.follow(0x300);
    nav.follow(0x400);
    assert_eq!(nav.cursor(), 0x400);
    assert_eq!(nav.back(), Some(0x300));
    assert_eq!(nav.back(), Some(0x200));
    assert_eq!(nav.back(), Some(0x100));
    assert_eq!(nav.cursor(), 0x100);
    // stepping past the oldest entry is a no-op
    assert_eq!(nav.back(), None);
    assert_eq!(nav.cursor(), 0x100);
}

#[test]
fn forward_replays_history() {
    let mut nav = Navigation::new(0x100);
    nav.follow(0x200);
    nav.follow(0x300);
    assert_eq!(nav.back(), Some(0x200));
    assert_eq!(nav.back(), Some(0x100));
    assert_eq!(nav.forward(), Some(0x100));
    assert_eq!(nav.forward(), Some(0x200));
    // stepping past the newest entry is a no-op
    assert_eq!(nav.forward(), None);
}

#[test]
fn follow_after_back_discards_forward_targets() {
    let mut nav = Navigation::new(0x100);
    nav.follow(0x200);
    nav.follow(0x300);
    nav.follow(0x400);
    assert_eq!(nav.back(), Some(0x300));
    assert_eq!(nav.back(), Some(0x200));
    nav.follow(0x999);
    // the entries that used to be ahead are gone
    assert_eq!(nav.forward(), None);
    assert_eq!(nav.cursor(), 0x999);
    assert_eq!(nav.back(), Some(0x200));
}

#[test]
fn set_label_binds_and_overwrites() {
    let mut nav = Navigation::new(0);
    nav.set_label(5, String::from("start"));
    assert_eq!(nav.label_for(5), Some(&String::from("start")));
    nav.set_label(5, String::from("entry"));
    assert_eq!(nav.label_for(5), Some(&String::from("entry")));
}

#[test]
fn label_stability_under_default_labelling() {
    // a user-set name survives ensure_default_label on the same offset
    let mut nav = Navigation::new(0);
    nav.set_label(5, String::from("start"));
    nav.ensure_default_label(5);
    assert_eq!(nav.label_for(5), Some(&String::from("start")));
}

#[test]
fn ensure_default_label_fills_empty_slots() {
    let mut nav = Navigation::new(0);
    nav.ensure_default_label(7);
    assert_eq!(nav.label_for(7), Some(&String::from("LOC_000007")));
    nav.ensure_default_label(0x1234);
    assert_eq!(nav.label_for(0x1234), Some(&String::from("LOC_001234")));
    nav.ensure_default_label(0);
    assert_eq!(nav.label_for(0), Some(&String::from("LOC_000000")));
    // values wider than six digits keep all their digits
    nav.ensure_default_label(0x1234567);
    assert_eq!(nav.label_for(0x1234567), Some(&String::from("LOC_1234567")));
}

#[test]
fn ensure_default_label_is_idempotent() {
    let mut nav = Navigation::new(0);
    nav.ensure_default_label(7);
    nav.ensure_default_label(7);
    assert_eq!(nav.label_for(7), Some(&String::from("LOC_000007")));
}

#[test]
fn bank_assignments() {
    let mut nav = Navigation::new(0);
    assert_eq!(nav.bank_for(0x100), None);
    nav.assign_bank(0x100, 3);
    assert_eq!(nav.bank_for(0x100), Some(3));
    nav.assign_bank(0x100, 5);
    assert_eq!(nav.bank_for(0x100), Some(5));
    assert_eq!(nav.banks().get(&0x100), Some(&5));
}

#[test]
fn discovered_branch_targets_become_labelled() {
    // CALL 0x0004; NOP; RET: after discovery the call target gets a label
    let rom = [0xcdu8, 0x04, 0x00, 0x00, 0xc9];
    let mut d = Disassembler::<GameBoy>::new(&rom);
    let mut nav = Navigation::new(0);
    d.mark_code(0);
    assert_eq!(d.tag_at(4), ByteType::Code);
    label_branch_targets(&d, &mut nav);
    assert_eq!(nav.label_for(4), Some(&String::from("LOC_000004")));
    // offsets that are not branch targets stay unlabelled
    assert_eq!(nav.label_for(0), None);
    assert_eq!(nav.label_for(3), None);
}

#[test]
fn labelling_keeps_user_names_on_targets() {
    let rom = [0xcdu8, 0x04, 0x00, 0x00, 0xc9];
    let mut d = Disassembler::<GameBoy>::new(&rom);
    let mut nav = Navigation::new(0);
    nav.set_label(4, String::from("subroutine"));
    d.mark_code(0);
    label_branch_targets(&d, &mut nav);
    assert_eq!(nav.label_for(4), Some(&String::from("subroutine")));
}
