use dirtydmg_core::interrupt::{InterruptStatus, LCDSTAT_MASK, VBLANK_MASK};

#[test]
fn new_latch_has_nothing_pending_and_lets_nothing_through() {
    let is = InterruptStatus::new();
    assert_eq!(is.isrmask, 0);
    assert_eq!(is.is_vblank_active(), false);
    assert_eq!(is.is_lcdstat_active(), false);
}

#[test]
fn request_is_active_only_through_its_mask_bit() {
    let mut is = InterruptStatus::new();
    is.request_vblank();
    is.request_lcdstat();
    assert_eq!(is.is_vblank_active(), false);
    assert_eq!(is.is_lcdstat_active(), false);

    is.isrmask = VBLANK_MASK;
    assert_eq!(is.is_vblank_active(), true);
    assert_eq!(is.is_lcdstat_active(), false);

    is.isrmask = LCDSTAT_MASK;
    assert_eq!(is.is_vblank_active(), false);
    assert_eq!(is.is_lcdstat_active(), true);

    is.isrmask = 0xFC;
    assert_eq!(is.is_vblank_active(), false);
    assert_eq!(is.is_lcdstat_active(), false);
}

#[test]
fn requests_are_independent_of_each_other() {
    let mut is = InterruptStatus::new();
    is.isrmask = 0xFF;
    is.request_vblank();
    assert_eq!(is.is_vblank_active(), true);
    assert_eq!(is.is_lcdstat_active(), false);
    is.clear_vblank();
    is.request_lcdstat();
    assert_eq!(is.is_vblank_active(), false);
    assert_eq!(is.is_lcdstat_active(), true);
}

#[test]
fn repeated_requests_collapse_into_one() {
    let mut is = InterruptStatus::new();
    is.isrmask = 0xFF;
    is.request_lcdstat();
    is.request_lcdstat();
    is.request_lcdstat();
    assert_eq!(is.is_lcdstat_active(), true);
    is.clear_lcdstat();
    assert_eq!(is.is_lcdstat_active(), false);
    is.request_vblank();
    is.request_vblank();
    is.clear_vblank();
    assert_eq!(is.is_vblank_active(), false);
}

#[test]
fn clearing_keeps_the_mask_and_the_other_request() {
    let mut is = InterruptStatus::new();
    is.isrmask = 0x03;
    is.request_vblank();
    is.request_lcdstat();
    is.clear_vblank();
    assert_eq!(is.isrmask, 0x03);
    assert_eq!(is.is_vblank_active(), false);
    assert_eq!(is.is_lcdstat_active(), true);
    is.request_vblank();
    is.clear_lcdstat();
    assert_eq!(is.isrmask, 0x03);
    assert_eq!(is.is_vblank_active(), true);
    assert_eq!(is.is_lcdstat_active(), false);
}
