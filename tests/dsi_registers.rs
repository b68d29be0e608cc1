use h7_core::{modify_field, DsiPhyTimerConfig, DsiRegisters, DsiVideoConfig, VideoConfigError};

fn zero_regs() -> DsiRegisters {
    DsiRegisters {
        mcr: 0,
        wcfgr: 0,
        vmcr: 0,
        vpcr: 0,
        vccr: 0,
        vnpcr: 0,
        lvcidr: 0,
        lpcr: 0,
        lcolcr: 0,
        vhsacr: 0,
        vhbpcr: 0,
        vlcr: 0,
        vvsacr: 0,
        vvbpcr: 0,
        vvfpcr: 0,
        vvacr: 0,
        lpmcr: 0,
        cltcr: 0,
        dltcr: 0,
        pconfr: 0,
    }
}

fn ones_regs() -> DsiRegisters {
    DsiRegisters {
        mcr: u32::MAX,
        wcfgr: u32::MAX,
        vmcr: u32::MAX,
        vpcr: u32::MAX,
        vccr: u32::MAX,
        vnpcr: u32::MAX,
        lvcidr: u32::MAX,
        lpcr: u32::MAX,
        lcolcr: u32::MAX,
        vhsacr: u32::MAX,
        vhbpcr: u32::MAX,
        vlcr: u32::MAX,
        vvsacr: u32::MAX,
        vvbpcr: u32::MAX,
        vvfpcr: u32::MAX,
        vvacr: u32::MAX,
        lpmcr: u32::MAX,
        cltcr: u32::MAX,
        dltcr: u32::MAX,
        pconfr: u32::MAX,
    }
}

fn board_phy() -> DsiPhyTimerConfig {
    DsiPhyTimerConfig {
        ClockLaneHS2LPTime: 35,
        ClockLaneLP2HSTime: 20,
        DataLaneHS2LPTime: 35,
        DataLaneLP2HSTime: 35,
        DataLaneMaxReadTime: 0,
        StopWaitTime: 10,
    }
}

fn video(color_coding: u32, loosely_packed: u32) -> DsiVideoConfig {
    DsiVideoConfig {
        virtual_channel_id: 1,
        color_coding,
        loosely_packed,
        mode: 2,
        packet_size: 1024,
        number_of_chunks: 0,
        null_packet_size: 0xfff,
        hspolarity: 0,
        vspolarity: 1 << 1,
        depolarity: 1,
        horizontal_sync_active: 68,
        horizontal_back_porch: 80,
        horizontal_line: 1196,
        vertical_sync_active: 6,
        vertical_back_porch: 29,
        vertical_front_porch: 3,
        vertical_active: 768,
        lpcommand_enable: 1 << 15,
        lplargest_packet_size: 16,
        lpvactlargest_packet_size: 0,
        lphorizontal_front_porch_enable: 1 << 13,
        lphorizontal_back_porch_enable: 0,
        lpvertical_active_enable: 1 << 11,
        lpvertical_front_porch_enable: 1 << 10,
        lpvertical_back_porch_enable: 0,
        lpvertical_sync_active_enable: 1 << 8,
        frame_btaacknowledge_enable: 0,
    }
}

#[test]
fn modify_field_clears_then_sets() {
    let mut reg: u32 = 0xffff_ffff;
    modify_field(&mut reg, 0xff00, 0x1200);
    assert_eq!(reg, 0xffff_12ff);
}

#[test]
fn phy_board_timings_scenario() {
    let mut regs = zero_regs();
    board_phy().apply(&mut regs);
    assert_eq!(regs.cltcr & 0x3ff, 35);
    assert_eq!((regs.cltcr >> 16) & 0x3ff, 35);
    assert_eq!(regs.cltcr, 35 | (35 << 16));
    assert_eq!(regs.dltcr & 0xffff, 0);
    assert_eq!((regs.dltcr >> 16) & 0xff, 35);
    assert_eq!(regs.dltcr >> 24, 35);
    assert_eq!(regs.pconfr, 10 << 8);
    let mut expected = zero_regs();
    expected.cltcr = regs.cltcr;
    expected.dltcr = regs.dltcr;
    expected.pconfr = regs.pconfr;
    assert_eq!(regs, expected);
}

#[test]
fn phy_clock_lane_takes_larger_time() {
    let mut regs = zero_regs();
    let mut cfg = board_phy();
    cfg.ClockLaneHS2LPTime = 7;
    cfg.ClockLaneLP2HSTime = 0x3ff;
    cfg.apply(&mut regs);
    assert_eq!(regs.cltcr & 0x3ff, 0x3ff);
    assert_eq!(regs.cltcr >> 16, 0x3ff);
}

#[test]
fn phy_keeps_bits_outside_its_fields() {
    let mut regs = ones_regs();
    board_phy().apply(&mut regs);
    assert_eq!(regs.cltcr, 0xfc00_fc00 | 35 | (35 << 16));
    assert_eq!(regs.dltcr, (35 << 24) | (35 << 16) | 0x8000);
    assert_eq!(regs.pconfr, 0xffff_00ff | (10 << 8));
    assert_eq!(regs.vmcr, u32::MAX);
    assert_eq!(regs.mcr, u32::MAX);
}

#[test]
fn video_programs_every_field() {
    let mut regs = ones_regs();
    let cfg = video(5, 0);
    assert_eq!(cfg.apply(&mut regs), Ok(()));
    assert_eq!(regs.mcr, u32::MAX & !1);
    assert_eq!(regs.wcfgr, (u32::MAX & !0xf) | (5 << 1));
    let vmcr_mask: u32 = 0x3 | (0x7f << 8) | (1 << 15);
    assert_eq!(
        regs.vmcr,
        (u32::MAX & !vmcr_mask) | 2 | (1 << 15) | (1 << 13) | (1 << 11) | (1 << 10) | (1 << 8)
    );
    assert_eq!(regs.vpcr, (u32::MAX & !0x3fff) | 1024);
    assert_eq!(regs.vccr, u32::MAX & !0x1fff);
    assert_eq!(regs.vnpcr, (u32::MAX & !0x1fff) | 0xfff);
    assert_eq!(regs.lvcidr, (u32::MAX & !0x3) | 1);
    assert_eq!(regs.lpcr, (u32::MAX & !0x7) | 0x3);
    assert_eq!(regs.lcolcr, (u32::MAX & !0xf) | 5);
    assert_eq!(regs.vhsacr, (u32::MAX & !0xfff) | 68);
    assert_eq!(regs.vhbpcr, (u32::MAX & !0xfff) | 80);
    assert_eq!(regs.vlcr, (u32::MAX & !0x7fff) | 1196);
    assert_eq!(regs.vvsacr, (u32::MAX & !0x3ff) | 6);
    assert_eq!(regs.vvbpcr, (u32::MAX & !0x3ff) | 29);
    assert_eq!(regs.vvfpcr, (u32::MAX & !0x3ff) | 3);
    assert_eq!(regs.vvacr, (u32::MAX & !0x3fff) | 768);
    assert_eq!(regs.lpmcr, (u32::MAX & !0x00ff_00ff) | (16 << 16));
    assert_eq!(regs.cltcr, u32::MAX);
    assert_eq!(regs.dltcr, u32::MAX);
    assert_eq!(regs.pconfr, u32::MAX);
}

#[test]
fn video_non_rgb666_keeps_loosely_packed_bit() {
    let mut regs = zero_regs();
    regs.lcolcr = 1 << 8;
    assert_eq!(video(0, 0).apply(&mut regs), Ok(()));
    assert_eq!(regs.lcolcr & (1 << 8), 1 << 8);
    let mut regs = zero_regs();
    assert_eq!(video(5, 1 << 8).apply(&mut regs), Ok(()));
    assert_eq!(regs.lcolcr & (1 << 8), 0);
}

#[test]
fn video_rgb666_sets_loosely_packed_bit() {
    let mut regs = zero_regs();
    assert_eq!(video(3, 1 << 8).apply(&mut regs), Ok(()));
    assert_eq!(regs.lcolcr, 3 | (1 << 8));
    assert_eq!(regs.wcfgr, 3 << 1);
}

#[test]
fn video_rgb666_without_loosely_packed_is_refused() {
    let mut regs = ones_regs();
    regs.vmcr = 0x1234_5678;
    let before = regs;
    assert_eq!(
        video(3, 0).apply(&mut regs),
        Err(VideoConfigError::LooselyPackedMismatch)
    );
    assert_eq!(regs, before);
}

#[test]
fn video_apply_twice_matches_once() {
    let mut once = ones_regs();
    once.vmcr = 0xdead_beef;
    let mut twice = once;
    let cfg = video(3, 1 << 8);
    assert_eq!(cfg.apply(&mut once), Ok(()));
    assert_eq!(cfg.apply(&mut twice), Ok(()));
    assert_eq!(cfg.apply(&mut twice), Ok(()));
    assert_eq!(once, twice);
}

#[test]
fn validity_checks() {
    assert!(board_phy().is_valid());
    let mut phy = board_phy();
    phy.StopWaitTime = 0x100;
    assert!(!phy.is_valid());
    assert!(video(3, 1 << 8).is_valid());
    let mut cfg = video(5, 0);
    cfg.packet_size = 0x4000;
    assert!(!cfg.is_valid());
    let mut cfg = video(5, 0);
    cfg.lplargest_packet_size = 0x100;
    assert!(!cfg.is_valid());
}
