use h7_core::{
    irq_name, split_frame_region, Bringup, BringupError, BringupStep, FrameRegion, Gpu, Led,
    FRAME_BUFFER_ALLOC_SIZE, FRAME_BUFFER_SIZE,
};

#[test]
fn swap_twice_with_flag_cleared_scenario() {
    let a: usize = 0xc000_0000;
    let b: usize = 0xc018_0000;
    let mut gpu = Gpu::new(a, b);
    assert_eq!(gpu.swap(false), Some(b));
    assert_eq!((gpu.front_buffer(), gpu.back_buffer()), (b, a));
    assert_eq!(gpu.swap(false), Some(a));
    assert_eq!((gpu.front_buffer(), gpu.back_buffer()), (a, b));
}

#[test]
fn swap_alternates_when_flag_always_cleared() {
    let mut gpu = Gpu::new(1, 2);
    let mut flips = 0;
    for i in 0..9 {
        if gpu.swap(false).is_some() {
            flips += 1;
        }
        let expected = if i % 2 == 0 { (2, 1) } else { (1, 2) };
        assert_eq!((gpu.front_buffer(), gpu.back_buffer()), expected);
    }
    assert_eq!(flips, 9);
}

#[test]
fn swap_never_flips_while_pending() {
    let mut gpu = Gpu::new(1, 2);
    for _ in 0..7 {
        assert_eq!(gpu.swap(true), None);
        assert_eq!((gpu.front_buffer(), gpu.back_buffer()), (1, 2));
    }
}

#[test]
fn frame_region_layout() {
    assert_eq!(FRAME_BUFFER_SIZE, 1024 * 768 * 2);
    assert_eq!(FRAME_BUFFER_ALLOC_SIZE, 2 * FRAME_BUFFER_SIZE);
    assert_eq!(
        split_frame_region(0xc000_0000, 8 * 1024 * 1024),
        Some(FrameRegion {
            first: 0xc000_0000,
            second: 0xc000_0000 + 1024 * 768 * 2,
            rest: 0xc000_0000 + 2 * 1024 * 768 * 2,
        })
    );
    assert_eq!(split_frame_region(0xc000_0000, FRAME_BUFFER_ALLOC_SIZE - 1), None);
    assert_eq!(split_frame_region(usize::MAX - 10, FRAME_BUFFER_ALLOC_SIZE), None);
}

#[test]
fn led_words() {
    assert_eq!(Led::Red.on(), 1 << 21);
    assert_eq!(Led::Green.on(), 1 << 22);
    assert_eq!(Led::Blue.off(), 1 << 7);
    assert!(Led::Red.state(0));
    assert!(!Led::Red.state(1 << 5));
    assert!(Led::Green.state(1 << 5));
    assert_eq!(Led::Blue.toggle(0), 1 << 7);
    assert_eq!(Led::Blue.toggle(1 << 7), 1 << 23);
}

#[test]
fn bringup_runs_in_order() {
    let mut b = Bringup::new();
    let order = [
        BringupStep::ConfigurePhy,
        BringupStep::StartLink,
        BringupStep::EnableBusTurnaround,
        BringupStep::ForceRxLowPower,
        BringupStep::ArmSwapTimer,
    ];
    for step in order {
        assert!(!b.swap_allowed());
        assert_eq!(b.next_step(), Some(step));
        assert_eq!(b.complete(step), Ok(()));
    }
    assert_eq!(b.next_step(), None);
    assert!(b.swap_allowed());
    assert_eq!(b.complete(BringupStep::ConfigurePhy), Err(BringupError::OutOfOrder));
}

#[test]
fn bringup_refuses_out_of_order_step() {
    let mut b = Bringup::new();
    assert_eq!(b.complete(BringupStep::StartLink), Err(BringupError::OutOfOrder));
    assert_eq!(b.next_step(), Some(BringupStep::ConfigurePhy));
}

#[test]
fn irq_names() {
    assert_eq!(irq_name(-14), "NonMaskableInt_IRQn");
    assert_eq!(irq_name(-1), "SysTick_IRQn");
    assert_eq!(irq_name(1), "PVD_STM_IRQn");
    assert_eq!(irq_name(-3), "<Unknown>");
    assert_eq!(irq_name(42), "<Unknown>");
}
