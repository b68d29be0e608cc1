use vstd::prelude::*;

verus! {

/// The CMSIS name of interrupt or exception number `irqn`.
pub open spec fn irq_name_of(irqn: i16) -> &'static str {
    if irqn == -14 {
        "NonMaskableInt_IRQn"
    } else if irqn == -13 {
        "HardFault_IRQn"
    } else if irqn == -12 {
        "MemoryManagement_IRQn"
    } else if irqn == -11 {
        "BusFault_IRQn"
    } else if irqn == -10 {
        "UsageFault_IRQn"
    } else if irqn == -9 {
        "SecureFault_IRQn"
    } else if irqn == -5 {
        "SVCall_IRQn"
    } else if irqn == -4 {
        "DebugMonitor_IRQn"
    } else if irqn == -2 {
        "PendSV_IRQn"
    } else if irqn == -1 {
        "SysTick_IRQn"
    } else if irqn == 0 {
        "WWDG_STM_IRQn"
    } else if irqn == 1 {
        "PVD_STM_IRQn"
    } else {
        "<Unknown>"
    }
}

/// Name an unexpected interrupt or exception for the report of the
/// default handler.
pub fn irq_name(irqn: i16) -> (r: &'static str)
    ensures
        r == irq_name_of(irqn),
{
    match irqn {
        -14 => "NonMaskableInt_IRQn",
        -13 => "HardFault_IRQn",
        -12 => "MemoryManagement_IRQn",
        -11 => "BusFault_IRQn",
        -10 => "UsageFault_IRQn",
        -9 => "SecureFault_IRQn",
        -5 => "SVCall_IRQn",
        -4 => "DebugMonitor_IRQn",
        -2 => "PendSV_IRQn",
        -1 => "SysTick_IRQn",
        0 => "WWDG_STM_IRQn",
        1 => "PVD_STM_IRQn",
        _ => "<Unknown>",
    }
}

} // verus!
