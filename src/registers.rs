use vstd::prelude::*;

verus! {

/// Image of the DSI host registers that bring-up programs.
///
/// The bring-up logic works on this image; the code that owns the hardware
/// reads the registers into it and writes the result back.
#[derive(Clone, Copy, Debug, PartialEq, Eq, Structural)]
pub struct DsiRegisters {
    /// Host mode configuration (command / video mode select).
    pub mcr: u32,
    /// Wrapper configuration (DSI mode, color multiplexing).
    pub wcfgr: u32,
    /// Video mode configuration (transmission type, low-power windows).
    pub vmcr: u32,
    /// Video packet size.
    pub vpcr: u32,
    /// Video chunk count.
    pub vccr: u32,
    /// Video null packet size.
    pub vnpcr: u32,
    /// Virtual channel id of the LTDC traffic.
    pub lvcidr: u32,
    /// Polarity of the control signals.
    pub lpcr: u32,
    /// Color coding and loosely-packed enable.
    pub lcolcr: u32,
    /// Horizontal sync active duration.
    pub vhsacr: u32,
    /// Horizontal back porch duration.
    pub vhbpcr: u32,
    /// Total line duration.
    pub vlcr: u32,
    /// Vertical sync active duration.
    pub vvsacr: u32,
    /// Vertical back porch duration.
    pub vvbpcr: u32,
    /// Vertical front porch duration.
    pub vvfpcr: u32,
    /// Vertical active duration.
    pub vvacr: u32,
    /// Low-power packet size limits.
    pub lpmcr: u32,
    /// Clock-lane transition timing.
    pub cltcr: u32,
    /// Data-lane transition timing.
    pub dltcr: u32,
    /// PHY configuration (lane count, stop wait time).
    pub pconfr: u32,
}

/// A register after one field update: the bits of `mask` cleared, then
/// `value` OR-ed in.
pub open spec fn set_field(reg: u32, mask: u32, value: u32) -> u32 {
    (reg & !mask) | value
}

/// Read-modify-write of one register field: clear exactly the bits of
/// `mask`, then OR in `value`, already shifted to the field's position.
pub fn modify_field(reg: &mut u32, mask: u32, value: u32)
    ensures
        *final(reg) == set_field(*old(reg), mask, value),
{
    *reg = *reg & !mask;
    *reg = *reg | value;
}

} // verus!
