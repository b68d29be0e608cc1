use vstd::prelude::*;
use crate::registers::{modify_field, set_field, DsiRegisters};

verus! {

/// CLTCR: clock-lane low-power to high-speed time, bits 0..10.
pub const DSI_CLTCR_LP2HS_TIME: u32 = 0x3ff;
/// CLTCR: clock-lane high-speed to low-power time, bits 16..26.
pub const DSI_CLTCR_HS2LP_TIME: u32 = 0x3ff << 16;
/// DLTCR: maximum read time, bits 0..15.
pub const DSI_DLTCR_MRD_TIME: u32 = 0x7fff;
/// DLTCR: data-lane low-power to high-speed time, bits 16..24.
pub const DSI_DLTCR_LP2HS_TIME: u32 = 0xff << 16;
/// DLTCR: data-lane high-speed to low-power time, bits 24..32.
pub const DSI_DLTCR_HS2LP_TIME: u32 = 0xff << 24;
/// PCONFR: stop wait time, bits 8..16.
pub const DSI_PCONFR_SW_TIME: u32 = 0xff << 8;

/// Both clock-lane transition fields of CLTCR.
pub const DSI_CLTCR_TIMES: u32 = DSI_CLTCR_LP2HS_TIME | DSI_CLTCR_HS2LP_TIME;
/// The three data-lane timing fields of DLTCR.
pub const DSI_DLTCR_TIMES: u32 = DSI_DLTCR_MRD_TIME | DSI_DLTCR_LP2HS_TIME
    | DSI_DLTCR_HS2LP_TIME;

/// DSI PHY timings, each a count of lane byte-clock cycles.
#[allow(non_snake_case)]
#[derive(Clone, Copy, Debug, PartialEq, Eq, Structural)]
pub struct DsiPhyTimerConfig {
    pub ClockLaneHS2LPTime: u32,
    pub ClockLaneLP2HSTime: u32,
    pub DataLaneHS2LPTime: u32,
    pub DataLaneLP2HSTime: u32,
    pub DataLaneMaxReadTime: u32,
    pub StopWaitTime: u32,
}

impl DsiPhyTimerConfig {
    /// Every timing fits the width of its register field.
    pub open spec fn wf(&self) -> bool {
        &&& self.ClockLaneHS2LPTime <= 0x3ff
        &&& self.ClockLaneLP2HSTime <= 0x3ff
        &&& self.DataLaneHS2LPTime <= 0xff
        &&& self.DataLaneLP2HSTime <= 0xff
        &&& self.DataLaneMaxReadTime <= 0x7fff
        &&& self.StopWaitTime <= 0xff
    }

    /// Whether every timing fits the width of its register field.
    pub fn is_valid(&self) -> (r: bool)
        ensures
            r == self.wf(),
    {
        self.ClockLaneHS2LPTime <= 0x3ff && self.ClockLaneLP2HSTime <= 0x3ff
            && self.DataLaneHS2LPTime <= 0xff && self.DataLaneLP2HSTime <= 0xff
            && self.DataLaneMaxReadTime <= 0x7fff && self.StopWaitTime <= 0xff
    }

    /// The clock-lane transition budget: the larger of the two directions.
    pub open spec fn clock_lane_time(&self) -> u32 {
        if self.ClockLaneLP2HSTime > self.ClockLaneHS2LPTime {
            self.ClockLaneLP2HSTime
        } else {
            self.ClockLaneHS2LPTime
        }
    }

    /// The register image after the timings are programmed into `r`: both
    /// clock-lane fields hold the clock-lane budget, the data-lane fields and
    /// the stop wait time their own values, every other bit and register as
    /// in `r`.
    pub open spec fn programmed(&self, r: DsiRegisters) -> DsiRegisters {
        let t = self.clock_lane_time();
        DsiRegisters {
            cltcr: set_field(r.cltcr, DSI_CLTCR_TIMES, t | (t << 16)),
            dltcr: set_field(
                r.dltcr,
                DSI_DLTCR_TIMES,
                self.DataLaneMaxReadTime | (self.DataLaneLP2HSTime << 16) | (
                self.DataLaneHS2LPTime << 24),
            ),
            pconfr: set_field(r.pconfr, DSI_PCONFR_SW_TIME, self.StopWaitTime << 8),
            ..r
        }
    }

    /// Program the PHY timings into the register image, clearing each
    /// register's timing fields before setting them.
    pub fn apply(&self, dsihost: &mut DsiRegisters)
        requires
            self.wf(),
        ensures
            *final(dsihost) == self.programmed(*old(dsihost)),
    {
        let max_time: u32 = if self.ClockLaneLP2HSTime > self.ClockLaneHS2LPTime {
            self.ClockLaneLP2HSTime
        } else {
            self.ClockLaneHS2LPTime
        };
        modify_field(&mut dsihost.cltcr, DSI_CLTCR_TIMES, max_time | (max_time << 16));
        modify_field(
            &mut dsihost.dltcr,
            DSI_DLTCR_TIMES,
            self.DataLaneMaxReadTime | (self.DataLaneLP2HSTime << 16) | (self.DataLaneHS2LPTime
                << 24),
        );
        modify_field(&mut dsihost.pconfr, DSI_PCONFR_SW_TIME, self.StopWaitTime << 8);
    }
}

/// After the PHY timings are programmed, the two clock-lane fields of CLTCR
/// are equal and hold the larger of the two clock-lane times; the data-lane
/// fields of DLTCR and the stop wait field of PCONFR hold their own values;
/// no other bit of the three registers and no other register changes.
pub proof fn lemma_phy_timing_fields(c: DsiPhyTimerConfig, r: DsiRegisters)
    requires
        c.wf(),
    ensures
        ({
            let p = c.programmed(r);
            &&& p.cltcr & DSI_CLTCR_LP2HS_TIME == (p.cltcr & DSI_CLTCR_HS2LP_TIME) >> 16
            &&& (p.cltcr & DSI_CLTCR_LP2HS_TIME) as int == vstd::math::max(
                c.ClockLaneLP2HSTime as int,
                c.ClockLaneHS2LPTime as int,
            )
            &&& p.cltcr & !DSI_CLTCR_TIMES == r.cltcr & !DSI_CLTCR_TIMES
            &&& p.dltcr & DSI_DLTCR_MRD_TIME == c.DataLaneMaxReadTime
            &&& (p.dltcr & DSI_DLTCR_LP2HS_TIME) >> 16 == c.DataLaneLP2HSTime
            &&& p.dltcr >> 24 == c.DataLaneHS2LPTime
            &&& p.dltcr & !DSI_DLTCR_TIMES == r.dltcr & !DSI_DLTCR_TIMES
            &&& (p.pconfr & DSI_PCONFR_SW_TIME) >> 8 == c.StopWaitTime
            &&& p.pconfr & !DSI_PCONFR_SW_TIME == r.pconfr & !DSI_PCONFR_SW_TIME
            &&& DsiRegisters { cltcr: r.cltcr, dltcr: r.dltcr, pconfr: r.pconfr, ..p } == r
        }),
{
    let t = c.clock_lane_time();
    let x = r.cltcr;
    assert({
        let v = set_field(x, DSI_CLTCR_TIMES, t | (t << 16));
        &&& v & DSI_CLTCR_LP2HS_TIME == (v & DSI_CLTCR_HS2LP_TIME) >> 16
        &&& v & DSI_CLTCR_LP2HS_TIME == t
        &&& v & !DSI_CLTCR_TIMES == x & !DSI_CLTCR_TIMES
    }) by (bit_vector)
        requires
            t <= 0x3ff,
    ;
    let y = r.dltcr;
    let mrd = c.DataLaneMaxReadTime;
    let lp2hs = c.DataLaneLP2HSTime;
    let hs2lp = c.DataLaneHS2LPTime;
    assert({
        let v = set_field(y, DSI_DLTCR_TIMES, mrd | (lp2hs << 16) | (hs2lp << 24));
        &&& v & DSI_DLTCR_MRD_TIME == mrd
        &&& (v & DSI_DLTCR_LP2HS_TIME) >> 16 == lp2hs
        &&& v >> 24 == hs2lp
        &&& v & !DSI_DLTCR_TIMES == y & !DSI_DLTCR_TIMES
    }) by (bit_vector)
        requires
            mrd <= 0x7fff,
            lp2hs <= 0xff,
            hs2lp <= 0xff,
    ;
    let z = r.pconfr;
    let sw = c.StopWaitTime;
    assert({
        let v = set_field(z, DSI_PCONFR_SW_TIME, sw << 8);
        &&& (v & DSI_PCONFR_SW_TIME) >> 8 == sw
        &&& v & !DSI_PCONFR_SW_TIME == z & !DSI_PCONFR_SW_TIME
    }) by (bit_vector)
        requires
            sw <= 0xff,
    ;
}

} // verus!
