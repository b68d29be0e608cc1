use vstd::prelude::*;
use crate::registers::{modify_field, set_field, DsiRegisters};

verus! {

/// MCR: command mode select.
pub const DSI_MCR_CMDM: u32 = 0x1;
/// WCFGR: DSI mode select (adapted command mode).
pub const DSI_WCFGR_DSIM: u32 = 0x1;
/// WCFGR: color multiplexing, bits 1..4.
pub const DSI_WCFGR_COLMUX: u32 = 0x7 << 1;
/// VMCR: video mode transmission type, bits 0..2.
pub const DSI_VMCR_VMT: u32 = 0x3;
/// VMCR: low-power transition in vertical sync active.
pub const DSI_VMCR_LPVSAE: u32 = 1 << 8;
/// VMCR: low-power transition in vertical back porch.
pub const DSI_VMCR_LPVBPE: u32 = 1 << 9;
/// VMCR: low-power transition in vertical front porch.
pub const DSI_VMCR_LPVFPE: u32 = 1 << 10;
/// VMCR: low-power transition in vertical active.
pub const DSI_VMCR_LPVAE: u32 = 1 << 11;
/// VMCR: low-power transition in horizontal back porch.
pub const DSI_VMCR_LPHBPE: u32 = 1 << 12;
/// VMCR: low-power transition in horizontal front porch.
pub const DSI_VMCR_LPHFPE: u32 = 1 << 13;
/// VMCR: frame bus-turn-around acknowledge request.
pub const DSI_VMCR_FBTAAE: u32 = 1 << 14;
/// VMCR: commands sent in low-power mode.
pub const DSI_VMCR_LPCE: u32 = 1 << 15;
/// VPCR: video packet size, bits 0..14.
pub const DSI_VPCR_VPSIZE: u32 = 0x3fff;
/// VCCR: number of chunks, bits 0..13.
pub const DSI_VCCR_NUMC: u32 = 0x1fff;
/// VNPCR: null packet size, bits 0..13.
pub const DSI_VNPCR_NPSIZE: u32 = 0x1fff;
/// LVCIDR: virtual channel id, bits 0..2.
pub const DSI_LVCIDR_VCID: u32 = 0x3;
/// LPCR: data enable polarity.
pub const DSI_LPCR_DEP: u32 = 1 << 0;
/// LPCR: vertical sync polarity.
pub const DSI_LPCR_VSP: u32 = 1 << 1;
/// LPCR: horizontal sync polarity.
pub const DSI_LPCR_HSP: u32 = 1 << 2;
/// LCOLCR: color coding, bits 0..4.
pub const DSI_LCOLCR_COLC: u32 = 0xf;
/// LCOLCR: loosely-packed enable.
pub const DSI_LCOLCR_LPE: u32 = 1 << 8;
/// VHSACR: horizontal sync active duration, bits 0..12.
pub const DSI_VHSACR_HSA: u32 = 0xfff;
/// VHBPCR: horizontal back porch duration, bits 0..12.
pub const DSI_VHBPCR_HBP: u32 = 0xfff;
/// VLCR: total line duration, bits 0..15.
pub const DSI_VLCR_HLINE: u32 = 0x7fff;
/// VVSACR: vertical sync active duration, bits 0..10.
pub const DSI_VVSACR_VSA: u32 = 0x3ff;
/// VVBPCR: vertical back porch duration, bits 0..10.
pub const DSI_VVBPCR_VBP: u32 = 0x3ff;
/// VVFPCR: vertical front porch duration, bits 0..10.
pub const DSI_VVFPCR_VFP: u32 = 0x3ff;
/// VVACR: vertical active duration, bits 0..14.
pub const DSI_VVACR_VA: u32 = 0x3fff;
/// LPMCR: VACT largest low-power packet size, bits 0..8.
pub const DSI_LPMCR_VLPSIZE: u32 = 0xff;
/// LPMCR: largest low-power packet size, bits 16..24.
pub const DSI_LPMCR_LPSIZE: u32 = 0xff << 16;

/// Largest color coding: codings fit the three bits of the wrapper's
/// color multiplexing field.
pub const DSI_COLOR_CODING_MAX: u32 = 0x7;
/// Color coding: 18-bit RGB666, the one coding with a loosely-packed variant.
pub const DSI_RGB666: u32 = 0x3;
/// Value of `loosely_packed` that enables the loosely-packed variant.
pub const DSI_LOOSELY_PACKED_ENABLE: u32 = DSI_LCOLCR_LPE;

/// Every VMCR field that video-mode programming writes.
pub const DSI_VMCR_VIDEO_FIELDS: u32 = DSI_VMCR_VMT | DSI_VMCR_LPCE | DSI_VMCR_LPHFPE
    | DSI_VMCR_LPHBPE | DSI_VMCR_LPVAE | DSI_VMCR_LPVFPE | DSI_VMCR_LPVBPE | DSI_VMCR_LPVSAE
    | DSI_VMCR_FBTAAE;
/// Every WCFGR field that video-mode programming writes.
pub const DSI_WCFGR_VIDEO_FIELDS: u32 = DSI_WCFGR_DSIM | DSI_WCFGR_COLMUX;
/// Every LPCR field that video-mode programming writes.
pub const DSI_LPCR_POLARITIES: u32 = DSI_LPCR_DEP | DSI_LPCR_VSP | DSI_LPCR_HSP;
/// Both LPMCR packet size fields.
pub const DSI_LPMCR_SIZES: u32 = DSI_LPMCR_LPSIZE | DSI_LPMCR_VLPSIZE;
/// Color coding and loosely-packed enable in LCOLCR.
pub const DSI_LCOLCR_COLC_LPE: u32 = DSI_LCOLCR_COLC | DSI_LCOLCR_LPE;

/// `value` has no bit outside `mask`.
pub open spec fn fits(value: u32, mask: u32) -> bool {
    value & !mask == 0
}

/// Video-mode settings of the DSI host. Each value except
/// `lplargest_packet_size` and the wrapper's copy of `color_coding` is given
/// already shifted to its field's position.
#[derive(Clone, Copy, Debug, PartialEq, Eq, Structural)]
pub struct DsiVideoConfig {
    pub virtual_channel_id: u32,
    pub color_coding: u32,
    pub loosely_packed: u32,
    pub mode: u32,
    pub packet_size: u32,
    pub number_of_chunks: u32,
    pub null_packet_size: u32,
    pub hspolarity: u32,
    pub vspolarity: u32,
    pub depolarity: u32,
    pub horizontal_sync_active: u32,
    pub horizontal_back_porch: u32,
    pub horizontal_line: u32,
    pub vertical_sync_active: u32,
    pub vertical_back_porch: u32,
    pub vertical_front_porch: u32,
    pub vertical_active: u32,
    pub lpcommand_enable: u32,
    pub lplargest_packet_size: u32,
    pub lpvactlargest_packet_size: u32,
    pub lphorizontal_front_porch_enable: u32,
    pub lphorizontal_back_porch_enable: u32,
    pub lpvertical_active_enable: u32,
    pub lpvertical_front_porch_enable: u32,
    pub lpvertical_back_porch_enable: u32,
    pub lpvertical_sync_active_enable: u32,
    pub frame_btaacknowledge_enable: u32,
}

/// Why video-mode programming refused a configuration.
#[derive(Clone, Copy, Debug, PartialEq, Eq, Structural)]
pub enum VideoConfigError {
    /// RGB666 color coding without the loosely-packed variant enabled.
    LooselyPackedMismatch,
}

impl DsiVideoConfig {
    /// Every value lies within its register field, so that no field
    /// spills into the bits of another.
    pub open spec fn wf(&self) -> bool {
        &&& fits(self.virtual_channel_id, DSI_LVCIDR_VCID)
        &&& fits(self.color_coding, DSI_COLOR_CODING_MAX)
        &&& fits(self.mode, DSI_VMCR_VMT)
        &&& fits(self.packet_size, DSI_VPCR_VPSIZE)
        &&& fits(self.number_of_chunks, DSI_VCCR_NUMC)
        &&& fits(self.null_packet_size, DSI_VNPCR_NPSIZE)
        &&& fits(self.hspolarity, DSI_LPCR_HSP)
        &&& fits(self.vspolarity, DSI_LPCR_VSP)
        &&& fits(self.depolarity, DSI_LPCR_DEP)
        &&& fits(self.horizontal_sync_active, DSI_VHSACR_HSA)
        &&& fits(self.horizontal_back_porch, DSI_VHBPCR_HBP)
        &&& fits(self.horizontal_line, DSI_VLCR_HLINE)
        &&& fits(self.vertical_sync_active, DSI_VVSACR_VSA)
        &&& fits(self.vertical_back_porch, DSI_VVBPCR_VBP)
        &&& fits(self.vertical_front_porch, DSI_VVFPCR_VFP)
        &&& fits(self.vertical_active, DSI_VVACR_VA)
        &&& fits(self.lpcommand_enable, DSI_VMCR_LPCE)
        &&& self.lplargest_packet_size <= 0xff
        &&& fits(self.lpvactlargest_packet_size, DSI_LPMCR_VLPSIZE)
        &&& fits(self.lphorizontal_front_porch_enable, DSI_VMCR_LPHFPE)
        &&& fits(self.lphorizontal_back_porch_enable, DSI_VMCR_LPHBPE)
        &&& fits(self.lpvertical_active_enable, DSI_VMCR_LPVAE)
        &&& fits(self.lpvertical_front_porch_enable, DSI_VMCR_LPVFPE)
        &&& fits(self.lpvertical_back_porch_enable, DSI_VMCR_LPVBPE)
        &&& fits(self.lpvertical_sync_active_enable, DSI_VMCR_LPVSAE)
        &&& fits(self.frame_btaacknowledge_enable, DSI_VMCR_FBTAAE)
    }

    /// Whether every value lies within its register field.
    pub fn is_valid(&self) -> (r: bool)
        ensures
            r == self.wf(),
    {
        self.virtual_channel_id & !DSI_LVCIDR_VCID == 0 && self.color_coding & !DSI_COLOR_CODING_MAX == 0
            && self.mode & !DSI_VMCR_VMT == 0 && self.packet_size & !DSI_VPCR_VPSIZE == 0
            && self.number_of_chunks & !DSI_VCCR_NUMC == 0 && self.null_packet_size
            & !DSI_VNPCR_NPSIZE == 0 && self.hspolarity & !DSI_LPCR_HSP == 0 && self.vspolarity
            & !DSI_LPCR_VSP == 0 && self.depolarity & !DSI_LPCR_DEP == 0
            && self.horizontal_sync_active & !DSI_VHSACR_HSA == 0 && self.horizontal_back_porch
            & !DSI_VHBPCR_HBP == 0 && self.horizontal_line & !DSI_VLCR_HLINE == 0
            && self.vertical_sync_active & !DSI_VVSACR_VSA == 0 && self.vertical_back_porch
            & !DSI_VVBPCR_VBP == 0 && self.vertical_front_porch & !DSI_VVFPCR_VFP == 0
            && self.vertical_active & !DSI_VVACR_VA == 0 && self.lpcommand_enable
            & !DSI_VMCR_LPCE == 0 && self.lplargest_packet_size <= 0xff
            && self.lpvactlargest_packet_size & !DSI_LPMCR_VLPSIZE == 0
            && self.lphorizontal_front_porch_enable & !DSI_VMCR_LPHFPE == 0
            && self.lphorizontal_back_porch_enable & !DSI_VMCR_LPHBPE == 0
            && self.lpvertical_active_enable & !DSI_VMCR_LPVAE == 0
            && self.lpvertical_front_porch_enable & !DSI_VMCR_LPVFPE == 0
            && self.lpvertical_back_porch_enable & !DSI_VMCR_LPVBPE == 0
            && self.lpvertical_sync_active_enable & !DSI_VMCR_LPVSAE == 0
            && self.frame_btaacknowledge_enable & !DSI_VMCR_FBTAAE == 0
    }

    /// The configuration breaks the loosely-packed rule of RGB666.
    pub open spec fn loosely_packed_mismatch(&self) -> bool {
        self.color_coding == DSI_RGB666 && self.loosely_packed != DSI_LOOSELY_PACKED_ENABLE
    }

    /// The video fields of VMCR, combined.
    pub open spec fn vmcr_fields(&self) -> u32 {
        self.mode | self.lpcommand_enable | self.lphorizontal_front_porch_enable
            | self.lphorizontal_back_porch_enable | self.lpvertical_active_enable
            | self.lpvertical_front_porch_enable | self.lpvertical_back_porch_enable
            | self.lpvertical_sync_active_enable | self.frame_btaacknowledge_enable
    }

    /// LCOLCR after programming: the color coding, and with RGB666 also the
    /// loosely-packed enable; every other bit kept.
    pub open spec fn lcolcr_after(&self, lcolcr: u32) -> u32 {
        if self.color_coding == DSI_RGB666 {
            set_field(lcolcr, DSI_LCOLCR_COLC_LPE, self.color_coding | self.loosely_packed)
        } else {
            set_field(lcolcr, DSI_LCOLCR_COLC, self.color_coding)
        }
    }

    /// The register image after video-mode programming of `r`: video mode
    /// selected, each field holding its configured value, every other bit
    /// and register as in `r`.
    pub open spec fn programmed(&self, r: DsiRegisters) -> DsiRegisters {
        DsiRegisters {
            mcr: r.mcr & !DSI_MCR_CMDM,
            wcfgr: set_field(r.wcfgr, DSI_WCFGR_VIDEO_FIELDS, self.color_coding << 1),
            vmcr: set_field(r.vmcr, DSI_VMCR_VIDEO_FIELDS, self.vmcr_fields()),
            vpcr: set_field(r.vpcr, DSI_VPCR_VPSIZE, self.packet_size),
            vccr: set_field(r.vccr, DSI_VCCR_NUMC, self.number_of_chunks),
            vnpcr: set_field(r.vnpcr, DSI_VNPCR_NPSIZE, self.null_packet_size),
            lvcidr: set_field(r.lvcidr, DSI_LVCIDR_VCID, self.virtual_channel_id),
            lpcr: set_field(
                r.lpcr,
                DSI_LPCR_POLARITIES,
                self.depolarity | self.vspolarity | self.hspolarity,
            ),
            lcolcr: self.lcolcr_after(r.lcolcr),
            vhsacr: set_field(r.vhsacr, DSI_VHSACR_HSA, self.horizontal_sync_active),
            vhbpcr: set_field(r.vhbpcr, DSI_VHBPCR_HBP, self.horizontal_back_porch),
            vlcr: set_field(r.vlcr, DSI_VLCR_HLINE, self.horizontal_line),
            vvsacr: set_field(r.vvsacr, DSI_VVSACR_VSA, self.vertical_sync_active),
            vvbpcr: set_field(r.vvbpcr, DSI_VVBPCR_VBP, self.vertical_back_porch),
            vvfpcr: set_field(r.vvfpcr, DSI_VVFPCR_VFP, self.vertical_front_porch),
            vvacr: set_field(r.vvacr, DSI_VVACR_VA, self.vertical_active),
            lpmcr: set_field(
                r.lpmcr,
                DSI_LPMCR_SIZES,
                (self.lplargest_packet_size << 16) | self.lpvactlargest_packet_size,
            ),
            ..r
        }
    }

    /// Program video mode into the register image. Each field is cleared,
    /// then set; the mode-select bits are cleared first, and the
    /// loosely-packed enable is written right after the color coding.
    ///
    /// A configuration with RGB666 color coding and the loosely-packed
    /// variant not enabled is refused before any register is touched.
    pub fn apply(&self, dsihost: &mut DsiRegisters) -> (r: Result<(), VideoConfigError>)
        requires
            self.wf(),
        ensures
            r is Err <==> self.loosely_packed_mismatch(),
            r is Err ==> r == Err::<(), _>(VideoConfigError::LooselyPackedMismatch)
                && *final(dsihost) == *old(dsihost),
            r is Ok ==> *final(dsihost) == self.programmed(*old(dsihost)),
    {
        if self.color_coding == DSI_RGB666 && self.loosely_packed != DSI_LOOSELY_PACKED_ENABLE {
            return Err(VideoConfigError::LooselyPackedMismatch);
        }
        let ghost r0 = *dsihost;

        modify_field(&mut dsihost.mcr, DSI_MCR_CMDM, 0);
        modify_field(&mut dsihost.wcfgr, DSI_WCFGR_DSIM, 0);

        modify_field(&mut dsihost.vmcr, DSI_VMCR_VMT, self.mode);
        modify_field(&mut dsihost.vpcr, DSI_VPCR_VPSIZE, self.packet_size);
        modify_field(&mut dsihost.vccr, DSI_VCCR_NUMC, self.number_of_chunks);
        modify_field(&mut dsihost.vnpcr, DSI_VNPCR_NPSIZE, self.null_packet_size);
        modify_field(&mut dsihost.lvcidr, DSI_LVCIDR_VCID, self.virtual_channel_id);
        modify_field(
            &mut dsihost.lpcr,
            DSI_LPCR_POLARITIES,
            self.depolarity | self.vspolarity | self.hspolarity,
        );

        modify_field(&mut dsihost.lcolcr, DSI_LCOLCR_COLC, self.color_coding);
        modify_field(&mut dsihost.wcfgr, DSI_WCFGR_COLMUX, self.color_coding << 1);
        if self.color_coding == DSI_RGB666 {
            modify_field(&mut dsihost.lcolcr, DSI_LCOLCR_LPE, self.loosely_packed);
        }

        modify_field(&mut dsihost.vhsacr, DSI_VHSACR_HSA, self.horizontal_sync_active);
        modify_field(&mut dsihost.vhbpcr, DSI_VHBPCR_HBP, self.horizontal_back_porch);
        modify_field(&mut dsihost.vlcr, DSI_VLCR_HLINE, self.horizontal_line);
        modify_field(&mut dsihost.vvsacr, DSI_VVSACR_VSA, self.vertical_sync_active);
        modify_field(&mut dsihost.vvbpcr, DSI_VVBPCR_VBP, self.vertical_back_porch);
        modify_field(&mut dsihost.vvfpcr, DSI_VVFPCR_VFP, self.vertical_front_porch);
        modify_field(&mut dsihost.vvacr, DSI_VVACR_VA, self.vertical_active);

        modify_field(&mut dsihost.vmcr, DSI_VMCR_LPCE, self.lpcommand_enable);
        modify_field(&mut dsihost.lpmcr, DSI_LPMCR_LPSIZE, self.lplargest_packet_size << 16);
        modify_field(&mut dsihost.lpmcr, DSI_LPMCR_VLPSIZE, self.lpvactlargest_packet_size);

        modify_field(&mut dsihost.vmcr, DSI_VMCR_LPHFPE, self.lphorizontal_front_porch_enable);
        modify_field(&mut dsihost.vmcr, DSI_VMCR_LPHBPE, self.lphorizontal_back_porch_enable);
        modify_field(&mut dsihost.vmcr, DSI_VMCR_LPVAE, self.lpvertical_active_enable);
        modify_field(&mut dsihost.vmcr, DSI_VMCR_LPVFPE, self.lpvertical_front_porch_enable);
        modify_field(&mut dsihost.vmcr, DSI_VMCR_LPVBPE, self.lpvertical_back_porch_enable);
        modify_field(&mut dsihost.vmcr, DSI_VMCR_LPVSAE, self.lpvertical_sync_active_enable);
        modify_field(&mut dsihost.vmcr, DSI_VMCR_FBTAAE, self.frame_btaacknowledge_enable);

        proof {
            lemma_clear_field(r0.mcr, DSI_MCR_CMDM);
            lemma_vmcr_fields(r0.vmcr, *self);
            lemma_wcfgr_fields(r0.wcfgr, self.color_coding);
            lemma_lpmcr_fields(r0.lpmcr, self.lplargest_packet_size, self.lpvactlargest_packet_size);
            if self.color_coding == DSI_RGB666 {
                lemma_lcolcr_fields(r0.lcolcr, self.color_coding, self.loosely_packed);
            }
        }
        Ok(())
    }
}

/// With a color coding other than RGB666, video-mode programming is not
/// refused and leaves the loosely-packed enable bit of LCOLCR as it was.
pub proof fn lemma_loosely_packed_untouched(c: DsiVideoConfig, r: DsiRegisters)
    requires
        c.wf(),
        c.color_coding != DSI_RGB666,
    ensures
        !c.loosely_packed_mismatch(),
        c.programmed(r).lcolcr & DSI_LCOLCR_LPE == r.lcolcr & DSI_LCOLCR_LPE,
{
    let x = r.lcolcr;
    let color = c.color_coding;
    assert(set_field(x, DSI_LCOLCR_COLC, color) & DSI_LCOLCR_LPE == x & DSI_LCOLCR_LPE)
        by (bit_vector)
        requires
            fits(color, DSI_COLOR_CODING_MAX),
    ;
}

/// Programming the same video configuration twice leaves the same register
/// image as programming it once.
pub proof fn lemma_video_apply_idempotent(c: DsiVideoConfig, r: DsiRegisters)
    requires
        c.wf(),
    ensures
        c.programmed(c.programmed(r)) == c.programmed(r),
{
    let p = c.programmed(r);
    lemma_set_field_twice(r.wcfgr, DSI_WCFGR_VIDEO_FIELDS, c.color_coding << 1);
    lemma_set_field_twice(r.vmcr, DSI_VMCR_VIDEO_FIELDS, c.vmcr_fields());
    lemma_set_field_twice(r.vpcr, DSI_VPCR_VPSIZE, c.packet_size);
    lemma_set_field_twice(r.vccr, DSI_VCCR_NUMC, c.number_of_chunks);
    lemma_set_field_twice(r.vnpcr, DSI_VNPCR_NPSIZE, c.null_packet_size);
    lemma_set_field_twice(r.lvcidr, DSI_LVCIDR_VCID, c.virtual_channel_id);
    lemma_set_field_twice(
        r.lpcr,
        DSI_LPCR_POLARITIES,
        c.depolarity | c.vspolarity | c.hspolarity,
    );
    lemma_set_field_twice(r.lcolcr, DSI_LCOLCR_COLC_LPE, c.color_coding | c.loosely_packed);
    lemma_set_field_twice(r.lcolcr, DSI_LCOLCR_COLC, c.color_coding);
    lemma_set_field_twice(r.vhsacr, DSI_VHSACR_HSA, c.horizontal_sync_active);
    lemma_set_field_twice(r.vhbpcr, DSI_VHBPCR_HBP, c.horizontal_back_porch);
    lemma_set_field_twice(r.vlcr, DSI_VLCR_HLINE, c.horizontal_line);
    lemma_set_field_twice(r.vvsacr, DSI_VVSACR_VSA, c.vertical_sync_active);
    lemma_set_field_twice(r.vvbpcr, DSI_VVBPCR_VBP, c.vertical_back_porch);
    lemma_set_field_twice(r.vvfpcr, DSI_VVFPCR_VFP, c.vertical_front_porch);
    lemma_set_field_twice(r.vvacr, DSI_VVACR_VA, c.vertical_active);
    lemma_set_field_twice(
        r.lpmcr,
        DSI_LPMCR_SIZES,
        (c.lplargest_packet_size << 16) | c.lpvactlargest_packet_size,
    );
    let m = r.mcr;
    assert((m & !DSI_MCR_CMDM) & !DSI_MCR_CMDM == m & !DSI_MCR_CMDM) by (bit_vector);
    assert(c.programmed(p) == p);
}

/// Setting a field twice to the same value is setting it once.
proof fn lemma_set_field_twice(r: u32, mask: u32, value: u32)
    by (bit_vector)
    ensures
        set_field(set_field(r, mask, value), mask, value) == set_field(r, mask, value),
{
}

proof fn lemma_vmcr_chain(
    r: u32,
    a: u32,
    b: u32,
    c: u32,
    d: u32,
    e: u32,
    f: u32,
    g: u32,
    h: u32,
    i: u32,
)
    by (bit_vector)
    requires
        fits(a, DSI_VMCR_VMT),
        fits(b, DSI_VMCR_LPCE),
        fits(c, DSI_VMCR_LPHFPE),
        fits(d, DSI_VMCR_LPHBPE),
        fits(e, DSI_VMCR_LPVAE),
        fits(f, DSI_VMCR_LPVFPE),
        fits(g, DSI_VMCR_LPVBPE),
        fits(h, DSI_VMCR_LPVSAE),
        fits(i, DSI_VMCR_FBTAAE),
    ensures
        set_field(
            set_field(
                set_field(
                    set_field(
                        set_field(
                            set_field(
                                set_field(
                                    set_field(set_field(r, DSI_VMCR_VMT, a), DSI_VMCR_LPCE, b),
                                    DSI_VMCR_LPHFPE,
                                    c,
                                ),
                                DSI_VMCR_LPHBPE,
                                d,
                            ),
                            DSI_VMCR_LPVAE,
                            e,
                        ),
                        DSI_VMCR_LPVFPE,
                        f,
                    ),
                    DSI_VMCR_LPVBPE,
                    g,
                ),
                DSI_VMCR_LPVSAE,
                h,
            ),
            DSI_VMCR_FBTAAE,
            i,
        ) == set_field(r, DSI_VMCR_VIDEO_FIELDS, a | b | c | d | e | f | g | h | i),
{
}

proof fn lemma_vmcr_fields(r: u32, c: DsiVideoConfig)
    requires
        c.wf(),
    ensures
        set_field(
            set_field(
                set_field(
                    set_field(
                        set_field(
                            set_field(
                                set_field(
                                    set_field(
                                        set_field(r, DSI_VMCR_VMT, c.mode),
                                        DSI_VMCR_LPCE,
                                        c.lpcommand_enable,
                                    ),
                                    DSI_VMCR_LPHFPE,
                                    c.lphorizontal_front_porch_enable,
                                ),
                                DSI_VMCR_LPHBPE,
                                c.lphorizontal_back_porch_enable,
                            ),
                            DSI_VMCR_LPVAE,
                            c.lpvertical_active_enable,
                        ),
                        DSI_VMCR_LPVFPE,
                        c.lpvertical_front_porch_enable,
                    ),
                    DSI_VMCR_LPVBPE,
                    c.lpvertical_back_porch_enable,
                ),
                DSI_VMCR_LPVSAE,
                c.lpvertical_sync_active_enable,
            ),
            DSI_VMCR_FBTAAE,
            c.frame_btaacknowledge_enable,
        ) == set_field(r, DSI_VMCR_VIDEO_FIELDS, c.vmcr_fields()),
{
    lemma_vmcr_chain(
        r,
        c.mode,
        c.lpcommand_enable,
        c.lphorizontal_front_porch_enable,
        c.lphorizontal_back_porch_enable,
        c.lpvertical_active_enable,
        c.lpvertical_front_porch_enable,
        c.lpvertical_back_porch_enable,
        c.lpvertical_sync_active_enable,
        c.frame_btaacknowledge_enable,
    );
}

proof fn lemma_clear_field(r: u32, mask: u32)
    by (bit_vector)
    ensures
        set_field(r, mask, 0) == r & !mask,
{
}

proof fn lemma_wcfgr_fields(r: u32, color: u32)
    by (bit_vector)
    requires
        fits(color, DSI_COLOR_CODING_MAX),
    ensures
        set_field(set_field(r, DSI_WCFGR_DSIM, 0), DSI_WCFGR_COLMUX, color << 1) == set_field(
            r,
            DSI_WCFGR_VIDEO_FIELDS,
            color << 1,
        ),
{
}

proof fn lemma_lpmcr_fields(r: u32, largest: u32, vact_largest: u32)
    by (bit_vector)
    requires
        largest <= 0xff,
        fits(vact_largest, DSI_LPMCR_VLPSIZE),
    ensures
        set_field(set_field(r, DSI_LPMCR_LPSIZE, largest << 16), DSI_LPMCR_VLPSIZE, vact_largest)
            == set_field(r, DSI_LPMCR_SIZES, (largest << 16) | vact_largest),
{
}

proof fn lemma_lcolcr_fields(r: u32, color: u32, loosely: u32)
    by (bit_vector)
    requires
        fits(color, DSI_COLOR_CODING_MAX),
        loosely == DSI_LOOSELY_PACKED_ENABLE,
    ensures
        set_field(set_field(r, DSI_LCOLCR_COLC, color), DSI_LCOLCR_LPE, loosely) == set_field(
            r,
            DSI_LCOLCR_COLC_LPE,
            color | loosely,
        ),
{
}

} // verus!
