//! Display bring-up and double-buffered presentation for an STM32H7 board
//! driving a MIPI-DSI link: PHY timing and video-mode register programming
//! over a model of the DSI host registers, the bring-up order, and the
//! frame-swap controller; with them the board's LED words, file timestamps
//! and the packing of application images.
mod boot_image;
mod bringup;
mod display;
mod irq;
mod led;
mod phy_timer;
mod registers;
mod time;
mod video_config;

pub use boot_image::{
    be_bytes, boot_address, build_boot_image, crc32_mpeg2_of, image_body, image_body_of, le_word,
    seal_image, ImageError,
};
pub use bringup::{bringup_order, Bringup, BringupError, BringupStep, BRINGUP_STEPS};
pub use display::{
    alternate, flip_count, lemma_swap_alternation, split_frame_region, swap_run, swap_step,
    FrameRegion, Gpu, BYTES_PER_PIXEL, FRAME_BUFFER_ALLOC_SIZE, FRAME_BUFFER_SIZE, FRAME_RATE,
    H_BACK_PORCH, H_FRONT_PORCH, H_SYNC_LEN, H_SYNC_POL, PIXEL_CLOCK_KHZ, SCREEN_HEIGHT,
    SCREEN_WIDTH, V_BACK_PORCH, V_FRONT_PORCH, V_SYNC_LEN, V_SYNC_POL,
};
pub use irq::{irq_name, irq_name_of};
pub use led::Led;
pub use phy_timer::{lemma_phy_timing_fields, DsiPhyTimerConfig};
pub use registers::{modify_field, set_field, DsiRegisters};
pub use time::{default_timestamp, DateTime, TimeSource, Timestamp};
pub use video_config::{
    fits, lemma_loosely_packed_untouched, lemma_video_apply_idempotent, DsiVideoConfig,
    VideoConfigError, DSI_LOOSELY_PACKED_ENABLE, DSI_RGB666,
};
