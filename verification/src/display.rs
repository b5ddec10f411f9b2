//! The display pipeline: a one-shot initialization of the panel over the
//! serial bus, with its control lines sourced from the two-wire I/O expander.
//!
//! The pipeline consumes one serial-bus handle at a fixed clock rate and the
//! two expander output lines (data/command select and reset), and decides the
//! fixed initialization plan; the caller performs the controller commands and
//! draws the one raster image. After startup the display is not touched
//! again, and any error during initialization is fatal to startup.
use vstd::prelude::*;

use crate::Error;
use crate::bus::BusHandle;
use crate::expander::PinHandle;

verus! {

/// The serial clock the display is driven at.
pub const DISPLAY_SPI_HZ: u32 = 30_000_000;

/// The declared panel size the controller is initialized with.
pub const PANEL_WIDTH: u16 = 135;

pub const PANEL_HEIGHT: u16 = 240;

/// Where the fixed raster image is drawn.
pub const IMAGE_OFFSET_X: u16 = 26;

pub const IMAGE_OFFSET_Y: u16 = 8;

/// The raster image's width in pixels.
pub const IMAGE_WIDTH: u16 = 86;

/// The fixed initialization plan the caller executes against the display
/// controller.
pub struct DisplayInitPlan {
    pub spi_hz: u32,
    pub panel_width: u16,
    pub panel_height: u16,
    pub invert_colors: bool,
    pub clear_to_white: bool,
    pub image_x: u16,
    pub image_y: u16,
    pub image_width: u16,
}

/// The display pipeline: its bus handle, its two control lines, and whether
/// the one-shot initialization has run.
pub struct DisplayPipeline {
    spi: BusHandle,
    dc: PinHandle,
    rst: PinHandle,
    initialized: bool,
}

/// Assemble the pipeline from a serial-bus handle and the two expander-
/// sourced control lines.
pub fn new(spi: BusHandle, dc: PinHandle, rst: PinHandle) -> (r: DisplayPipeline)
    requires
        spi is Spi,
    ensures
        !r.initialized(),
        r.dc_pin() == dc.id(),
        r.rst_pin() == rst.id(),
{
    DisplayPipeline { spi, dc, rst, initialized: false }
}

impl DisplayPipeline {
    pub closed spec fn initialized(&self) -> bool {
        self.initialized
    }

    /// The expander line driving data/command select.
    pub closed spec fn dc_pin(&self) -> u8 {
        self.dc.id()
    }

    /// The expander line driving the panel reset.
    pub closed spec fn rst_pin(&self) -> u8 {
        self.rst.id()
    }

    /// Initialize once: the returned plan fixes the clock rate, the declared
    /// panel size, the inverted color mode, the clear-to-white background and
    /// the image placement. A second call is refused with
    /// [`Error::ConfigRejected`] and changes nothing: the display is
    /// initialized exactly once at startup.
    pub fn init(&mut self) -> (r: Result<DisplayInitPlan, Error>)
        ensures
            r is Ok <==> !old(self).initialized(),
            r matches Ok(plan) ==> final(self).initialized() && plan.spi_hz == DISPLAY_SPI_HZ
                && plan.panel_width == PANEL_WIDTH && plan.panel_height == PANEL_HEIGHT
                && plan.invert_colors && plan.clear_to_white && plan.image_x == IMAGE_OFFSET_X
                && plan.image_y == IMAGE_OFFSET_Y && plan.image_width == IMAGE_WIDTH,
            r matches Err(e) ==> e == Error::ConfigRejected && *final(self) == *old(self),
            final(self).dc_pin() == old(self).dc_pin(),
            final(self).rst_pin() == old(self).rst_pin(),
    {
        if self.initialized {
            return Err(Error::ConfigRejected);
        }
        self.initialized = true;
        Ok(
            DisplayInitPlan {
                spi_hz: DISPLAY_SPI_HZ,
                panel_width: PANEL_WIDTH,
                panel_height: PANEL_HEIGHT,
                invert_colors: true,
                clear_to_white: true,
                image_x: IMAGE_OFFSET_X,
                image_y: IMAGE_OFFSET_Y,
                image_width: IMAGE_WIDTH,
            },
        )
    }
}

} // verus!
