//! Signals of the browser environment.

use vstd::prelude::*;
use crate::text::{option_text, texts};

verus! {

/// Widest and tallest screen that is taken as real, in pixels.
pub const MAX_SCREEN_DIMENSION: u32 = 10000;

/// Deepest colour depth that is taken as real, in bits.
pub const MAX_COLOR_DEPTH: u8 = 48;

/// Bit pattern of the pixel ratio 1.0.
pub const PIXEL_RATIO_ONE: u32 = 0x3F80_0000;

/// Bit pattern of the largest accepted pixel ratio, 5.0.
pub const PIXEL_RATIO_MAX: u32 = 0x40A0_0000;

/// Bit pattern of positive infinity; any value above it, sign aside, is not
/// a number.
pub const PIXEL_RATIO_INFINITY: u32 = 0x7F80_0000;

/// Mask that clears the sign bit of a pixel ratio.
pub const PIXEL_RATIO_MAGNITUDE: u32 = 0x7FFF_FFFF;

/// Whether a pixel ratio, given as the bit pattern of a 32-bit IEEE 754
/// number, passes validation. A ratio is turned away when it is at most zero
/// or above 5.0. Both comparisons are false of a value that is not a number,
/// so such a value passes.
pub open spec fn pixel_ratio_accepted(bits: u32) -> bool {
    (bits & PIXEL_RATIO_MAGNITUDE) > PIXEL_RATIO_INFINITY || (1 <= bits && bits
        <= PIXEL_RATIO_MAX)
}

/// Screen and display information. The pixel ratio is held as the bit
/// pattern of a 32-bit IEEE 754 number, which is also how it is hashed.
#[derive(Debug, Clone, Copy, PartialEq, Eq)]
pub struct ScreenInfo {
    /// Screen width in pixels.
    pub width: u32,
    /// Screen height in pixels.
    pub height: u32,
    /// Width available to pages.
    pub avail_width: u32,
    /// Height available to pages.
    pub avail_height: u32,
    /// Colour depth in bits.
    pub color_depth: u8,
    /// Bit pattern of the pixel ratio, such as `0x4000_0000` for 2.0.
    pub pixel_ratio_bits: u32,
}

impl ScreenInfo {
    /// Whether the measurements are ones a real display can have.
    pub open spec fn plausible(
        width: u32,
        height: u32,
        color_depth: u8,
        pixel_ratio_bits: u32,
    ) -> bool {
        &&& 1 <= width <= MAX_SCREEN_DIMENSION
        &&& 1 <= height <= MAX_SCREEN_DIMENSION
        &&& 1 <= color_depth <= MAX_COLOR_DEPTH
        &&& pixel_ratio_accepted(pixel_ratio_bits)
    }

    /// Builds screen information, or `None` where a dimension is zero or
    /// above 10000, the colour depth is zero or above 48, or the pixel ratio
    /// is not accepted.
    pub fn new(
        width: u32,
        height: u32,
        avail_width: u32,
        avail_height: u32,
        color_depth: u8,
        pixel_ratio_bits: u32,
    ) -> (screen: Option<ScreenInfo>)
        ensures
            screen is Some <==> ScreenInfo::plausible(width, height, color_depth, pixel_ratio_bits),
            screen matches Some(s) ==> s == (ScreenInfo {
                width,
                height,
                avail_width,
                avail_height,
                color_depth,
                pixel_ratio_bits,
            }),
    {
        if width == 0 || height == 0 || width > MAX_SCREEN_DIMENSION || height
            > MAX_SCREEN_DIMENSION {
            return None;
        }
        if color_depth == 0 || color_depth > MAX_COLOR_DEPTH {
            return None;
        }
        let not_a_number = (pixel_ratio_bits & PIXEL_RATIO_MAGNITUDE) > PIXEL_RATIO_INFINITY;
        if !not_a_number && (pixel_ratio_bits == 0 || pixel_ratio_bits > PIXEL_RATIO_MAX) {
            return None;
        }
        Some(ScreenInfo { width, height, avail_width, avail_height, color_depth, pixel_ratio_bits })
    }
}

impl Default for ScreenInfo {
    /// A full-HD display with 24-bit colour and pixel ratio 1.0.
    fn default() -> (screen: ScreenInfo)
        ensures
            screen == (ScreenInfo {
                width: 1920,
                height: 1080,
                avail_width: 1920,
                avail_height: 1080,
                color_depth: 24,
                pixel_ratio_bits: PIXEL_RATIO_ONE,
            }),
    {
        ScreenInfo {
            width: 1920,
            height: 1080,
            avail_width: 1920,
            avail_height: 1080,
            color_depth: 24,
            pixel_ratio_bits: PIXEL_RATIO_ONE,
        }
    }
}

/// Signals collected from browser APIs.
#[derive(Debug, Clone, PartialEq)]
pub struct BrowserSignals {
    /// Canvas fingerprint hash, where the client computed one.
    pub canvas_hash: Option<String>,
    /// WebGL fingerprint hash, where the client computed one.
    pub webgl_hash: Option<String>,
    /// Audio fingerprint hash, where the client computed one.
    pub audio_hash: Option<String>,
    /// Installed fonts, in the order reported.
    pub fonts: Vec<String>,
    /// Browser plugins, in the order reported.
    pub plugins: Vec<String>,
    /// IANA time zone identifier.
    pub timezone: String,
    /// Browser language.
    pub language: String,
    /// Screen information, where the client reported it.
    pub screen: Option<ScreenInfo>,
    /// User agent string.
    pub user_agent: String,
}

/// Mathematical view of `BrowserSignals`.
pub struct BrowserSignalsView {
    pub canvas_hash: Option<Seq<char>>,
    pub webgl_hash: Option<Seq<char>>,
    pub audio_hash: Option<Seq<char>>,
    pub fonts: Seq<Seq<char>>,
    pub plugins: Seq<Seq<char>>,
    pub timezone: Seq<char>,
    pub language: Seq<char>,
    pub screen: Option<ScreenInfo>,
    pub user_agent: Seq<char>,
}

impl View for BrowserSignals {
    type V = BrowserSignalsView;

    open spec fn view(&self) -> BrowserSignalsView {
        BrowserSignalsView {
            canvas_hash: option_text(self.canvas_hash),
            webgl_hash: option_text(self.webgl_hash),
            audio_hash: option_text(self.audio_hash),
            fonts: texts(self.fonts@),
            plugins: texts(self.plugins@),
            timezone: self.timezone@,
            language: self.language@,
            screen: self.screen,
            user_agent: self.user_agent@,
        }
    }
}

} // verus!
