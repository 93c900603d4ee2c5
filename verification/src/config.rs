use vstd::prelude::*;
use winit::dpi::PhysicalSize;

verus! {

/// The window layer's size in physical pixels: a width and a height.
#[verifier::external_type_specification]
pub struct ExPhysicalSize<P>(PhysicalSize<P>);

/// `PhysicalSize::new` stores its two arguments as the width and the height.
pub assume_specification<P>[ PhysicalSize::<P>::new ](width: P, height: P) -> (size: PhysicalSize<P>)
    ensures
        size.width == width,
        size.height == height,
;

pub const MAXIMUM_WIDTH: u32 = 1280;

pub const MAXIMUM_HEIGHT: u32 = 720;

pub const MINIMUM_WIDTH: u32 = 128;

pub const MINIMUM_HEIGHT: u32 = 72;

pub const MAXIMUM_ZOOM_LEVEL: u32 = 10;

pub const MINIMUM_ZOOM_LEVEL: u32 = 1;

pub const MAXIMUM_FRAMERATE: u32 = 480;

pub const MINIMUM_FRAMERATE: u32 = 15;

/// Why a configuration was turned down. The variants are listed in the order
/// in which the fields are examined.
#[derive(Clone, Copy, Debug, PartialEq, Eq, Structural)]
pub enum ConfigError {
    ViewportTooBig,
    ViewportTooSmall,
    ZoomOutOfRange,
    FramerateOutOfRange,
}

impl ConfigError {
    /// The diagnostic that goes with this reason.
    pub fn message(&self) -> (text: &'static str)
        ensures
            text@ == match *self {
                ConfigError::ViewportTooBig => "Wrong configuration: viewport size is too big!"@,
                ConfigError::ViewportTooSmall => "Wrong configuration: viewport size is too small!"@,
                ConfigError::ZoomOutOfRange => "Wrong configuration: zoom level is too big or too small!"@,
                ConfigError::FramerateOutOfRange => "Wrong configuration: framerate is too high or too low!"@,
            },
    {
        match self {
            ConfigError::ViewportTooBig => "Wrong configuration: viewport size is too big!",
            ConfigError::ViewportTooSmall => "Wrong configuration: viewport size is too small!",
            ConfigError::ZoomOutOfRange => "Wrong configuration: zoom level is too big or too small!",
            ConfigError::FramerateOutOfRange => "Wrong configuration: framerate is too high or too low!",
        }
    }
}

/// The smallest physical window size any accepted configuration can ask
/// for.
pub fn minimum_physical_size() -> (size: PhysicalSize<u32>)
    ensures
        size.width == MINIMUM_WIDTH * MINIMUM_ZOOM_LEVEL,
        size.height == MINIMUM_HEIGHT * MINIMUM_ZOOM_LEVEL,
{
    PhysicalSize::new(MINIMUM_WIDTH * MINIMUM_ZOOM_LEVEL, MINIMUM_HEIGHT * MINIMUM_ZOOM_LEVEL)
}

/// The largest physical window size any accepted configuration can ask
/// for.
pub fn maximum_physical_size() -> (size: PhysicalSize<u32>)
    ensures
        size.width == MAXIMUM_WIDTH * MAXIMUM_ZOOM_LEVEL,
        size.height == MAXIMUM_HEIGHT * MAXIMUM_ZOOM_LEVEL,
{
    PhysicalSize::new(MAXIMUM_WIDTH * MAXIMUM_ZOOM_LEVEL, MAXIMUM_HEIGHT * MAXIMUM_ZOOM_LEVEL)
}

/// What a game hands over at launch: the logical viewport, the integer zoom
/// factor, the target framerate and the window caption.
pub struct MrgrConfig {
    pub viewport_size: (u32, u32),
    pub zoom_level: u32,
    pub framerate: u32,
    pub caption: &'static str,
}

impl MrgrConfig {
    /// The reason for which this configuration is turned down, if there is
    /// one: the viewport size is looked at first (too big before too small),
    /// then the zoom level, then the framerate.
    pub open spec fn first_violation(&self) -> Option<ConfigError> {
        if self.viewport_size.0 > MAXIMUM_WIDTH || self.viewport_size.1 > MAXIMUM_HEIGHT {
            Some(ConfigError::ViewportTooBig)
        } else if self.viewport_size.0 < MINIMUM_WIDTH || self.viewport_size.1 < MINIMUM_HEIGHT {
            Some(ConfigError::ViewportTooSmall)
        } else if self.zoom_level > MAXIMUM_ZOOM_LEVEL || self.zoom_level < MINIMUM_ZOOM_LEVEL {
            Some(ConfigError::ZoomOutOfRange)
        } else if self.framerate > MAXIMUM_FRAMERATE || self.framerate < MINIMUM_FRAMERATE {
            Some(ConfigError::FramerateOutOfRange)
        } else {
            None
        }
    }

    pub open spec fn size_in_range(&self) -> bool {
        &&& MINIMUM_WIDTH <= self.viewport_size.0 <= MAXIMUM_WIDTH
        &&& MINIMUM_HEIGHT <= self.viewport_size.1 <= MAXIMUM_HEIGHT
    }

    pub open spec fn zoom_in_range(&self) -> bool {
        MINIMUM_ZOOM_LEVEL <= self.zoom_level <= MAXIMUM_ZOOM_LEVEL
    }

    pub open spec fn framerate_in_range(&self) -> bool {
        MINIMUM_FRAMERATE <= self.framerate <= MAXIMUM_FRAMERATE
    }

    /// Every field lies within its bounds.
    pub open spec fn is_sane(&self) -> bool {
        self.size_in_range() && self.zoom_in_range() && self.framerate_in_range()
    }

    /// Checks the configuration and names the first field that is out of
    /// range.
    pub fn validate(&self) -> (outcome: Result<(), ConfigError>)
        ensures
            outcome == match self.first_violation() {
                Some(reason) => Err::<(), ConfigError>(reason),
                None => Ok(()),
            },
            outcome.is_ok() <==> self.is_sane(),
    {
        if (self.viewport_size.0 > MAXIMUM_WIDTH) || (self.viewport_size.1 > MAXIMUM_HEIGHT) {
            return Err(ConfigError::ViewportTooBig);
        }
        if (self.viewport_size.0 < MINIMUM_WIDTH) || (self.viewport_size.1 < MINIMUM_HEIGHT) {
            return Err(ConfigError::ViewportTooSmall);
        }
        if (self.zoom_level > MAXIMUM_ZOOM_LEVEL) || (self.zoom_level < MINIMUM_ZOOM_LEVEL) {
            return Err(ConfigError::ZoomOutOfRange);
        }
        if (self.framerate > MAXIMUM_FRAMERATE) || (self.framerate < MINIMUM_FRAMERATE) {
            return Err(ConfigError::FramerateOutOfRange);
        }
        Ok(())
    }

    /// Whether the configuration may be launched.
    pub fn ensure_sanity(&self) -> (sane: bool)
        ensures
            sane == self.is_sane(),
            sane == self.first_violation().is_none(),
    {
        self.validate().is_ok()
    }

    /// The window's width in physical pixels.
    pub fn physical_width(&self) -> (width: u32)
        requires
            self.viewport_size.0 * self.zoom_level <= u32::MAX,
        ensures
            width == self.viewport_size.0 * self.zoom_level,
    {
        self.viewport_size.0 * self.zoom_level
    }

    /// The window's height in physical pixels.
    pub fn physical_height(&self) -> (height: u32)
        requires
            self.viewport_size.1 * self.zoom_level <= u32::MAX,
        ensures
            height == self.viewport_size.1 * self.zoom_level,
    {
        self.viewport_size.1 * self.zoom_level
    }

    /// The window's size in physical pixels.
    pub fn physical_size(&self) -> (size: PhysicalSize<u32>)
        requires
            self.viewport_size.0 * self.zoom_level <= u32::MAX,
            self.viewport_size.1 * self.zoom_level <= u32::MAX,
        ensures
            size.width == self.viewport_size.0 * self.zoom_level,
            size.height == self.viewport_size.1 * self.zoom_level,
    {
        PhysicalSize::new(self.physical_width(), self.physical_height())
    }
}

/// A configuration is accepted exactly when every field is in range, and a
/// rejected one is charged to the first field out of range: the viewport
/// size before the zoom level, the zoom level before the framerate.
pub proof fn lemma_validation_priority(config: MrgrConfig)
    ensures
        config.first_violation().is_none() <==> config.is_sane(),
        !config.size_in_range() ==> (config.first_violation() == Some(ConfigError::ViewportTooBig)
            || config.first_violation() == Some(ConfigError::ViewportTooSmall)),
        config.size_in_range() && !config.zoom_in_range() ==> config.first_violation() == Some(
            ConfigError::ZoomOutOfRange,
        ),
        config.size_in_range() && config.zoom_in_range() && !config.framerate_in_range()
            ==> config.first_violation() == Some(ConfigError::FramerateOutOfRange),
{
}

/// An accepted configuration's physical size lies between the smallest and
/// the largest window size, so its products cannot overflow.
pub proof fn lemma_sane_physical_size_bounded(config: MrgrConfig)
    requires
        config.is_sane(),
    ensures
        MINIMUM_WIDTH * MINIMUM_ZOOM_LEVEL <= config.viewport_size.0 * config.zoom_level
            <= MAXIMUM_WIDTH * MAXIMUM_ZOOM_LEVEL,
        MINIMUM_HEIGHT * MINIMUM_ZOOM_LEVEL <= config.viewport_size.1 * config.zoom_level
            <= MAXIMUM_HEIGHT * MAXIMUM_ZOOM_LEVEL,
        MAXIMUM_WIDTH * MAXIMUM_ZOOM_LEVEL <= u32::MAX,
        MAXIMUM_HEIGHT * MAXIMUM_ZOOM_LEVEL <= u32::MAX,
{
    assert(MINIMUM_WIDTH * MINIMUM_ZOOM_LEVEL <= config.viewport_size.0 * config.zoom_level
        <= MAXIMUM_WIDTH * MAXIMUM_ZOOM_LEVEL) by (nonlinear_arith)
        requires
            128 <= config.viewport_size.0 <= 1280,
            1 <= config.zoom_level <= 10,
    ;
    assert(MINIMUM_HEIGHT * MINIMUM_ZOOM_LEVEL <= config.viewport_size.1 * config.zoom_level
        <= MAXIMUM_HEIGHT * MAXIMUM_ZOOM_LEVEL) by (nonlinear_arith)
        requires
            72 <= config.viewport_size.1 <= 720,
            1 <= config.zoom_level <= 10,
    ;
}

} // verus!
