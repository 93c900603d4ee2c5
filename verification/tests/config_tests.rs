use mrgr::config::{
    maximum_physical_size, minimum_physical_size, ConfigError, MAXIMUM_FRAMERATE, MAXIMUM_HEIGHT,
    MAXIMUM_WIDTH, MAXIMUM_ZOOM_LEVEL, MINIMUM_FRAMERATE, MINIMUM_HEIGHT, MINIMUM_WIDTH,
    MINIMUM_ZOOM_LEVEL,
};
use mrgr::MrgrConfig;
use winit::dpi::PhysicalSize;

fn config(width: u32, height: u32, zoom_level: u32, framerate: u32) -> MrgrConfig {
    MrgrConfig { viewport_size: (width, height), zoom_level, framerate, caption: "test" }
}

#[test]
fn accepts_typical_configuration() {
    let c = config(320, 240, 4, 30);
    assert!(c.ensure_sanity());
    assert_eq!(c.validate(), Ok(()));
}

#[test]
fn accepts_every_bound() {
    assert!(config(MINIMUM_WIDTH, MINIMUM_HEIGHT, MINIMUM_ZOOM_LEVEL, MINIMUM_FRAMERATE)
        .ensure_sanity());
    assert!(config(MAXIMUM_WIDTH, MAXIMUM_HEIGHT, MAXIMUM_ZOOM_LEVEL, MAXIMUM_FRAMERATE)
        .ensure_sanity());
    assert!(config(128, 720, 1, 480).ensure_sanity());
    assert!(config(1280, 72, 10, 15).ensure_sanity());
}

#[test]
fn rejects_viewport_too_big() {
    assert_eq!(config(1281, 240, 4, 30).validate(), Err(ConfigError::ViewportTooBig));
    assert_eq!(config(320, 721, 4, 30).validate(), Err(ConfigError::ViewportTooBig));
    assert!(!config(1281, 240, 4, 30).ensure_sanity());
}

#[test]
fn rejects_viewport_too_small() {
    assert_eq!(config(127, 240, 4, 30).validate(), Err(ConfigError::ViewportTooSmall));
    assert_eq!(config(320, 71, 4, 30).validate(), Err(ConfigError::ViewportTooSmall));
}

#[test]
fn too_big_is_reported_before_too_small() {
    assert_eq!(config(2000, 10, 4, 30).validate(), Err(ConfigError::ViewportTooBig));
}

#[test]
fn rejects_zoom_out_of_range() {
    assert_eq!(config(320, 240, 0, 30).validate(), Err(ConfigError::ZoomOutOfRange));
    assert_eq!(config(320, 240, 11, 30).validate(), Err(ConfigError::ZoomOutOfRange));
}

#[test]
fn rejects_framerate_out_of_range() {
    assert_eq!(config(320, 240, 4, 14).validate(), Err(ConfigError::FramerateOutOfRange));
    assert_eq!(config(320, 240, 4, 481).validate(), Err(ConfigError::FramerateOutOfRange));
    assert!(!config(320, 240, 4, 0).ensure_sanity());
}

#[test]
fn first_violated_field_wins() {
    assert_eq!(config(10, 10, 0, 0).validate(), Err(ConfigError::ViewportTooSmall));
    assert_eq!(config(320, 240, 0, 0).validate(), Err(ConfigError::ZoomOutOfRange));
    assert_eq!(config(5000, 240, 99, 30).validate(), Err(ConfigError::ViewportTooBig));
    assert_eq!(config(320, 240, 4, 1000).validate(), Err(ConfigError::FramerateOutOfRange));
}

#[test]
fn physical_size_is_viewport_times_zoom() {
    let c = config(320, 240, 4, 30);
    assert_eq!(c.physical_width(), 1280);
    assert_eq!(c.physical_height(), 960);
    assert_eq!(c.physical_size(), PhysicalSize::new(1280, 960));
    assert_eq!(c.physical_size().width, 1280);
    assert_eq!(c.physical_size().height, 960);
}

#[test]
fn physical_size_limits() {
    assert_eq!(minimum_physical_size(), PhysicalSize::new(128, 72));
    assert_eq!(maximum_physical_size(), PhysicalSize::new(12800, 7200));
    assert_eq!(maximum_physical_size().width, 12800);
    assert_eq!(maximum_physical_size().height, 7200);
}

#[test]
fn every_reason_has_its_message() {
    assert_eq!(
        ConfigError::ViewportTooBig.message(),
        "Wrong configuration: viewport size is too big!"
    );
    assert_eq!(
        ConfigError::ViewportTooSmall.message(),
        "Wrong configuration: viewport size is too small!"
    );
    assert_eq!(
        ConfigError::ZoomOutOfRange.message(),
        "Wrong configuration: zoom level is too big or too small!"
    );
    assert_eq!(
        ConfigError::FramerateOutOfRange.message(),
        "Wrong configuration: framerate is too high or too low!"
    );
}
