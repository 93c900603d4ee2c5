use mrgr::common::NotDebugged;
use mrgr::{ImageCache, ImageLoadError};

#[test]
fn new_cache_holds_nothing() {
    let cache: ImageCache<u32> = ImageCache::new();
    assert!(!cache.is_loaded("a.png"));
    assert!(cache.image("a.png").is_none());
    assert_eq!(cache.decode_count(), 0);
}

#[test]
fn loaded_image_is_found() {
    let mut cache: ImageCache<u32> = ImageCache::new();
    assert_eq!(cache.load_image("a.png".to_string(), Ok(7)), Ok(()));
    assert!(cache.is_loaded("a.png"));
    assert_eq!(cache.image("a.png"), Some(&7));
    assert!(cache.image("b.png").is_none());
    assert_eq!(cache.decode_count(), 1);
}

#[test]
fn unloaded_image_needs_a_fresh_decode() {
    let mut cache: ImageCache<u32> = ImageCache::new();
    assert_eq!(cache.load_image("a.png".to_string(), Ok(1)), Ok(()));
    cache.unload_image("a.png");
    assert!(cache.image("a.png").is_none());
    assert_eq!(cache.decode_count(), 1);
    assert_eq!(cache.load_image("a.png".to_string(), Ok(2)), Ok(()));
    assert_eq!(cache.image("a.png"), Some(&2));
    assert_eq!(cache.decode_count(), 2);
}

#[test]
fn unload_leaves_other_paths() {
    let mut cache: ImageCache<u32> = ImageCache::new();
    assert_eq!(cache.load_image("a.png".to_string(), Ok(1)), Ok(()));
    assert_eq!(cache.load_image("b.png".to_string(), Ok(2)), Ok(()));
    cache.unload_image("a.png");
    cache.unload_image("missing.png");
    assert!(!cache.is_loaded("a.png"));
    assert_eq!(cache.image("b.png"), Some(&2));
}

#[test]
fn loading_again_replaces_the_image() {
    let mut cache: ImageCache<u32> = ImageCache::new();
    assert_eq!(cache.load_image("a.png".to_string(), Ok(1)), Ok(()));
    assert_eq!(cache.load_image("a.png".to_string(), Ok(9)), Ok(()));
    assert_eq!(cache.image("a.png"), Some(&9));
    assert_eq!(cache.decode_count(), 2);
}

#[test]
fn failed_load_is_reported_and_changes_nothing() {
    let mut cache: ImageCache<u32> = ImageCache::new();
    assert_eq!(cache.load_image("a.png".to_string(), Ok(1)), Ok(()));
    assert_eq!(
        cache.load_image("a.png".to_string(), Err(ImageLoadError::Undecodable)),
        Err(ImageLoadError::Undecodable)
    );
    assert_eq!(
        cache.load_image("b.png".to_string(), Err(ImageLoadError::Unreadable)),
        Err(ImageLoadError::Unreadable)
    );
    assert_eq!(cache.image("a.png"), Some(&1));
    assert!(!cache.is_loaded("b.png"));
    assert_eq!(cache.decode_count(), 1);
}

#[test]
fn not_debugged_gives_back_what_it_wraps() {
    let wrapped = NotDebugged::new(41u8);
    assert_eq!(*wrapped.get(), 41);
    assert_eq!(wrapped.unwrap(), 41);
}

#[test]
fn not_debugged_is_made_from_a_value() {
    let wrapped: NotDebugged<&str> = NotDebugged::from("hidden");
    assert_eq!(wrapped.unwrap(), "hidden");
}
