//! A minimalist retro game renderer: the rules of its presentation and
//! compositing subsystem, stated and proved.

pub mod canvas;
pub mod common;
pub mod config;
pub mod font;
mod glyph_table;
pub mod graphics;
pub mod image_cache;
pub mod nine_patch;
pub mod presentation;
pub mod runtime;
pub mod text;

pub use crate::config::MrgrConfig;
pub use crate::font::{BitmapFont, BitmapFontLookupResult, FontSlot};
pub use crate::graphics::{NinePatch, Rect, TextStyle};
pub use crate::nine_patch::{nine_patch_regions, Region, RegionKind};
pub use crate::text::{layout_text, PlacedGlyph};
pub use crate::image_cache::{ImageCache, ImageLoadError};
pub use crate::runtime::{FrameAction, FrameClock, RuntimeEvent};
pub use crate::presentation::{LoopAction, LoopEvent, PresentationLoop};
pub use crate::canvas::{Canvas, Draw, DrawSource, ImageRef};
