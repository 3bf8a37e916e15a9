//! A portable model of clipboard content: the payload kinds a clipboard can
//! hold, an image value that can be rescaled and re-encoded, the capability
//! traits of a clipboard and of a clipboard watcher, and the watcher's
//! lifecycle.

pub mod clipboard;
pub mod codec;
pub mod content;
pub mod error;
pub mod image_data;
pub mod watcher;

pub use clipboard::Clipboard;
pub use content::{ClipboardContent, ContentData, ContentFormat};
pub use error::ClipboardError;
pub use image::imageops::FilterType;
pub use image_data::{ImageEncoding, RustImage, RustImageBuffer, RustImageData};
pub use watcher::{
    ClipboardHandler, ClipboardWatcher, HandlerList, WatchAction, WatchEvent, WatcherShutdown,
    WatcherState,
};
