//! Option resolution and raw-image staging in front of the oxipng optimizer.
//!
//! Host values ([`value::Value`]) are decoded into typed settings and
//! resolved, over a preset baseline read from the engine, into one
//! [`options::Configuration`]; a [`raw::Bitmap`] stages pixels for encoding.
pub mod engine;
pub mod error;
pub mod options;
pub mod raw;
pub mod types;
pub mod value;

pub use error::{handle_png_error, EngineError};
pub use options::{parse_kw_opts, parse_kw_opts_dict, resolve, Configuration, OptionError, OptionKey};
pub use raw::{optimize_from_memory, Bitmap, Color, RawImageError};
pub use types::{Deflater, Filter, Interlace, Libdeflater, StripPolicy, Zopfli};
pub use value::{Value, ValueError, ValueKind};
