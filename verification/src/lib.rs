//! Safe, verified core of a wrapper around a native audio I/O library.
//!
//! The native engine itself stays behind a C ABI and is out of scope here;
//! this crate holds everything on this side of that boundary that can be
//! stated and checked: the translation of native status codes into a closed
//! set of error kinds, the enum and flag tables that mirror the native ABI
//! codes, the stream-parameter builder with its native-endian resolution,
//! the plain-value model of device descriptors and device collections, and
//! the lifecycle rules for native handles.

#![allow(non_camel_case_types)]

pub mod builders;
pub mod call;
pub mod channel;
pub mod device;
pub mod device_collection;
pub mod engine;
pub mod error;
pub mod ffi;
pub mod format;
pub mod log;
pub mod stream;
pub mod util;

pub use builders::StreamParamsBuilder;
pub use call::Convert;
pub use call::convert;
pub use channel::ChannelLayout;
pub use device::Device;
pub use device::DeviceFormat;
pub use device::DeviceId;
pub use device::DeviceInfo;
pub use device::DevicePref;
pub use device::DeviceState;
pub use device::DeviceType;
pub use device_collection::DeviceCollection;
pub use engine::StreamPhase;
pub use error::Error;
pub use error::ErrorCode;
pub use error::Result;
pub use format::SampleFormat;
pub use log::LogLevel;
pub use stream::State;
pub use stream::StreamInitOptions;
pub use stream::StreamInitOptionsBuilder;
pub use stream::StreamParams;
pub use stream::StreamPrefs;
pub use util::Binding;
pub use util::IsNullPtr;
