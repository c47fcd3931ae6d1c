//! A typed, memory-safe access layer over an external media-metadata
//! extraction engine that is reachable only through an opaque-handle,
//! wide-character C interface.
//!
//! The crate is organised in four layers, leaves first:
//!
//! * [`c_w_string`] — the wide-string marshaller: conversion between native
//!   text and the wide-character units the engine's interface expects.
//! * [`ffi`] — the handle wrapper [`MediaInfo`]: loosely-typed raw operations
//!   (open, close, query a parameter, query a sub-stream count, dump a
//!   report) over an engine reached through the [`MediaInfoEngine`] trait.
//! * [`streams`] — typed per-category stream accessors built from the
//!   loosely-typed query primitive.
//! * [`convenience_api`] — the facade: opens a source, materialises the
//!   per-category accessor lists, and tears them down on close.

pub mod c_w_string;
pub mod ffi;
pub mod convenience_api;
pub mod parse;
pub mod streams;
pub mod timestamp;

pub use convenience_api::MediaInfoWrapper;
pub use ffi::MediaInfo;
pub use ffi::MediaInfoEngine;
pub use ffi::MediaInfoError;
pub use ffi::MediaInfoInfo;
pub use ffi::MediaInfoResult;
pub use ffi::MediaInfoStream;

pub use c_w_string::CWcharString;

pub use streams::AudioStream;
pub use streams::BaseStream;
pub use streams::GeneralStream;
pub use streams::ImageStream;
pub use streams::MediaDuration;
pub use streams::MenuStream;
pub use streams::OtherStream;
pub use streams::TextStream;
pub use streams::VideoStream;
pub use timestamp::UtcTimestamp;
