//! Verified request, response and schema types for the OpenAI HTTP API.
//!
//! Each module holds the validated values of one API area together with the
//! rules that decide which values are accepted.  The JSON documents that the
//! schema tooling rewrites are modelled by [`json::JsonValue`].
#![allow(unused_imports)]

pub mod json;
pub mod text;
pub mod entries;
pub mod structured;
pub mod wire;
pub mod files;
pub mod secret;
pub mod skills;
pub mod voices;
pub mod scalar;
pub mod safety;
pub mod diagnostics;
pub mod videos;
pub mod vector_stores;
pub mod media;
pub mod realtime;
pub mod realtime_enums;
pub mod realtime_calls;
pub mod realtime_items;
pub mod realtime_session;
pub mod realtime_events;
pub mod realtime_server;
pub mod vector_store_files;
pub mod media_audio;
pub mod transcriptions;
pub mod tool_names;
pub mod structured_output;
