//! A template-rendering core: it decides which templating engine a template
//! body calls for (forced choice, file extension, or an in-content marker),
//! resolves the JSON context that belongs to the template, drives the chosen
//! engine, and schedules repeated render cycles in watch mode.
pub mod context;
pub mod detect;
pub mod engine;
pub mod error;
pub mod interop;
pub mod marker;
pub mod modes;
pub mod paths;
pub mod render;
pub mod text;
pub mod watch;
