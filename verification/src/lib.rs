//! The Aperture gateway as a provider of models.
//!
//! The gateway speaks the OpenAI protocol and puts many vendors behind one base URL.
//! This library decides what is particular to it: which native client a model's
//! requests go through, what its list of models says, which limits a model has once
//! the user's overrides are taken into account, and where the gateway is. It works on
//! plain values; reading files and the environment and talking to the gateway are left
//! to the program around it.

pub mod adjust;
pub mod error;
pub mod json;
pub mod json_text;
pub mod laws;
pub mod listing;
pub mod meaning;
pub mod native;
pub mod overrides;
pub mod provider;
pub mod registry;
pub mod routing;
pub mod settings;
pub mod string_map;
pub mod text;
pub mod validation;
