//! Model Context Protocol surface of the Loom server: the prompt catalogue,
//! resource and tool definitions, URI routing and the access decisions taken
//! around weaver management, the contents of the resources, with their
//! contracts.

pub mod access;
pub mod contents;
pub mod error;
pub mod ids;
pub mod json;
pub mod prompts;
pub mod resources;
pub mod string_map;
pub mod text;
pub mod types;
pub mod tools;
