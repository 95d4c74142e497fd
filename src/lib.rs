//! Analysis and code generation behind a bridge attribute: from one function
//! declaration it derives a server-side command and a client-side stub that
//! encodes the arguments, dispatches the call by name and decodes the result.
//!
//! The generated code is returned as token text, one space between tokens.

pub mod backend;
pub mod client;
pub mod decode;
pub mod signature;
pub mod text;
pub mod types;

pub use backend::{generate_backend, tauri_bridge};
pub use client::{args_record, args_record_named, generate_client, generate_client_named, ArgsRecord};
pub use decode::{generate_try_deserialize_expr, select_decode, DecodeStrategy};
pub use signature::{get_return_type, FunctionItem, FunctionSignature, Param};
pub use types::{has_reference_type, render_type, transform_ref_to_lifetime, TypeDescriptor};
