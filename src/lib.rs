//! Generation and validation of checksum-correct synthetic identifiers, with a
//! bounded activity log, text exports and a searchable option selector.
pub mod catalog;
pub mod domain;
pub mod export;
pub mod history;
pub mod install;
pub mod json;
pub mod pipeline;
pub mod registry;
pub mod selector;
pub mod text;
pub mod validator;
