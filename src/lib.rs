//! Render-chain configuration model: a namespace of named sources, the
//! render stages that sample them, the inputs that feed them and the
//! automation attached to stage variables, kept mutually consistent.
pub mod catalog;
pub mod inputs;
pub mod model;
pub mod namespace;
pub mod project;
pub mod stage;
pub mod text;
pub mod wire;
