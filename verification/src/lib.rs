//! Connection and protocol layer for networked 3D printers: the typed message
//! model, the per-device protocol session, the connection manager and the
//! passive discovery parser, each stated over mathematical models and proved.
//! Beside them stand the rules of the handheld device that reads spool tags:
//! the state of its tag reader and the levels of its status icons.

pub mod decode;
pub mod discovery;
pub mod indicators;
pub mod json;
pub mod manager;
pub mod messages;
pub mod nfc;
pub mod registry;
pub mod session;
pub mod text;
pub mod wire;
