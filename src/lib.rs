//! The verified core of the user-session daemon that mediates AppArmor
//! prompts: the typed prompt model, the translation to and from the UI's RPC
//! messages, the decisions of the snapd client, pattern suggestions and the
//! worker's queue of pending prompts.
pub mod model;
pub mod patterns;
pub mod server;
pub mod snapd;
pub mod worker;
