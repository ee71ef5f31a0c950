//! Session driver for locally served large language models: a handle
//! registry, the model catalog and its download policy, the provider
//! process bookkeeping, the conversation state machine and the bridge that
//! lets model output call remote tools.
pub mod download;
pub mod handle;
pub mod mcp;
pub mod models;
pub mod permissions;
pub mod provider;
pub mod session;
pub mod text;
