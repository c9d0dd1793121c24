//! gmod's Lua state wrapper as verified conversations with the Lua C API.
//!
//! Every operation of a Lua state that decides something is a conversation:
//! it hands the host a call to make (`api::ApiCall`), takes back the reply
//! (`api::Reply`) and decides the next call or the outcome. The host makes the
//! calls into the Lua shared library. Each conversation's contract says which
//! complete exchanges it can have and what it answers for them; `model` says how
//! each call moves the Lua stack, and `laws` proves what whole conversations do
//! to it.

pub mod consts;
pub mod api;
pub mod model;
pub mod text;
pub mod state;
pub mod flag;
pub mod query;
pub mod typename;
pub mod dump;
pub mod errors;
pub mod userdata;
pub mod laws;
