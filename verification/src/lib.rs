//! Verified core of a Google Workspace MCP server: account tokens, request
//! construction for the Google APIs, NotebookLM response decoding, tool
//! argument checking and dispatch, and the JSON-RPC envelope.
pub mod text;
pub mod json;
pub mod outside;
pub mod ports;
pub mod notebooklm;
pub mod auth;
pub mod models;
pub mod client;
pub mod tools;
pub mod server;
pub mod rpc;
pub mod replies;
