//! Core of a node in a replicated key-value store: the wire forms of the
//! peer calls, the snapshot stream, the bounded task executor and the
//! monitor that ties a controller's life to leadership.
//!
//! Beside the core stand the rules for building a cluster at a provider
//! and installing to its hosts. Nothing here does input or output: every
//! function takes plain values and gives plain values back.

pub mod action;
pub mod builder;
pub mod config;
pub mod controller;
pub mod engine;
pub mod grpc;
pub mod membership;
pub mod network;
pub mod node;
pub mod pb_impl;
pub mod protobuf;
pub mod provider;
pub mod raft_types;
pub mod settings;
pub mod snapshot;
pub mod ssh;
pub mod task_pool;
pub mod text;
