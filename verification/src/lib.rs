//! The decisions of a host that runs WebAssembly actors and capability
//! providers on a lattice and keeps them in step with cluster resources.

pub mod actor;
pub mod blobstore;
pub mod codec;
pub mod config;
pub mod controller;
pub mod entity;
pub mod handler;
pub mod host;
pub mod jwt;
pub mod kasmcloud;
pub mod keys;
pub mod keyvalue;
pub mod links;
pub mod messaging;
pub mod msgpack;
pub mod provider;
pub mod response;
pub mod table;
pub mod text;
pub mod time;
pub mod v1alpha1;
pub mod wire;
