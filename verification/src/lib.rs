//! Verified core of the Catalyst blogging platform: post commands, post and
//! anchor submission decisions, keypairs, listings and the database queries.

pub mod text;
pub mod command;
pub mod primitives;
pub mod model;
pub mod keypair;
pub mod submission;
pub mod anchors;
pub mod listing;
pub mod db_wrapper;
pub mod network;
