//! Verified core of an OpenSCAD design server: how file names map to paths
//! in the working directory, which commands are run for previews and
//! exports, how tool requests are decoded, and what each reply says.

pub mod catalogue;
pub mod commands;
pub mod error;
pub mod layout;
pub mod manager;
pub mod paths;
pub mod replies;
pub mod report;
pub mod requests;
pub mod server;
pub mod text;
