//! How the server introduces itself and where it keeps its files.

use vstd::prelude::*;
use crate::paths::{join_path, join_path_spec};

verus! {

/// The name and version the server reports.
pub struct ServerIdentity {
    pub name: String,
    pub version: String,
}

/// The name and version the server reports.
pub fn server_identity() -> (id: ServerIdentity)
    ensures
        id.name@ == "openscad-mcp-server"@,
        id.version@ == "0.1.0"@,
{
    ServerIdentity {
        name: String::from_str("openscad-mcp-server"),
        version: String::from_str("0.1.0"),
    }
}

/// The working directory: ".openscad-mcp" in the home directory when one is
/// known, "./.openscad-mcp" otherwise.
pub fn default_working_dir(home: Option<String>) -> (dir: String)
    ensures
        match home {
            Some(h) => dir@ == join_path_spec(h@, ".openscad-mcp"@),
            None => dir@ == "./.openscad-mcp"@,
        },
{
    match home {
        Some(h) => join_path(h.as_str(), ".openscad-mcp"),
        None => String::from_str("./.openscad-mcp"),
    }
}

} // verus!
