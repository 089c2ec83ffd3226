//! The errors of working with OpenSCAD.

use vstd::prelude::*;

verus! {

/// `std::io::Error`, carried as it is.
#[verifier::external_type_specification]
#[verifier::external_body]
pub struct ExIoError(std::io::Error);

/// The text of an I/O error, as its `Display` implementation
/// (`std::io::Error`'s `fmt`) writes it. Nothing is claimed of that text:
/// for an error from the operating system it depends on the machine.
#[verifier::external_body]
fn io_error_text(error: &std::io::Error) -> (text: String) {
    format!("{}", error)
}

/// What can go wrong when working with OpenSCAD.
pub enum OpenSCADError {
    NotInstalled,
    Io(std::io::Error),
    InvalidFile(String),
    RenderFailed(String),
}

impl OpenSCADError {
    /// The message that describes the error.
    pub fn message(&self) -> (text: String)
        ensures
            match self {
                OpenSCADError::NotInstalled => text@ == "OpenSCAD not installed"@,
                OpenSCADError::Io(_) => exists|detail: Seq<char>| text@ == "IO error: "@ + detail,
                OpenSCADError::InvalidFile(what) => text@ == "Invalid SCAD file: "@ + what@,
                OpenSCADError::RenderFailed(why) => text@ == "Render failed: "@ + why@,
            },
    {
        match self {
            OpenSCADError::NotInstalled => String::from_str("OpenSCAD not installed"),
            OpenSCADError::Io(e) => {
                let detail = io_error_text(e);
                let mut text = String::from_str("IO error: ");
                text.append(detail.as_str());
                text
            },
            OpenSCADError::InvalidFile(what) => {
                let mut text = String::from_str("Invalid SCAD file: ");
                text.append(what.as_str());
                text
            },
            OpenSCADError::RenderFailed(why) => {
                let mut text = String::from_str("Render failed: ");
                text.append(why.as_str());
                text
            },
        }
    }
}

} // verus!
