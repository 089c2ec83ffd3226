//! The OpenSCAD command lines, and what their outcomes mean. Every command
//! line starts the located OpenSCAD executable itself; no other program is run.

use vstd::prelude::*;
use crate::manager::PreviewJob;
use crate::text::{concat2, fails_with, texts};

verus! {

/// A program to run and its arguments.
pub struct CommandLine {
    pub program: String,
    pub args: Vec<String>,
}

fn text(s: &str) -> (t: String)
    ensures
        t@ == s@,
{
    String::from_str(s)
}

/// The message given when no OpenSCAD executable can be found.
pub open spec fn not_installed_message() -> Seq<char> {
    "OpenSCAD not found in PATH. Please install OpenSCAD first."@
}

/// The OpenSCAD executable, from the result of looking it up in PATH.
pub fn locate_openscad(found: Option<String>) -> (bin: Result<String, String>)
    ensures
        match found {
            Some(path) => bin == Ok::<String, String>(path),
            None => fails_with(bin, not_installed_message()),
        },
{
    match found {
        Some(path) => Ok(path),
        None => Err(text("OpenSCAD not found in PATH. Please install OpenSCAD first.")),
    }
}

/// The design file at `path`, or the error for a design that does not exist.
pub fn require_scad_file(path: String, exists: bool) -> (r: Result<String, String>)
    ensures
        exists ==> r == Ok::<String, String>(path),
        !exists ==> fails_with(r, "SCAD file not found: "@ + path@),
{
    if exists {
        Ok(path)
    } else {
        Err(concat2("SCAD file not found: ", path.as_str()))
    }
}

/// The metadata file at `path`, or the error for metadata never saved.
pub fn require_metadata_file(path: String, exists: bool) -> (r: Result<String, String>)
    ensures
        exists ==> r == Ok::<String, String>(path),
        !exists ==> fails_with(r, "Metadata file not found: "@ + path@),
{
    if exists {
        Ok(path)
    } else {
        Err(concat2("Metadata file not found: ", path.as_str()))
    }
}

/// The render of one preview image, run by the OpenSCAD executable itself:
/// `<bin> --autocenter --viewall --camera <camera> -o <png> <scad>`.
pub fn render_command(bin: &str, camera: &str, png_path: &str, scad_path: &str) -> (cmd: CommandLine)
    ensures
        cmd.program@ == bin@,
        texts(cmd.args@) == seq![
            "--autocenter"@, "--viewall"@, "--camera"@, camera@, "-o"@, png_path@, scad_path@,
        ],
{
    let mut args: Vec<String> = Vec::new();
    args.push(text("--autocenter"));
    args.push(text("--viewall"));
    args.push(text("--camera"));
    args.push(text(camera));
    args.push(text("-o"));
    args.push(text(png_path));
    args.push(text(scad_path));
    let cmd = CommandLine { program: text(bin), args };
    assert(texts(cmd.args@) =~= seq![
        "--autocenter"@, "--viewall"@, "--camera"@, camera@, "-o"@, png_path@, scad_path@,
    ]);
    cmd
}

/// What one preview render came to: a failed run reports OpenSCAD's error
/// output, and a run that wrote an empty image fails too.
pub fn render_outcome(succeeded: bool, stderr: &str, image_size: u64) -> (r: Result<(), String>)
    ensures
        !succeeded ==> fails_with(r, "OpenSCAD render failed: "@ + stderr@),
        succeeded && image_size == 0 ==> fails_with(r, "OpenSCAD produced an empty image"@),
        succeeded && image_size > 0 ==> r is Ok,
{
    if !succeeded {
        return Err(concat2("OpenSCAD render failed: ", stderr));
    }
    if image_size == 0 {
        return Err(text("OpenSCAD produced an empty image"));
    }
    Ok(())
}

/// The images of the renders that succeeded, in render order.
pub open spec fn rendered_paths(jobs: Seq<PreviewJob>, rendered: Seq<bool>) -> Seq<Seq<char>>
    decreases jobs.len(),
{
    if jobs.len() == 0 || rendered.len() == 0 {
        Seq::empty()
    } else {
        let rest = rendered_paths(jobs.drop_last(), rendered.drop_last());
        if rendered.last() {
            rest.push(jobs.last().png_path@)
        } else {
            rest
        }
    }
}

/// The preview images that were made, `rendered[i]` telling whether job `i`
/// succeeded; an error when none was.
pub fn collect_previews(jobs: &Vec<PreviewJob>, rendered: &Vec<bool>) -> (r: Result<Vec<String>, String>)
    requires
        jobs.len() == rendered.len(),
    ensures
        match r {
            Ok(paths) => texts(paths@) == rendered_paths(jobs@, rendered@)
                && paths.len() > 0,
            Err(e) => e@ == "All render angles failed"@
                && rendered_paths(jobs@, rendered@).len() == 0,
        },
{
    let mut paths: Vec<String> = Vec::new();
    let mut i: usize = 0;
    while i < jobs.len()
        invariant
            0 <= i <= jobs.len(),
            jobs.len() == rendered.len(),
            texts(paths@) == rendered_paths(jobs@.take(i as int), rendered@.take(i as int)),
        decreases jobs.len() - i,
    {
        assert(jobs@.take(i as int + 1).drop_last() =~= jobs@.take(i as int));
        assert(rendered@.take(i as int + 1).drop_last() =~= rendered@.take(i as int));
        if rendered[i] {
            let p = jobs[i].png_path.clone();
            paths.push(p);
            assert(texts(paths@) =~= texts(paths@.drop_last()).push(p@));
        }
        i = i + 1;
    }
    assert(jobs@.take(jobs.len() as int) =~= jobs@);
    assert(rendered@.take(rendered.len() as int) =~= rendered@);
    if paths.len() == 0 {
        Err(text("All render angles failed"))
    } else {
        Ok(paths)
    }
}

/// The single preview render of a design, from OpenSCAD's default view, run
/// by the OpenSCAD executable itself: `<bin> --autocenter --viewall -o <png> <scad>`.
pub fn preview_command(bin: &str, png_path: &str, scad_path: &str) -> (cmd: CommandLine)
    ensures
        cmd.program@ == bin@,
        texts(cmd.args@) == seq!["--autocenter"@, "--viewall"@, "-o"@, png_path@, scad_path@],
{
    let mut args: Vec<String> = Vec::new();
    args.push(text("--autocenter"));
    args.push(text("--viewall"));
    args.push(text("-o"));
    args.push(text(png_path));
    args.push(text(scad_path));
    let cmd = CommandLine { program: text(bin), args };
    assert(texts(cmd.args@) =~= seq!["--autocenter"@, "--viewall"@, "-o"@, png_path@, scad_path@]);
    cmd
}

/// The STL export, run by the OpenSCAD executable itself: `<bin> -o <stl> <scad>`.
pub fn export_command(bin: &str, stl_path: &str, scad_path: &str) -> (cmd: CommandLine)
    ensures
        cmd.program@ == bin@,
        texts(cmd.args@) == seq!["-o"@, stl_path@, scad_path@],
{
    let mut args: Vec<String> = Vec::new();
    args.push(text("-o"));
    args.push(text(stl_path));
    args.push(text(scad_path));
    let cmd = CommandLine { program: text(bin), args };
    assert(texts(cmd.args@) =~= seq!["-o"@, stl_path@, scad_path@]);
    cmd
}

/// What an STL export came to: the STL file, or OpenSCAD's error output.
pub fn export_outcome(stl_path: String, succeeded: bool, stderr: &str) -> (r: Result<String, String>)
    ensures
        succeeded ==> r == Ok::<String, String>(stl_path),
        !succeeded ==> fails_with(r, "OpenSCAD export failed: "@ + stderr@),
{
    if succeeded {
        Ok(stl_path)
    } else {
        Err(concat2("OpenSCAD export failed: ", stderr))
    }
}

} // verus!
