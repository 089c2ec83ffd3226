use openscad_mcp_server::commands::{
    collect_previews, export_command, export_outcome, locate_openscad, preview_command,
    render_command, render_outcome, require_metadata_file, require_scad_file,
};
use openscad_mcp_server::manager::OpenSCADManager;

#[test]
fn render_command_line() {
    let cmd = render_command("/usr/bin/openscad", "0,0,0,55,0,25,1", "/w/c_preview_iso.png", "/w/c.scad");
    assert_eq!(cmd.program, "/usr/bin/openscad");
    assert_eq!(
        cmd.args,
        vec![
            "--autocenter",
            "--viewall",
            "--camera",
            "0,0,0,55,0,25,1",
            "-o",
            "/w/c_preview_iso.png",
            "/w/c.scad"
        ]
    );
}

#[test]
fn export_and_preview_command_lines() {
    let cmd = export_command("openscad", "/w/out.stl", "/w/c.scad");
    assert_eq!(cmd.program, "openscad");
    assert_eq!(cmd.args, vec!["-o", "/w/out.stl", "/w/c.scad"]);
    let cmd = preview_command("openscad", "/w/c_preview.png", "/w/c.scad");
    assert_eq!(cmd.program, "openscad");
    assert_eq!(cmd.args, vec!["--autocenter", "--viewall", "-o", "/w/c_preview.png", "/w/c.scad"]);
}

#[test]
fn locating_openscad() {
    assert_eq!(locate_openscad(Some("/usr/bin/openscad".to_string())), Ok("/usr/bin/openscad".to_string()));
    assert_eq!(
        locate_openscad(None),
        Err("OpenSCAD not found in PATH. Please install OpenSCAD first.".to_string())
    );
}

#[test]
fn missing_files_are_reported() {
    assert_eq!(require_scad_file("/w/c.scad".to_string(), true), Ok("/w/c.scad".to_string()));
    assert_eq!(
        require_scad_file("/w/c.scad".to_string(), false),
        Err("SCAD file not found: /w/c.scad".to_string())
    );
    assert_eq!(require_metadata_file("/w/c.meta.json".to_string(), true), Ok("/w/c.meta.json".to_string()));
    assert_eq!(
        require_metadata_file("/w/c.meta.json".to_string(), false),
        Err("Metadata file not found: /w/c.meta.json".to_string())
    );
}

#[test]
fn render_outcomes() {
    assert_eq!(render_outcome(false, "syntax error", 10), Err("OpenSCAD render failed: syntax error".to_string()));
    assert_eq!(render_outcome(true, "", 0), Err("OpenSCAD produced an empty image".to_string()));
    assert_eq!(render_outcome(true, "warning", 2048), Ok(()));
}

#[test]
fn previews_keep_successes_in_order() {
    let m = OpenSCADManager::new("/w".to_string());
    let jobs = m.preview_jobs("c").unwrap();
    let ok = collect_previews(&jobs, &vec![true, false, true, false, false, false, true]).unwrap();
    assert_eq!(ok, vec!["/w/c_preview_iso.png", "/w/c_preview_top.png", "/w/c_preview_top_left.png"]);
    let all = collect_previews(&jobs, &vec![true; 7]).unwrap();
    assert_eq!(all.len(), 7);
    assert_eq!(collect_previews(&jobs, &vec![false; 7]), Err("All render angles failed".to_string()));
}

#[test]
fn export_outcomes() {
    assert_eq!(export_outcome("/w/o.stl".to_string(), true, ""), Ok("/w/o.stl".to_string()));
    assert_eq!(export_outcome("/w/o.stl".to_string(), false, "boom"), Err("OpenSCAD export failed: boom".to_string()));
}
