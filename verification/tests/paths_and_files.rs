use openscad_mcp_server::manager::OpenSCADManager;
use openscad_mcp_server::paths::{is_acceptable_name, join_path};
use openscad_mcp_server::server::default_working_dir;

fn manager() -> OpenSCADManager {
    OpenSCADManager::new("/home/ada/.openscad-mcp".to_string())
}

#[test]
fn normalize_filename_strips_one_scad_suffix() {
    assert_eq!(OpenSCADManager::normalize_filename("model.scad"), "model");
    assert_eq!(OpenSCADManager::normalize_filename("model"), "model");
    assert_eq!(OpenSCADManager::normalize_filename("a.scad.scad"), "a.scad");
    assert_eq!(OpenSCADManager::normalize_filename(".scad"), "");
    assert_eq!(OpenSCADManager::normalize_filename("scad"), "scad");
    assert_eq!(OpenSCADManager::normalize_filename("doorknob_guard/v3.scad"), "doorknob_guard/v3");
    assert_eq!(OpenSCADManager::normalize_filename("model.SCAD"), "model.SCAD");
    assert_eq!(OpenSCADManager::normalize_filename("caf\u{e9}.scad"), "caf\u{e9}");
    assert_eq!(OpenSCADManager::normalize_filename(""), "");
}

#[test]
fn join_path_follows_unix_rules() {
    assert_eq!(join_path("/home/ada", "a.scad"), "/home/ada/a.scad");
    assert_eq!(join_path("/home/ada/", "a.scad"), "/home/ada/a.scad");
    assert_eq!(join_path("/home/ada", "/tmp/a.scad"), "/tmp/a.scad");
    assert_eq!(join_path("", "a.scad"), "a.scad");
    assert_eq!(join_path("base", "sub/a.png"), "base/sub/a.png");
}

#[test]
fn resolve_path_puts_files_in_working_dir() {
    let m = manager();
    assert_eq!(m.scad_path("cube").unwrap(), "/home/ada/.openscad-mcp/cube.scad");
    assert_eq!(m.preview_path("cube.scad").unwrap(), "/home/ada/.openscad-mcp/cube_preview.png");
    assert_eq!(m.scad_path("proj/v3").unwrap(), "/home/ada/.openscad-mcp/proj/v3.scad");
    assert_eq!(m.scad_path("proj/v3.scad").unwrap(), "/home/ada/.openscad-mcp/proj/v3.scad");
    assert_eq!(m.stl_path("final").unwrap(), "/home/ada/.openscad-mcp/final.stl");
    assert_eq!(m.stl_path("final.scad").unwrap(), "/home/ada/.openscad-mcp/final.stl");
    assert_eq!(m.metadata_path("cube.scad").unwrap(), "/home/ada/.openscad-mcp/cube.meta.json");
    assert_eq!(m.metadata_path("proj/v3").unwrap(), "/home/ada/.openscad-mcp/proj/v3.meta.json");
}

#[test]
fn preview_jobs_cover_seven_angles_in_order() {
    let m = manager();
    let jobs = m.preview_jobs("cube.scad").unwrap();
    let labels: Vec<&str> = jobs.iter().map(|j| j.label.as_str()).collect();
    assert_eq!(labels, vec!["iso", "front", "top", "right", "back", "top_right", "top_left"]);
    let cameras: Vec<&str> = jobs.iter().map(|j| j.camera.as_str()).collect();
    assert_eq!(
        cameras,
        vec![
            "0,0,0,55,0,25,1",
            "0,0,0,90,0,0,1",
            "0,0,0,0,0,0,1",
            "0,0,0,55,0,90,1",
            "0,0,0,55,0,180,1",
            "0,0,0,30,0,315,1",
            "0,0,0,30,0,135,1",
        ]
    );
    assert_eq!(jobs[0].png_path, "/home/ada/.openscad-mcp/cube_preview_iso.png");
    assert_eq!(jobs[6].png_path, "/home/ada/.openscad-mcp/cube_preview_top_left.png");
}

#[test]
fn scad_extension_is_optional() {
    let m = manager();
    for name in ["cube", "proj/v3", "x"] {
        let with = format!("{}.scad", name);
        assert_eq!(m.scad_path(name).unwrap(), m.scad_path(&with).unwrap());
        assert_eq!(m.metadata_path(name).unwrap(), m.metadata_path(&with).unwrap());
        assert_eq!(m.stl_path(name).unwrap(), m.stl_path(&with).unwrap());
        let a: Vec<String> = m.preview_jobs(name).unwrap().into_iter().map(|j| j.png_path).collect();
        let b: Vec<String> = m.preview_jobs(&with).unwrap().into_iter().map(|j| j.png_path).collect();
        assert_eq!(a, b);
    }
}

#[test]
fn design_files_are_distinct() {
    let m = manager();
    for (name, output) in [("cube", "cube"), ("", ""), ("abs/thing.scad", "thing"), ("a.scad", "a")] {
        let mut all: Vec<String> = m.preview_jobs(name).unwrap().into_iter().map(|j| j.png_path).collect();
        all.push(m.scad_path(name).unwrap());
        all.push(m.metadata_path(name).unwrap());
        all.push(m.stl_path(output).unwrap());
        all.push(m.preview_path(name).unwrap());
        let mut sorted = all.clone();
        sorted.sort();
        sorted.dedup();
        assert_eq!(sorted.len(), all.len(), "collision among {:?}", all);
    }
}

#[test]
fn working_dir_defaults() {
    assert_eq!(default_working_dir(Some("/home/ada".to_string())), "/home/ada/.openscad-mcp");
    assert_eq!(default_working_dir(Some("/".to_string())), "/.openscad-mcp");
    assert_eq!(default_working_dir(None), "./.openscad-mcp");
}

#[test]
fn relative_names_stay_in_working_dir() {
    let m = manager();
    let dir = "/home/ada/.openscad-mcp/";
    for name in ["cube", "proj/v3.scad", "a/...scad", "", "x/.hidden"] {
        let mut files: Vec<String> = m.preview_jobs(name).unwrap().into_iter().map(|j| j.png_path).collect();
        files.push(m.scad_path(name).unwrap());
        files.push(m.metadata_path(name).unwrap());
        files.push(m.stl_path(name).unwrap());
        files.push(m.preview_path(name).unwrap());
        for f in files {
            assert!(f.starts_with(dir), "{} escapes", f);
            assert!(!f[dir.len()..].split('/').any(|seg| seg == ".."), "{} climbs", f);
        }
    }
}

#[test]
fn absolute_or_climbing_names_are_refused() {
    let m = manager();
    for name in ["/etc/x", "../x", "a/../../b", "..", "x/..", "/"] {
        let msg = format!("Invalid file name: {} (use a relative name without '..')", name);
        assert_eq!(m.scad_path(name), Err(msg.clone()));
        assert_eq!(m.stl_path(name), Err(msg.clone()));
        assert_eq!(m.metadata_path(name), Err(msg.clone()));
        assert_eq!(m.preview_path(name), Err(msg.clone()));
        assert!(m.preview_jobs(name).is_err());
    }
    // dots that do not form a ".." segment are fine
    for name in ["a..b", "...", ".hidden", "x/.y", "a/...scad"] {
        assert!(m.scad_path(name).is_ok(), "{} refused", name);
    }
}

#[test]
fn acceptable_names() {
    assert!(is_acceptable_name("cube"));
    assert!(is_acceptable_name(""));
    assert!(is_acceptable_name("a..b/c"));
    assert!(!is_acceptable_name("/cube"));
    assert!(!is_acceptable_name("a/../b"));
    assert!(!is_acceptable_name(".."));
    assert!(!is_acceptable_name("../"));
}
