//! The working directory and the files that live in it.

use vstd::prelude::*;
use crate::layout::{lemma_joined_inside, lemma_labels, lemma_suffix_keeps_inside};
use crate::paths::{
    acceptable_name, inside, is_acceptable_name, join_path, join_path_spec, plain_extension,
    scad_suffix, stem_of,
};

verus! {

/// The path of the file `name` (its ".scad" dropped) with extension `ext`
/// inside the directory `dir`.
pub open spec fn file_path(dir: Seq<char>, name: Seq<char>, ext: Seq<char>) -> Seq<char> {
    join_path_spec(dir, stem_of(name) + seq!['.'] + ext)
}

/// The camera settings and labels of the preview renders, in render order.
pub open spec fn camera_angles() -> Seq<(Seq<char>, Seq<char>)> {
    seq![
        ("0,0,0,55,0,25,1"@, "iso"@),
        ("0,0,0,90,0,0,1"@, "front"@),
        ("0,0,0,0,0,0,1"@, "top"@),
        ("0,0,0,55,0,90,1"@, "right"@),
        ("0,0,0,55,0,180,1"@, "back"@),
        ("0,0,0,30,0,315,1"@, "top_right"@),
        ("0,0,0,30,0,135,1"@, "top_left"@),
    ]
}

/// The name under which the preview `label` of the design `stem` is kept.
pub open spec fn preview_name(stem: Seq<char>, label: Seq<char>) -> Seq<char> {
    stem + "_preview_"@ + label
}

/// One preview render: the camera setting, its label and the image it writes.
pub struct PreviewJob {
    pub camera: String,
    pub label: String,
    pub png_path: String,
}

/// Owns the working directory in which every design file is kept.
pub struct OpenSCADManager {
    working_dir: String,
}

impl View for OpenSCADManager {
    type V = Seq<char>;

    /// The working directory.
    closed spec fn view(&self) -> Seq<char> {
        self.working_dir@
    }
}

impl OpenSCADManager {
    /// A manager for the given working directory.
    pub fn new(working_dir: String) -> (manager: Self)
        ensures
            manager@ == working_dir@,
    {
        OpenSCADManager { working_dir }
    }

    /// Removes one trailing ".scad" from a design name.
    pub fn normalize_filename(filename: &str) -> (stem: &str)
        ensures
            stem@ == stem_of(filename@),
    {
        let n = filename.unicode_len();
        if n >= 5 && filename.get_char(n - 5) == '.' && filename.get_char(n - 4) == 's'
            && filename.get_char(n - 3) == 'c' && filename.get_char(n - 2) == 'a'
            && filename.get_char(n - 1) == 'd' {
            assert(filename@.subrange(n - 5, n as int) =~= scad_suffix());
            filename.substring_char(0, n - 5)
        } else {
            proof {
                if n >= 5 {
                    let tail = filename@.subrange(n - 5, n as int);
                    if tail == scad_suffix() {
                        assert(tail[0] == filename@[n - 5]);
                        assert(tail[1] == filename@[n - 4]);
                        assert(tail[2] == filename@[n - 3]);
                        assert(tail[3] == filename@[n - 2]);
                        assert(tail[4] == filename@[n - 1]);
                    }
                }
            }
            filename
        }
    }

    /// The path of `name` (".scad" dropped) with extension `ext` in the
    /// working directory, for a name that is already known to be acceptable.
    fn join_file(&self, name: &str, ext: &str) -> (path: String)
        requires
            acceptable_name(name@),
            plain_extension(ext@),
        ensures
            path@ == file_path(self@, name@, ext@),
            inside(self@, path@),
    {
        let stem = Self::normalize_filename(name);
        let mut rel = String::from_str(stem);
        let dot = ".";
        proof {
            reveal_strlit(".");
        }
        rel.append(dot);
        rel.append(ext);
        proof {
            let suffix = seq!['.'] + ext@;
            assert(rel@ =~= stem_of(name@) + suffix);
            assert forall|k: int| 0 <= k < suffix.len() implies suffix[k] != '/' by {
                if k > 0 {
                    assert(suffix[k] == ext@[k - 1]);
                }
            }
            assert(suffix.last() == ext@.last());
            lemma_suffix_keeps_inside(name@, suffix);
            assert(stem_of(name@) + seq!['.'] + ext@ =~= rel@);
        }
        let path = join_path(self.working_dir.as_str(), rel.as_str());
        proof {
            lemma_joined_inside(self@, rel@);
        }
        path
    }

    /// The path of `filename` (optionally "project/name", ".scad" dropped)
    /// with the plain extension `ext` in the working directory; a name that
    /// is absolute or has a ".." segment is refused, so that every file
    /// stays inside the working directory.
    fn resolve_path(&self, filename: &str, ext: &str) -> (path: Result<String, String>)
        requires
            plain_extension(ext@),
        ensures
            path is Err <==> !acceptable_name(filename@),
            match path {
                Ok(p) => p@ == file_path(self@, filename@, ext@) && inside(self@, p@),
                Err(e) => e@ == refused_name_message(filename@),
            },
    {
        if !is_acceptable_name(filename) {
            return Err(refusal(filename));
        }
        Ok(self.join_file(filename, ext))
    }

    /// The design file of `filename`.
    pub fn scad_path(&self, filename: &str) -> (path: Result<String, String>)
        ensures
            path is Err <==> !acceptable_name(filename@),
            match path {
                Ok(p) => p@ == file_path(self@, filename@, "scad"@) && inside(self@, p@),
                Err(e) => e@ == refused_name_message(filename@),
            },
    {
        proof {
            reveal_strlit("scad");
        }
        self.resolve_path(filename, "scad")
    }

    /// The STL file that an export under `output_name` writes.
    pub fn stl_path(&self, output_name: &str) -> (path: Result<String, String>)
        ensures
            path is Err <==> !acceptable_name(output_name@),
            match path {
                Ok(p) => p@ == file_path(self@, output_name@, "stl"@) && inside(self@, p@),
                Err(e) => e@ == refused_name_message(output_name@),
            },
    {
        proof {
            reveal_strlit("stl");
        }
        self.resolve_path(output_name, "stl")
    }

    /// The path of the file `stem_of(filename) + suffix` with extension `ext`.
    fn derived_file(&self, filename: &str, suffix: &str, ext: &str) -> (path: String)
        requires
            acceptable_name(filename@),
            suffix@.len() > 0,
            forall|k: int| 0 <= k < suffix@.len() ==> suffix@[k] != '/',
            suffix@.last() != '.',
            plain_extension(ext@),
        ensures
            path@ == file_path(self@, stem_of(filename@) + suffix@, ext@),
            inside(self@, path@),
    {
        let stem = Self::normalize_filename(filename);
        let mut name = String::from_str(stem);
        name.append(suffix);
        proof {
            lemma_suffix_keeps_inside(filename@, suffix@);
        }
        self.join_file(name.as_str(), ext)
    }

    /// The file that holds the design metadata of `filename`:
    /// "<stem>.meta" with the extension "json".
    pub fn metadata_path(&self, filename: &str) -> (path: Result<String, String>)
        ensures
            path is Err <==> !acceptable_name(filename@),
            match path {
                Ok(p) => p@ == file_path(self@, stem_of(filename@) + ".meta"@, "json"@) && inside(
                    self@,
                    p@,
                ),
                Err(e) => e@ == refused_name_message(filename@),
            },
    {
        if !is_acceptable_name(filename) {
            return Err(refusal(filename));
        }
        proof {
            reveal_strlit(".meta");
            reveal_strlit("json");
        }
        Ok(self.derived_file(filename, ".meta", "json"))
    }

    /// The single preview image of `filename`: "<stem>_preview.png".
    pub fn preview_path(&self, filename: &str) -> (path: Result<String, String>)
        ensures
            path is Err <==> !acceptable_name(filename@),
            match path {
                Ok(p) => p@ == file_path(self@, stem_of(filename@) + "_preview"@, "png"@) && inside(
                    self@,
                    p@,
                ),
                Err(e) => e@ == refused_name_message(filename@),
            },
    {
        if !is_acceptable_name(filename) {
            return Err(refusal(filename));
        }
        proof {
            reveal_strlit("_preview");
            reveal_strlit("png");
        }
        Ok(self.derived_file(filename, "_preview", "png"))
    }

    fn preview_job(&self, filename: &str, camera: &str, label: &str) -> (job: PreviewJob)
        requires
            acceptable_name(filename@),
            label@.len() > 0,
            forall|k: int| 0 <= k < label@.len() ==> label@[k] != '/',
            label@.last() != '.',
        ensures
            job.camera@ == camera@,
            job.label@ == label@,
            job.png_path@ == file_path(self@, preview_name(stem_of(filename@), label@), "png"@),
            inside(self@, job.png_path@),
    {
        let mut suffix = String::from_str("_preview_");
        suffix.append(label);
        proof {
            reveal_strlit("_preview_");
            reveal_strlit("png");
            assert forall|k: int| 0 <= k < suffix@.len() implies suffix@[k] != '/' by {
                if k >= 9 {
                    assert(suffix@[k] == label@[k - 9]);
                }
            }
            assert(suffix@.last() == label@.last());
            assert(stem_of(filename@) + suffix@ =~= preview_name(stem_of(filename@), label@));
        }
        let png_path = self.derived_file(filename, suffix.as_str(), "png");
        PreviewJob { camera: String::from_str(camera), label: String::from_str(label), png_path }
    }

    /// The preview renders of `filename`, one per camera angle, in order.
    pub fn preview_jobs(&self, filename: &str) -> (jobs: Result<Vec<PreviewJob>, String>)
        ensures
            jobs is Err <==> !acceptable_name(filename@),
            match jobs {
                Ok(jobs) => {
                    &&& jobs.len() == camera_angles().len()
                    &&& forall|i: int|
                        0 <= i < jobs.len() ==> {
                            &&& (#[trigger] jobs[i]).camera@ == camera_angles()[i].0
                            &&& jobs[i].label@ == camera_angles()[i].1
                            &&& jobs[i].png_path@ == file_path(
                                self@,
                                preview_name(stem_of(filename@), camera_angles()[i].1),
                                "png"@,
                            )
                            &&& inside(self@, jobs[i].png_path@)
                        }
                },
                Err(e) => e@ == refused_name_message(filename@),
            },
    {
        if !is_acceptable_name(filename) {
            return Err(refusal(filename));
        }
        proof {
            lemma_labels();
            reveal_strlit("iso");
            reveal_strlit("front");
            reveal_strlit("top");
            reveal_strlit("right");
            reveal_strlit("back");
            reveal_strlit("top_right");
            reveal_strlit("top_left");
        }
        let mut jobs: Vec<PreviewJob> = Vec::new();
        jobs.push(self.preview_job(filename, "0,0,0,55,0,25,1", "iso"));
        jobs.push(self.preview_job(filename, "0,0,0,90,0,0,1", "front"));
        jobs.push(self.preview_job(filename, "0,0,0,0,0,0,1", "top"));
        jobs.push(self.preview_job(filename, "0,0,0,55,0,90,1", "right"));
        jobs.push(self.preview_job(filename, "0,0,0,55,0,180,1", "back"));
        jobs.push(self.preview_job(filename, "0,0,0,30,0,315,1", "top_right"));
        jobs.push(self.preview_job(filename, "0,0,0,30,0,135,1", "top_left"));
        Ok(jobs)
    }
}

/// The message with which a name that could leave the working directory is
/// refused.
pub open spec fn refused_name_message(name: Seq<char>) -> Seq<char> {
    "Invalid file name: "@ + name + " (use a relative name without '..')"@
}

fn refusal(name: &str) -> (message: String)
    ensures
        message@ == refused_name_message(name@),
{
    let mut message = String::from_str("Invalid file name: ");
    message.append(name);
    message.append(" (use a relative name without '..')");
    message
}

} // verus!
