//! The upload receiver: the per-request state threaded through the parts
//! of one multipart request, the decision taken on each arriving part, and
//! the final response.
//!
//! The surrounding I/O layer reads one part after the other and, for each,
//! hands the part's declared field name and file name to `plan_part`. The
//! returned plan says what to do: read the part's text as the new target
//! path, write the part's bytes to the computed file path (creating the
//! target directory, missing levels included), or fail the request because
//! a file part declared no file name. Parts arrive in order, and a file
//! part that arrives before the control field is written under the empty
//! target path prefix.

use vstd::prelude::*;
use vstd::string::StringExecFns;
use crate::response::ApiError;
use crate::text::{dec_rep, join_comma, join_path, joined, str_eq, string_views, u64_to_string};

verus! {

/// What to do with one arriving multipart part.
pub enum PartPlan {
    /// The part is the control field named `path`: its text becomes the
    /// target directory for the file parts that follow it.
    ReadTarget,
    /// The part is a file part: make sure `dir` exists, then write the
    /// part's bytes to `file_path`, overwriting any file already there.
    SaveFile { dir: String, file_path: String, file_name: String },
    /// The part is neither the control field nor declares a file name:
    /// the request is bad.
    MissingFileName,
}

/// Whether a part's declared field name marks it as the control field
/// carrying the target path.
pub open spec fn is_path_field(field_name: Option<&str>) -> bool {
    match field_name {
        Some(n) => n@ == "path"@,
        None => false,
    }
}

/// The summary a successful upload answers with: the count of written
/// files and their names, comma-joined.
pub open spec fn summary_seq(names: Seq<Seq<char>>) -> Seq<char> {
    "Uploaded "@ + dec_rep(names.len()) + " file(s): "@ + joined(names, ", "@)
}

/// The accumulator of one upload request: the active target directory and
/// the names of the files written so far. Each request owns its own value;
/// nothing is shared across requests.
pub struct UploadState {
    pub folder_path: String,
    pub uploaded: Vec<String>,
}

impl UploadState {
    /// The names of the files written so far, in order of arrival.
    pub open spec fn names(&self) -> Seq<Seq<char>> {
        string_views(self.uploaded@)
    }

    /// The state at the start of a request: empty target path, no files
    /// written.
    pub fn new() -> (s: Self)
        ensures
            s.folder_path@ == Seq::<char>::empty(),
            s.names() =~= Seq::<Seq<char>>::empty(),
    {
        UploadState { folder_path: String::new(), uploaded: Vec::new() }
    }

    /// Decides what to do with a part from its declared field name and
    /// file name. A part named `path` is the control field, whatever its
    /// file name; any other part must declare a file name and is written
    /// to the current target directory.
    pub fn plan_part(&self, field_name: Option<&str>, file_name: Option<&str>) -> (p: PartPlan)
        ensures
            is_path_field(field_name) ==> p is ReadTarget,
            !is_path_field(field_name) ==> match file_name {
                Some(f) => (p matches PartPlan::SaveFile { dir, file_path, file_name: out_name }
                    && dir@ == self.folder_path@ && out_name@ == f@ && file_path@
                    == self.folder_path@ + "/"@ + f@),
                None => p is MissingFileName,
            },
    {
        let is_path = match field_name {
            Some(n) => str_eq(n, "path"),
            None => false,
        };
        if is_path {
            PartPlan::ReadTarget
        } else {
            match file_name {
                Some(f) => {
                    let file_path = join_path(self.folder_path.as_str(), f);
                    PartPlan::SaveFile {
                        dir: self.folder_path.clone(),
                        file_path,
                        file_name: f.to_owned(),
                    }
                },
                None => PartPlan::MissingFileName,
            }
        }
    }

    /// Makes `text`, the control field's value, the target directory for
    /// the file parts still to come. The files written so far keep their
    /// names.
    pub fn set_target(&mut self, text: String)
        ensures
            final(self).folder_path@ == text@,
            final(self).names() == old(self).names(),
    {
        self.folder_path = text;
    }

    /// Records that a file part was written under `file_name`.
    pub fn record_saved(&mut self, file_name: String)
        ensures
            final(self).names() == old(self).names().push(file_name@),
            final(self).folder_path@ == old(self).folder_path@,
    {
        let ghost pre = self.uploaded@;
        self.uploaded.push(file_name);
        proof {
            assert(string_views(pre.push(file_name)) =~= string_views(pre).push(file_name@));
        }
    }

    /// The response once every part was consumed: a bad request when no
    /// file was written, else the summary naming every written file.
    pub fn finish(&self) -> (r: Result<String, ApiError>)
        ensures
            r is Ok <==> self.names().len() > 0,
            r is Err ==> r->Err_0 == ApiError::BadRequest,
            r is Ok ==> r->Ok_0@ == summary_seq(self.names()),
    {
        if self.uploaded.len() == 0 {
            Err(ApiError::BadRequest)
        } else {
            let count = u64_to_string(self.uploaded.len() as u64);
            let listed = join_comma(&self.uploaded);
            let mut s = "Uploaded ".to_owned();
            s.append(count.as_str());
            s.append(" file(s): ");
            s.append(listed.as_str());
            Ok(s)
        }
    }
}

} // verus!
