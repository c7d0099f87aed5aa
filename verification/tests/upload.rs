use file_server::models::DownloadFileRequest;
use file_server::response::{ApiError, FsError};
use file_server::transfer::download_file;
use file_server::upload::{PartPlan, UploadState};

fn save(st: &mut UploadState, field_name: Option<&str>, file_name: Option<&str>) -> String {
    match st.plan_part(field_name, file_name) {
        PartPlan::SaveFile { file_path, file_name, .. } => {
            st.record_saved(file_name);
            file_path
        }
        _ => panic!("expected a file part"),
    }
}

#[test]
fn upload_one_file_then_download_round_trips() {
    let mut st = UploadState::new();
    assert!(matches!(st.plan_part(Some("path"), None), PartPlan::ReadTarget));
    st.set_target("T".to_string());

    let file_path = save(&mut st, Some("file"), Some("a.txt"));
    assert_eq!(file_path, "T/a.txt");
    assert_eq!(st.finish().unwrap(), "Uploaded 1 file(s): a.txt");

    // What was written at T/a.txt comes back byte for byte as an attachment.
    let content = b"C".to_vec();
    let req = DownloadFileRequest { file_path };
    let resp = download_file(&req, Ok(content.clone())).unwrap();
    assert_eq!(resp.body, content);
    assert_eq!(resp.content_type, "application/octet-stream");
    assert_eq!(resp.content_disposition, "attachment; filename=\"T/a.txt\"");
}

#[test]
fn upload_without_file_parts_is_bad_request() {
    // An empty multipart body: no parts at all.
    let st = UploadState::new();
    assert!(matches!(st.finish(), Err(ApiError::BadRequest)));
    assert_eq!(ApiError::BadRequest.status_code(), 400);

    // A path-only request: the control field arrives, no file part does.
    let mut st = UploadState::new();
    assert!(matches!(st.plan_part(Some("path"), None), PartPlan::ReadTarget));
    st.set_target("uploads".to_string());
    assert!(matches!(st.finish(), Err(ApiError::BadRequest)));
}

#[test]
fn file_part_without_file_name_is_rejected() {
    let st = UploadState::new();
    assert!(matches!(st.plan_part(Some("file"), None), PartPlan::MissingFileName));
    assert!(matches!(st.plan_part(None, None), PartPlan::MissingFileName));
}

#[test]
fn file_part_before_path_field_uses_empty_prefix() {
    let mut st = UploadState::new();
    let file_path = save(&mut st, Some("file"), Some("a.txt"));
    assert_eq!(file_path, "/a.txt");
}

#[test]
fn path_field_named_by_an_unnamed_part_is_not_the_control_field() {
    // Only a part whose declared name is exactly "path" is the control
    // field; a part named otherwise is a file part even if it carries a
    // file name of "path".
    let st = UploadState::new();
    assert!(matches!(st.plan_part(Some("paths"), None), PartPlan::MissingFileName));
    match st.plan_part(Some("upload"), Some("path")) {
        PartPlan::SaveFile { file_name, .. } => assert_eq!(file_name, "path"),
        _ => panic!("expected a file part"),
    }
}

#[test]
fn upload_summary_counts_and_joins_names() {
    let mut st = UploadState::new();
    assert!(matches!(st.plan_part(Some("path"), None), PartPlan::ReadTarget));
    st.set_target("t".to_string());
    assert_eq!(save(&mut st, Some("f1"), Some("a.txt")), "t/a.txt");
    assert_eq!(save(&mut st, Some("f2"), Some("b.bin")), "t/b.bin");
    assert_eq!(st.finish().unwrap(), "Uploaded 2 file(s): a.txt, b.bin");
}

#[test]
fn later_path_field_redirects_following_files_only() {
    let mut st = UploadState::new();
    assert_eq!(save(&mut st, Some("f"), Some("first")), "/first");
    assert!(matches!(st.plan_part(Some("path"), None), PartPlan::ReadTarget));
    st.set_target("elsewhere".to_string());
    assert_eq!(save(&mut st, Some("f"), Some("second")), "elsewhere/second");
    assert_eq!(st.finish().unwrap(), "Uploaded 2 file(s): first, second");
}

#[test]
fn concurrent_uploads_to_same_target_are_independent() {
    // Two requests each own their accumulator; both write under the same
    // target and both files are independently downloadable.
    let mut one = UploadState::new();
    let mut two = UploadState::new();
    assert!(matches!(one.plan_part(Some("path"), None), PartPlan::ReadTarget));
    assert!(matches!(two.plan_part(Some("path"), None), PartPlan::ReadTarget));
    one.set_target("shared".to_string());
    two.set_target("shared".to_string());
    let p1 = save(&mut one, Some("f"), Some("x.txt"));
    let p2 = save(&mut two, Some("f"), Some("y.txt"));
    assert_eq!(p1, "shared/x.txt");
    assert_eq!(p2, "shared/y.txt");
    assert_eq!(one.finish().unwrap(), "Uploaded 1 file(s): x.txt");
    assert_eq!(two.finish().unwrap(), "Uploaded 1 file(s): y.txt");

    let d1 = download_file(&DownloadFileRequest { file_path: p1 }, Ok(b"one".to_vec())).unwrap();
    let d2 = download_file(&DownloadFileRequest { file_path: p2 }, Ok(b"two".to_vec())).unwrap();
    assert_eq!(d1.body, b"one".to_vec());
    assert_eq!(d2.body, b"two".to_vec());
}

#[test]
fn download_failures_map_to_not_found_or_internal() {
    let req = DownloadFileRequest { file_path: "missing".to_string() };
    assert!(matches!(
        download_file(&req, Err(FsError::NotFound)),
        Err(ApiError::NotFound)
    ));
    assert!(matches!(
        download_file(&req, Err(FsError::Other)),
        Err(ApiError::Internal)
    ));
    assert_eq!(ApiError::NotFound.status_code(), 404);
}
