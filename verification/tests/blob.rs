use data_analysis_with_rust_book::data::blob::{
    contains_name, BucketDeletion, DeletionAction, DeletionEvent, UploadAction, UploadEvent, UPLOAD_CHUNK_SIZE,
};
use data_analysis_with_rust_book::MultipartUpload;

#[test]
fn bucket_membership() {
    let names = vec!["logs".to_string(), "census".to_string()];
    assert!(contains_name(&names, &"census".to_string()));
    assert!(!contains_name(&names, &"cens".to_string()));
    assert!(!contains_name(&vec![], &"census".to_string()));
}

/// Drives an upload of a file of `size` bytes whose reads return at most `read_size`
/// bytes; returns the uploaded part sizes and the part numbers completed.
fn simulate(size: usize, read_size: usize) -> (Vec<usize>, Vec<i32>) {
    let mut up = MultipartUpload::new("/data/large/census.parquet", "large/census.parquet");
    let mut remaining = size;
    let mut uploaded = Vec::new();
    let mut event = UploadEvent::Begin;
    loop {
        assert!(up.accepts(&event));
        match up.step(event) {
            UploadAction::CreateUpload(key) => {
                assert_eq!(key, "large/census.parquet");
                event = UploadEvent::UploadId(Some("upload-1".into()));
            }
            UploadAction::OpenFile(path) => {
                assert_eq!(path, "/data/large/census.parquet");
                event = UploadEvent::Done;
            }
            UploadAction::Read { offset, max_len } => {
                assert!(offset + max_len == UPLOAD_CHUNK_SIZE);
                let n = remaining.min(max_len).min(read_size);
                remaining -= n;
                event = UploadEvent::Read(n);
            }
            UploadAction::UploadPart { part_number, len } => {
                assert_eq!(part_number as usize, uploaded.len() + 1);
                uploaded.push(len);
                event = UploadEvent::ETag(Some(format!("etag-{part_number}")));
            }
            UploadAction::Complete { upload_id, parts } => {
                assert_eq!(upload_id, "upload-1");
                let numbers: Vec<i32> = parts.iter().map(|p| p.part_number).collect();
                for (i, p) in parts.iter().enumerate() {
                    assert_eq!(p.e_tag, format!("etag-{}", i + 1));
                }
                event = UploadEvent::Done;
                assert!(matches!(up.step(event), UploadAction::Finished));
                assert!(up.is_over());
                return (uploaded, numbers);
            }
            UploadAction::Finished | UploadAction::Fail(_) => panic!("unexpected end"),
        }
    }
}

#[test]
fn upload_cuts_full_parts_then_remainder() {
    let size = 2 * UPLOAD_CHUNK_SIZE + 123;
    let (parts, numbers) = simulate(size, 1 << 20);
    assert_eq!(parts, vec![UPLOAD_CHUNK_SIZE, UPLOAD_CHUNK_SIZE, 123]);
    assert_eq!(numbers, vec![1, 2, 3]);
    assert_eq!(parts.iter().sum::<usize>(), size);
}

#[test]
fn upload_of_exact_multiple_has_no_empty_part() {
    let (parts, numbers) = simulate(UPLOAD_CHUNK_SIZE, 3_000_000);
    assert_eq!(parts, vec![UPLOAD_CHUNK_SIZE]);
    assert_eq!(numbers, vec![1]);
}

#[test]
fn upload_of_empty_file_completes_without_parts() {
    let (parts, numbers) = simulate(0, 10);
    assert!(parts.is_empty());
    assert!(numbers.is_empty());
}

#[test]
fn upload_without_id_fails() {
    let mut up = MultipartUpload::new("f", "k");
    assert!(matches!(up.step(UploadEvent::Begin), UploadAction::CreateUpload(_)));
    match up.step(UploadEvent::UploadId(None)) {
        UploadAction::Fail(Some(m)) => assert_eq!(m, "No upload ID returned."),
        _ => panic!("expected a failure"),
    }
    assert!(up.is_over());
    assert!(!up.accepts(&UploadEvent::Done));
}

#[test]
fn upload_without_etag_fails() {
    let mut up = MultipartUpload::new("f", "k");
    up.step(UploadEvent::Begin);
    up.step(UploadEvent::UploadId(Some("id".into())));
    up.step(UploadEvent::Done);
    assert!(matches!(up.step(UploadEvent::Read(10)), UploadAction::Read { offset: 10, .. }));
    assert!(matches!(up.step(UploadEvent::Read(0)), UploadAction::UploadPart { part_number: 1, len: 10 }));
    match up.step(UploadEvent::ETag(None)) {
        UploadAction::Fail(Some(m)) => assert_eq!(m, "No ETag in upload response."),
        _ => panic!("expected a failure"),
    }
}

#[test]
fn upload_io_error_propagates() {
    let mut up = MultipartUpload::new("f", "k");
    up.step(UploadEvent::Begin);
    up.step(UploadEvent::UploadId(Some("id".into())));
    assert!(matches!(up.step(UploadEvent::Failed), UploadAction::Fail(None)));
}

#[test]
fn upload_refuses_overlong_read() {
    let mut up = MultipartUpload::new("f", "k");
    up.step(UploadEvent::Begin);
    up.step(UploadEvent::UploadId(Some("id".into())));
    up.step(UploadEvent::Done);
    assert!(!up.accepts(&UploadEvent::Read(UPLOAD_CHUNK_SIZE + 1)));
    assert!(up.accepts(&UploadEvent::Read(UPLOAD_CHUNK_SIZE)));
}

#[test]
fn bucket_deletion_deletes_listed_keys_then_bucket() {
    let mut plan = BucketDeletion::new("census");
    let mut requests = Vec::new();
    let mut event = DeletionEvent::Begin;
    loop {
        assert!(plan.accepts(&event));
        match plan.step(event) {
            DeletionAction::ListObjects(b, token) => {
                requests.push(format!("list {b} from {token:?}"));
                event = match token.as_deref() {
                    None => DeletionEvent::Listed(vec![Some("a".to_string()), None], Some("page-2".to_string())),
                    Some("page-2") => DeletionEvent::Listed(vec![Some("large/census.parquet".to_string())], None),
                    Some(other) => panic!("unexpected token {other}"),
                };
            }
            DeletionAction::DeleteObject(b, k) => {
                requests.push(format!("delete {b}/{k}"));
                event = DeletionEvent::Done;
            }
            DeletionAction::DeleteBucket(b) => {
                requests.push(format!("delete bucket {b}"));
                event = DeletionEvent::Done;
            }
            DeletionAction::Finished => break,
            DeletionAction::Fail => panic!("a deletion in which every step succeeds failed"),
        }
    }
    assert!(plan.is_over());
    assert_eq!(
        requests,
        vec![
            "list census from None",
            "list census from Some(\"page-2\")",
            "delete census/a",
            "delete census/large/census.parquet",
            "delete bucket census",
        ]
    );
}

#[test]
fn bucket_deletion_of_empty_bucket_and_failure() {
    let mut plan = BucketDeletion::new("b");
    assert!(matches!(plan.step(DeletionEvent::Begin), DeletionAction::ListObjects(_, None)));
    assert!(matches!(plan.step(DeletionEvent::Listed(vec![], None)), DeletionAction::DeleteBucket(_)));
    assert!(matches!(plan.step(DeletionEvent::Done), DeletionAction::Finished));

    let mut plan = BucketDeletion::new("b");
    plan.step(DeletionEvent::Begin);
    assert!(matches!(
        plan.step(DeletionEvent::Listed(vec![Some("x".into()), Some("y".into())], None)),
        DeletionAction::DeleteObject(_, _)
    ));
    assert!(matches!(plan.step(DeletionEvent::Failed), DeletionAction::Fail));
    assert!(plan.is_over());
    assert!(!plan.accepts(&DeletionEvent::Done));
}
