use std::path::{Path, PathBuf};

use data_analysis_with_rust_book::{join_path, Args, Context, DataStore, DatasetConfig};

fn args(root: Option<&str>) -> Args {
    Args {
        project_root: root.map(|r| r.to_string()),
        data_relative_path: "data".to_string(),
        raw_data_folder_name: "raw".to_string(),
        delete_table: false,
        delete_bucket: true,
        load_store: DataStore::Postgres,
    }
}

fn std_join(base: &str, tail: &str) -> String {
    PathBuf::from(base).join(tail).to_str().unwrap().to_string()
}

#[test]
fn join_path_appends_with_one_separator() {
    assert_eq!(join_path("/work", "data"), "/work/data");
    assert_eq!(join_path("/work/", "data"), "/work/data");
    assert_eq!(join_path("", "data"), "data");
}

#[test]
fn join_path_absolute_tail_replaces_base() {
    assert_eq!(join_path("/work", "/etc/passwd"), "/etc/passwd");
}

#[test]
fn join_path_matches_pathbuf_join() {
    let cases = [
        ("/work", "data"),
        ("/work/", "data"),
        ("", "data"),
        ("/work", "/abs"),
        ("a", ""),
        ("a/b", "c/d"),
        ("/", "x"),
    ];
    for (base, tail) in cases {
        assert_eq!(join_path(base, tail), std_join(base, tail), "{base} + {tail}");
    }
}

#[test]
fn data_path_defaults_to_current_dir() {
    let a = args(None);
    assert_eq!(a.get_project_root("/cwd"), "/cwd");
    assert_eq!(a.get_data_path("/cwd"), "/cwd/data");
    assert_eq!(a.get_raw_data_path("/cwd"), "/cwd/data/raw");
}

#[test]
fn data_path_uses_project_root() {
    let a = args(Some("/project"));
    assert_eq!(a.get_project_root("/cwd"), "/project");
    assert_eq!(a.get_data_path("/cwd"), "/project/data");
    assert_eq!(a.get_raw_data_path("/cwd"), "/project/data/raw");
}

#[test]
fn args_display_matches_debug_formatting() {
    let a = args(Some("/project"));
    let root = Some(PathBuf::from("/project"))
        .as_ref()
        .map_or("None".to_string(), |p| format!("{:?}", p));
    let expected = format!(
        "{:?}, {:?}, {:?}, {}, {}",
        root,
        Path::new("data"),
        Path::new("raw"),
        false,
        true
    );
    assert_eq!(a.to_display_string(), expected);
    assert_eq!(a.to_display_string(), "\"\\\"/project\\\"\", \"data\", \"raw\", false, true");
}

#[test]
fn args_display_without_root() {
    let a = args(None);
    assert_eq!(a.to_display_string(), "\"None\", \"data\", \"raw\", false, true");
}

#[test]
fn dataset_config_default_key() {
    let c = DatasetConfig::default();
    assert_eq!(c.expanded_dir_name, "large");
    assert_eq!(c.filename, "census.parquet");
    assert_eq!(c.expanded_s3_key(), "large/census.parquet");
    let custom = DatasetConfig { expanded_dir_name: "big".to_string(), filename: "x.parquet".to_string() };
    assert_eq!(custom.expanded_s3_key(), "big/x.parquet");
}

#[test]
fn context_builder_sets_fields() {
    let a = args(None);
    let b = Context::<u8, u16, u32>::builder(&a, DatasetConfig::default(), "/cwd");
    assert_eq!(b.cache_dir.as_deref(), Some("/cwd/data"));
    let ctx = b
        .with_db_pool(7)
        .with_s3_client(9)
        .with_table_name("t".to_string())
        .with_bucket_name("b".to_string())
        .with_cache_dir("/cache".to_string())
        ._with_raw_frame(1)
        .build()
        .unwrap();
    assert_eq!(ctx.db_pool, Some(7));
    assert_eq!(ctx.s3_client, Some(9));
    assert_eq!(ctx.table_name.as_deref(), Some("t"));
    assert_eq!(ctx.bucket_name.as_deref(), Some("b"));
    assert_eq!(ctx.cache_dir, "/cache");
    assert_eq!(ctx.raw_frame, Some(1));
    assert_eq!(ctx.expanded_frame, None);
    assert_eq!(ctx.raw_dir(), "/cache/raw");
    assert_eq!(ctx.large_dir(), "/cache/large");
    assert_eq!(ctx.bucket(), "b");
}

#[test]
fn context_build_without_cache_dir_fails() {
    let a = args(None);
    let mut b = Context::<u8, u16, u32>::builder(&a, DatasetConfig::default(), "/cwd");
    b.cache_dir = None;
    match b.build() {
        Ok(_) => panic!("a context without cache directory was built"),
        Err(m) => assert_eq!(m, "Cache directory must be provided "),
    }
}

#[test]
fn context_from_args_uses_data_path() {
    let a = args(Some("/p"));
    let ctx = Context::<u8, u8, u8>::_from_args(&a, DatasetConfig::default(), "/cwd").unwrap();
    assert_eq!(ctx.cache_dir, "/p/data");
    assert_eq!(ctx.bucket(), "census");
    assert!(ctx.db_pool.is_none());
}

#[test]
fn args_debug_text_matches_derived_layout() {
    assert_eq!(
        args(Some("/p")).debug_text(),
        "Args { project_root: Some(\"/p\"), data_relative_path: \"data\", raw_data_folder_name: \"raw\", delete_table: false, delete_bucket: true, load_store: Postgres }"
    );
    assert!(args(None).debug_text().starts_with("Args { project_root: None, "));
}

#[test]
fn context_summary_shows_schemas_not_contents() {
    let a = args(None);
    let ctx = Context::<u8, u16, u32>::builder(&a, DatasetConfig::default(), "/cwd")
        ._with_raw_frame(3)
        .build()
        .unwrap();
    let text = ctx.summary_text("Schema { id: Int64 }", "ignored", "None");
    assert_eq!(
        text,
        format!(
            "Args: {}, Raw Frame: LazyFrame schema: Schema {{ id: Int64 }}, Expanded Frame: None, DB Pool: None, Cache Dir: /cwd/data",
            a.debug_text()
        )
    );
}

#[test]
fn builder_keeps_the_last_value_set() {
    let a = args(None);
    let ctx = Context::<u8, u16, u32>::builder(&a, DatasetConfig::default(), "/cwd")
        .with_table_name("first".to_string())
        .with_db_pool(1)
        .with_table_name("second".to_string())
        .with_cache_dir("/c1".to_string())
        .with_db_pool(2)
        .with_cache_dir("/c2".to_string())
        .build()
        .unwrap();
    assert_eq!(ctx.table_name.as_deref(), Some("second"));
    assert_eq!(ctx.db_pool, Some(2));
    assert_eq!(ctx.cache_dir, "/c2");
    assert_eq!(ctx.bucket_name, None);
}
