use concourse_s3_no_check_resource::enumerate::classify;
use concourse_s3_no_check_resource::model::{Enumerated, GlobEntry};
use concourse_s3_no_check_resource::resource::{OutParams, S3WriteOnly, Source, Version};

#[test]
fn check_no_previous() {
    // Running for the first time: there is no previous version.
    let source = Source {
        ..Default::default()
    };

    let version = S3WriteOnly::resource_check(Some(source), None);

    assert_eq!(version.len(), 0);
}

#[test]
fn check_with_new_and_no_previous() {
    // A version was passed, which would have come from the last get.
    let source = Source {
        ..Default::default()
    };

    let version = S3WriteOnly::resource_check(
        Some(source),
        Some(Version {
            path: String::from("test/file.txt"),
        }),
    );

    assert_eq!(version.len(), 1);
    assert_eq!(version[0].path, "test/file.txt");
}

#[test]
fn check_without_source() {
    let version = S3WriteOnly::resource_check(
        None,
        Some(Version {
            path: String::from("a/b"),
        }),
    );
    assert_eq!(version.len(), 1);
    assert_eq!(version[0].path, "a/b");
    assert_eq!(S3WriteOnly::resource_check(None, None).len(), 0);
}

fn is_excluded(op: &OutParams, path: &str) -> bool {
    let entry = GlobEntry::Found(String::from(path));
    matches!(
        classify(&entry, &op.except_regex, &op.s3_prefix),
        Ok(Enumerated::Excluded(_))
    )
}

#[test]
fn test_serialisation() {
    let s =
        r#"{ "glob": "output/**/*.txt", "except_regex": "test.txt", "s3_prefix": "/test/thing" }"#;
    let value: serde_json::Value = serde_json::from_str(s).unwrap();
    let defaults = OutParams::default();
    let op = OutParams {
        glob: value
            .get("glob")
            .and_then(|v| v.as_str())
            .map(String::from)
            .unwrap_or(defaults.glob),
        except_regex: value
            .get("except_regex")
            .and_then(|v| v.as_str())
            .map(String::from),
        s3_prefix: value
            .get("s3_prefix")
            .and_then(|v| v.as_str())
            .map(String::from)
            .unwrap_or(defaults.s3_prefix),
    };
    assert_eq!(&op.glob, "output/**/*.txt");
    assert!(op.except_regex.is_some());
    assert_eq!(op.except_regex.clone().unwrap().as_str(), "test.txt");
    assert!(is_excluded(&op, "/output/testdir1/test.txt"));
    assert!(!is_excluded(&op, "/output/testdir1/test1.txt"));
}

#[test]
fn out_params_default_is_empty() {
    let op = OutParams::default();
    assert_eq!(op.glob, "");
    assert!(op.except_regex.is_none());
    assert_eq!(op.s3_prefix, "");
}
