use concourse_s3_no_check_resource::dispatch::{Action, Event, TransferOutcome};
use concourse_s3_no_check_resource::model::{ConfigError, Enumerated};
use concourse_s3_no_check_resource::paths::{collapse_slashes, download_target};
use concourse_s3_no_check_resource::enumerate::{enumerate_downloads, work_items};
use concourse_s3_no_check_resource::resource::{list_request, region_of, S3WriteOnly, Source, Version};

#[test]
fn check_one() {
    let source = Source {
        ..Default::default()
    };

    let out = S3WriteOnly::resource_in(
        Some(source),
        Version {
            path: "/prefix/path/thing".into(),
        },
        None,
        "",
        &Vec::new(),
    )
    .unwrap();

    assert_eq!(&out.output.version.path, "/prefix/path/thing");
    assert!(out.output.metadata.is_some());
    assert_eq!(&out.output.metadata.unwrap().path, "/prefix/path/thing");
}

#[test]
fn in_places_object_by_file_name() {
    let source = Source {
        bucket: String::from("bucket"),
        ..Default::default()
    };
    let listed = vec![String::from("test/file.txt")];
    let plan = S3WriteOnly::resource_in(
        Some(source),
        Version {
            path: String::from("test/file.txt"),
        },
        None,
        "/tmp/out",
        &listed,
    )
    .unwrap();
    let items = work_items(&plan.entries);
    assert_eq!(items.len(), 1);
    assert_eq!(items[0].source, "test/file.txt");
    assert_eq!(items[0].target, "/tmp/out/file.txt");
    assert_eq!(plan.bucket, "bucket");
    assert_eq!(plan.region, "us-east-1");
    assert_eq!(plan.output.metadata.unwrap().path, "test/file.txt");
    assert_eq!(plan.output.version.path, "test/file.txt");
}

#[test]
fn in_with_empty_listing_has_nothing_to_fetch() {
    let plan = S3WriteOnly::resource_in(
        Some(Source::default()),
        Version {
            path: String::from("nothing/here"),
        },
        None,
        "/tmp/out",
        &Vec::new(),
    )
    .unwrap();
    assert_eq!(plan.entries.len(), 0);
    assert_eq!(work_items(&plan.entries).len(), 0);
    assert_eq!(plan.output.version.path, "nothing/here");
}

#[test]
fn in_without_source_is_a_configuration_error() {
    let r = S3WriteOnly::resource_in(
        None,
        Version {
            path: String::from("p"),
        },
        None,
        "/tmp/out",
        &Vec::new(),
    );
    assert_eq!(r.err(), Some(ConfigError::MissingSource));
    let l = list_request(
        &None,
        &Version {
            path: String::from("p"),
        },
    );
    assert_eq!(l.err(), Some(ConfigError::MissingSource));
}

#[test]
fn list_request_takes_prefix_from_version() {
    let source = Source {
        bucket: String::from("b"),
        region_name: Some(String::from("eu-west-2")),
        ..Default::default()
    };
    let l = list_request(
        &Some(source.clone()),
        &Version {
            path: String::from("some/prefix"),
        },
    )
    .unwrap();
    assert_eq!(l.bucket, "b");
    assert_eq!(l.region, "eu-west-2");
    assert_eq!(l.prefix, "some/prefix");
    assert_eq!(region_of(&source), "eu-west-2");
    assert_eq!(region_of(&Source::default()), "us-east-1");
}

#[test]
fn download_target_discards_remote_hierarchy() {
    assert_eq!(
        download_target("out", "a/b/c/d.bin"),
        Some(String::from("out/d.bin"))
    );
    assert_eq!(
        download_target("/out/", "a/d.bin"),
        Some(String::from("/out/d.bin"))
    );
    assert_eq!(download_target("", "thing"), Some(String::from("thing")));
    assert_eq!(
        download_target("/out//deep", "x/y.txt"),
        Some(String::from("/out/deep/y.txt"))
    );
}

#[test]
fn download_target_of_key_without_file_name() {
    assert_eq!(download_target("out", ""), None);
    assert_eq!(download_target("out", "a/.."), None);
}

#[test]
fn enumerate_downloads_keeps_order_and_marks_unnamed() {
    let keys = vec![
        String::from("p/one.txt"),
        String::from(""),
        String::from("p/q/two.txt"),
    ];
    let plan = enumerate_downloads(&keys, "dir");
    assert_eq!(plan.len(), 3);
    assert!(matches!(&plan[0], Enumerated::Transfer(w) if w.source == "p/one.txt" && w.target == "dir/one.txt"));
    assert!(matches!(&plan[1], Enumerated::Unnamed(k) if k.is_empty()));
    assert!(matches!(&plan[2], Enumerated::Transfer(w) if w.source == "p/q/two.txt" && w.target == "dir/two.txt"));
    let items = work_items(&plan);
    assert_eq!(items.len(), 2);
    assert_eq!(items[0].target, "dir/one.txt");
    assert_eq!(items[1].target, "dir/two.txt");
}

#[test]
fn collapse_slashes_is_leftmost_and_single_pass() {
    assert_eq!(collapse_slashes("a//b"), "a/b");
    assert_eq!(collapse_slashes("a///b"), "a//b");
    assert_eq!(collapse_slashes("a////b"), "a//b");
    assert_eq!(collapse_slashes("//"), "/");
    assert_eq!(collapse_slashes("a/b"), "a/b");
    assert_eq!(collapse_slashes(""), "");
}

#[test]
fn in_with_empty_listing_concludes_without_a_task() {
    let plan = S3WriteOnly::resource_in(
        Some(Source::default()),
        Version {
            path: String::from("nothing/here"),
        },
        None,
        "/tmp/out",
        &Vec::new(),
    )
    .unwrap();
    let batch = plan.dispatcher();
    assert_eq!(batch.total(), 0);
    assert_eq!(batch.action(), Action::Finish);
    let output = plan.conclude(&batch).unwrap();
    assert_eq!(output.version.path, "nothing/here");
    assert_eq!(output.metadata.unwrap().path, "nothing/here");
}

#[test]
fn in_concludes_after_failed_downloads() {
    let listed = vec![String::from("p/a.bin"), String::from("p/b.bin")];
    let plan = S3WriteOnly::resource_in(
        Some(Source::default()),
        Version {
            path: String::from("p"),
        },
        None,
        "out",
        &listed,
    )
    .unwrap();
    let mut batch = plan.dispatcher();
    batch.step(Event::Spawned);
    batch.step(Event::Spawned);
    batch.step(Event::Joined(TransferOutcome::JoinFailed));
    assert_eq!(batch.step(Event::Joined(TransferOutcome::TransferFailed)), Action::Finish);
    assert_eq!(plan.conclude(&batch).unwrap().version.path, "p");
}
