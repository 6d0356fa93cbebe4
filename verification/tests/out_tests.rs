use concourse_s3_no_check_resource::dispatch::{Action, Dispatcher, Event, TransferOutcome};
use concourse_s3_no_check_resource::enumerate::{
    classify, count_transfers, enumerate_uploads, queue_upload, screen, work_items,
};
use concourse_s3_no_check_resource::model::{ConfigError, Enumerated, GlobEntry, IdentityField};
use concourse_s3_no_check_resource::paths::upload_key;
use concourse_s3_no_check_resource::resource::{glob_pattern, OutParams, S3WriteOnly, Source};
use concourse_s3_no_check_resource::template::{fill, resolve_prefix, BuildIdentity};
use concourse_s3_no_check_resource::text::{find, matches_at, replace, same_text};

fn identity() -> BuildIdentity {
    BuildIdentity {
        id: String::from("42"),
        name: None,
        job_name: None,
        pipeline_name: None,
        pipeline_instance_vars: None,
        team_name: String::from("t"),
    }
}

fn full_identity() -> BuildIdentity {
    BuildIdentity {
        id: String::from("42"),
        name: Some(String::from("7")),
        job_name: Some(String::from("job")),
        pipeline_name: Some(String::from("pipe")),
        pipeline_instance_vars: None,
        team_name: String::from("main"),
    }
}

#[test]
fn template_substitutes_build_id() {
    assert_eq!(
        resolve_prefix("a/{BUILD_ID}/b", &identity()),
        Ok(String::from("a/42/b"))
    );
}

#[test]
fn template_with_absent_build_name_fails() {
    assert_eq!(
        resolve_prefix("a/{BUILD_NAME}/b", &identity()),
        Err(ConfigError::MissingIdentity(IdentityField::BuildName))
    );
    assert_eq!(
        resolve_prefix("{BUILD_JOB_NAME}", &identity()),
        Err(ConfigError::MissingIdentity(IdentityField::BuildJobName))
    );
    assert_eq!(
        resolve_prefix("{BUILD_PIPELINE_NAME}", &identity()),
        Err(ConfigError::MissingIdentity(IdentityField::BuildPipelineName))
    );
    assert_eq!(
        resolve_prefix("{BUILD_PIPELINE_NAME}{BUILD_NAME}", &identity()),
        Err(ConfigError::MissingIdentity(IdentityField::BuildName))
    );
}

#[test]
fn template_substitutes_every_token_everywhere() {
    assert_eq!(
        resolve_prefix(
            "{BUILD_TEAM_NAME}/{BUILD_PIPELINE_NAME}/{BUILD_JOB_NAME}/{BUILD_NAME}/{BUILD_ID}/{BUILD_ID}",
            &full_identity()
        ),
        Ok(String::from("main/pipe/job/7/42/42"))
    );
}

#[test]
fn template_without_tokens_is_unchanged() {
    assert_eq!(
        resolve_prefix("plain/prefix", &identity()),
        Ok(String::from("plain/prefix"))
    );
    assert_eq!(resolve_prefix("", &identity()), Ok(String::new()));
    assert_eq!(
        resolve_prefix("{UNKNOWN}/{build_id}", &full_identity()),
        Ok(String::from("{UNKNOWN}/{build_id}"))
    );
}

#[test]
fn template_fills_in_fixed_order() {
    let mut id = full_identity();
    id.id = String::from("{BUILD_TEAM_NAME}");
    assert_eq!(resolve_prefix("x/{BUILD_ID}", &id), Ok(String::from("x/main")));
    let mut id = full_identity();
    id.team_name = String::from("{BUILD_ID}");
    assert_eq!(
        resolve_prefix("x/{BUILD_TEAM_NAME}", &id),
        Ok(String::from("x/{BUILD_ID}"))
    );
}

#[test]
fn fill_and_replace_formulas() {
    assert_eq!(replace("aaa", "aa", "b"), "ba");
    assert_eq!(replace("abcabc", "bc", ""), "aa");
    assert_eq!(replace("abc", "", "x"), "abc");
    assert_eq!(replace("héllo wörld", "ö", "oe"), "héllo woerld");
    assert_eq!(replace("abc", "abcd", "x"), "abc");
    assert!(find("hello", "ll"));
    assert!(find("hello", ""));
    assert!(!find("hello", "lll"));
    assert!(matches_at("hello", "lo", 3));
    assert!(!matches_at("hello", "lo", 4));
    assert!(!matches_at("hello", "lo", 9));
    assert!(same_text("a", "a"));
    assert!(!same_text("a", "b"));
    assert_eq!(
        fill(String::from("a{T}"), "{T}", &Some(String::from("1"))),
        Some(String::from("a1"))
    );
    assert_eq!(fill(String::from("a{T}"), "{T}", &None), None);
    assert_eq!(fill(String::from("a"), "{T}", &None), Some(String::from("a")));
}

#[test]
fn build_metadata_requires_id_and_team() {
    let s = |t: &str| Some(String::from(t));
    let ok = S3WriteOnly::build_metadata(s("1"), None, s("j"), None, None, s("team")).unwrap();
    assert_eq!(ok.id, "1");
    assert_eq!(ok.name, None);
    assert_eq!(ok.job_name, s("j"));
    assert_eq!(ok.pipeline_name, None);
    assert_eq!(ok.team_name, "team");
    assert_eq!(
        S3WriteOnly::build_metadata(None, None, None, None, None, s("team")).err(),
        Some(ConfigError::MissingIdentity(IdentityField::BuildId))
    );
    assert_eq!(
        S3WriteOnly::build_metadata(s("1"), None, None, None, None, None).err(),
        Some(ConfigError::MissingIdentity(IdentityField::BuildTeamName))
    );
    assert_eq!(
        S3WriteOnly::build_metadata(None, None, None, None, None, None).err(),
        Some(ConfigError::MissingIdentity(IdentityField::BuildId))
    );
}

#[test]
fn key_construction_collapses_double_slash() {
    assert_eq!(upload_key("/test/thing", "file.txt"), "/test/thing/file.txt");
    assert_eq!(upload_key("/test/thing/", "file.txt"), "/test/thing/file.txt");
    assert_eq!(upload_key("", "file.txt"), "/file.txt");
    assert_eq!(upload_key("a//b", "f"), "a/b/f");
}

#[test]
fn queue_upload_uses_file_name_only() {
    match queue_upload(String::from("output/a/x.txt"), "/test/thing") {
        Enumerated::Transfer(w) => {
            assert_eq!(w.source, "output/a/x.txt");
            assert_eq!(w.target, "/test/thing/x.txt");
        }
        other => panic!("unexpected: {:?}", other),
    }
    assert!(matches!(
        queue_upload(String::from("output/.."), "p"),
        Enumerated::Unnamed(p) if p == "output/.."
    ));
}

#[test]
fn screen_follows_the_verdict() {
    assert!(matches!(
        screen(String::from("a/b.txt"), Some(Some(true)), "p"),
        Ok(Enumerated::Excluded(p)) if p == "a/b.txt"
    ));
    assert!(matches!(
        screen(String::from("a/b.txt"), Some(Some(false)), "p"),
        Ok(Enumerated::Transfer(w)) if w.target == "p/b.txt"
    ));
    assert!(matches!(
        screen(String::from("a/b.txt"), None, "p"),
        Ok(Enumerated::Transfer(w)) if w.target == "p/b.txt"
    ));
    assert_eq!(
        screen(String::from("a/b.txt"), Some(None), "p").err(),
        Some(ConfigError::InvalidExceptRegex)
    );
}

#[test]
fn glob_with_exclusion() {
    let entries = vec![
        GlobEntry::Found(String::from("output/a/x.txt")),
        GlobEntry::Found(String::from("output/b/test.txt")),
    ];
    let plan = enumerate_uploads(&entries, &Some(String::from("test.txt")), "/test/thing").unwrap();
    assert_eq!(plan.len(), 2);
    assert!(matches!(&plan[1], Enumerated::Excluded(p) if p == "output/b/test.txt"));
    let items = work_items(&plan);
    assert_eq!(items.len(), 1);
    assert_eq!(items[0].source, "output/a/x.txt");
    assert_eq!(items[0].target, "/test/thing/x.txt");
}

#[test]
fn unreadable_entry_is_skipped_not_fatal() {
    let entries = vec![
        GlobEntry::Failed(String::from("permission denied")),
        GlobEntry::Found(String::from("in/f.bin")),
    ];
    let plan = enumerate_uploads(&entries, &None, "pre").unwrap();
    assert!(matches!(&plan[0], Enumerated::Unresolved(e) if e == "permission denied"));
    let items = work_items(&plan);
    assert_eq!(items.len(), 1);
    assert_eq!(items[0].target, "pre/f.bin");
}

#[test]
fn invalid_exclusion_pattern_is_a_configuration_error() {
    let entries = vec![GlobEntry::Found(String::from("in/f.bin"))];
    assert_eq!(
        enumerate_uploads(&entries, &Some(String::from("(")), "pre").err(),
        Some(ConfigError::InvalidExceptRegex)
    );
    assert_eq!(
        classify(&entries[0], &Some(String::from("[")), "pre").err(),
        Some(ConfigError::InvalidExceptRegex)
    );
    // An entry that could not be read is not put to the pattern.
    let failed = vec![GlobEntry::Failed(String::from("e"))];
    assert!(enumerate_uploads(&failed, &Some(String::from("(")), "pre").is_ok());
}

#[test]
fn exclusion_pattern_is_a_regular_expression() {
    let e = GlobEntry::Found(String::from("dir/report-2024.csv"));
    assert!(matches!(
        classify(&e, &Some(String::from(r"report-\d+\.csv$")), "p"),
        Ok(Enumerated::Excluded(_))
    ));
    assert!(matches!(
        classify(&e, &Some(String::from(r"^report")), "p"),
        Ok(Enumerated::Transfer(_))
    ));
}

#[test]
fn glob_pattern_is_rooted_at_input_directory() {
    assert_eq!(glob_pattern("/tmp/build", "output/**/*.txt"), "/tmp/build/output/**/*.txt");
    assert_eq!(glob_pattern("", ""), "/");
}

fn params() -> OutParams {
    OutParams {
        glob: String::from("output/**/*.txt"),
        except_regex: Some(String::from("test.txt")),
        s3_prefix: String::from("/builds/{BUILD_ID}"),
    }
}

fn source() -> Source {
    Source {
        bucket: String::from("bucket"),
        ..Default::default()
    }
}

#[test]
fn out_reports_resolved_prefix_as_version() {
    let entries = vec![
        GlobEntry::Found(String::from("output/a/x.txt")),
        GlobEntry::Found(String::from("output/b/test.txt")),
    ];
    let plan = S3WriteOnly::resource_out(Some(source()), Some(params()), &identity(), &entries).unwrap();
    assert_eq!(plan.output.version.path, "/builds/42");
    assert!(plan.output.metadata.is_none());
    assert_eq!(plan.prefix, "/builds/42");
    assert_eq!(plan.bucket, "bucket");
    assert_eq!(plan.region, "us-east-1");
    let items = work_items(&plan.entries);
    assert_eq!(items.len(), 1);
    assert_eq!(items[0].target, "/builds/42/x.txt");
}

#[test]
fn out_twice_gives_the_same_version() {
    let first = S3WriteOnly::resource_out(
        Some(source()),
        Some(params()),
        &identity(),
        &vec![GlobEntry::Found(String::from("output/a/x.txt"))],
    )
    .unwrap();
    let second = S3WriteOnly::resource_out(Some(source()), Some(params()), &identity(), &Vec::new()).unwrap();
    assert_eq!(first.output.version.path, second.output.version.path);
    assert_eq!(second.output.version.path, "/builds/42");
}

#[test]
fn out_configuration_errors_come_in_order() {
    let bad = OutParams {
        glob: String::new(),
        except_regex: Some(String::from("(")),
        s3_prefix: String::from("{BUILD_NAME}"),
    };
    let entries = vec![GlobEntry::Found(String::from("f"))];
    assert_eq!(
        S3WriteOnly::resource_out(None, None, &identity(), &entries).err(),
        Some(ConfigError::MissingSource)
    );
    assert_eq!(
        S3WriteOnly::resource_out(Some(source()), None, &identity(), &entries).err(),
        Some(ConfigError::MissingParams)
    );
    assert_eq!(
        S3WriteOnly::resource_out(Some(source()), Some(bad.clone()), &identity(), &entries).err(),
        Some(ConfigError::MissingIdentity(IdentityField::BuildName))
    );
    assert_eq!(
        S3WriteOnly::resource_out(Some(source()), Some(bad), &full_identity(), &entries).err(),
        Some(ConfigError::InvalidExceptRegex)
    );
}

#[test]
fn out_concludes_whatever_the_outcomes() {
    let entries = vec![
        GlobEntry::Found(String::from("output/a/x.txt")),
        GlobEntry::Found(String::from("output/b/test.txt")),
        GlobEntry::Found(String::from("output/c/missing.txt")),
    ];
    let plan = S3WriteOnly::resource_out(Some(source()), Some(params()), &identity(), &entries).unwrap();
    assert_eq!(count_transfers(&plan.entries), 2);
    let mut batch = plan.dispatcher();
    assert_eq!(batch.total(), 2);
    assert_eq!(batch.step(Event::Spawned), Action::Spawn(1));
    assert_eq!(batch.step(Event::Spawned), Action::Join(0));
    batch.step(Event::Joined(TransferOutcome::Succeeded));
    batch.step(Event::Joined(TransferOutcome::TransferFailed));
    assert_eq!(batch.failed(), 1);
    let output = plan.conclude(&batch).unwrap();
    assert_eq!(output.version.path, "/builds/42");
    assert!(output.metadata.is_none());
}

#[test]
fn out_does_not_conclude_before_every_handle_resolved() {
    let entries = vec![GlobEntry::Found(String::from("output/a/x.txt"))];
    let plan = S3WriteOnly::resource_out(Some(source()), Some(params()), &identity(), &entries).unwrap();
    let mut batch = plan.dispatcher();
    batch.step(Event::Spawned);
    assert!(plan.conclude(&batch).is_none());
    let plan = S3WriteOnly::resource_out(Some(source()), Some(params()), &identity(), &entries).unwrap();
    assert!(plan.conclude(&Dispatcher::new(0)).is_none());
}
