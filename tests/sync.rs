use ftc_http::engine::{begin, build_result, plan_upload, FirstStep, SyncError};
use ftc_http::listing::{parse_listing, plan_download};
use ftc_http::monitor::{BuildMonitor, BuildVerdict, MonitorStep};
use ftc_http::options::{Action, AppConfig, Command, Ftc, Operation};
use ftc_http::paths::{is_source_file, local_to_remote, remote_to_local};
use ftc_http::protocol::{download_target, reply_body};
use ftc_http::status::{parse_status, BuildStatus};

fn bytes(s: &str) -> Vec<u8> {
    s.as_bytes().to_vec()
}

#[test]
fn source_files_are_told_by_extension() {
    assert!(is_source_file(b"/org/example/Foo.java"));
    assert!(is_source_file(b".java"));
    assert!(!is_source_file(b"/org/example/Foo.jav"));
    assert!(!is_source_file(b"/org/example/Foo.java.bak"));
    assert!(!is_source_file(b"java"));
    assert!(!is_source_file(b""));
}

#[test]
fn remote_paths_join_onto_the_local_root() {
    assert_eq!(remote_to_local(b"/org/example/Foo.java", b"out"), bytes("out/org/example/Foo.java"));
    assert_eq!(remote_to_local(b"/org/example/Foo.java", b"out/"), bytes("out/org/example/Foo.java"));
    assert_eq!(remote_to_local(b"/Foo.java", b""), bytes("Foo.java"));
    assert_eq!(remote_to_local(b"Foo.java", b"."), bytes("./Foo.java"));
}

#[test]
fn local_paths_map_back_to_device_paths() {
    assert_eq!(local_to_remote(b"src/org/A.java", b"src"), Some(bytes("/org/A.java")));
    assert_eq!(local_to_remote(b"src/org/A.java", b"src/"), Some(bytes("/org/A.java")));
    assert_eq!(local_to_remote(b"other/A.java", b"src"), None);
    assert_eq!(local_to_remote(b"srcA.java", b"src"), None);
}

#[test]
fn upload_then_download_keeps_the_layout() {
    let local = b"work/org/team/Robot.java";
    let remote = local_to_remote(local, b"work").unwrap();
    assert_eq!(remote, bytes("/org/team/Robot.java"));
    assert_eq!(remote_to_local(&remote, b"fresh"), bytes("fresh/org/team/Robot.java"));
    assert_eq!(remote_to_local(&remote, b"work"), local.to_vec());
}

#[test]
fn listing_reads_quoted_source_paths_in_order() {
    let body = b"{\"src\": [\"/org/B.java\", \"/notes.txt\", \"/org/A.java\"]}";
    assert_eq!(parse_listing(body), vec![bytes("/org/B.java"), bytes("/org/A.java")]);
}

#[test]
fn listing_ignores_an_unclosed_quote() {
    assert_eq!(parse_listing(b"\"/A.java\" \"/B.java"), vec![bytes("/A.java")]);
    assert_eq!(parse_listing(b"/A.java"), Vec::<Vec<u8>>::new());
}

#[test]
fn download_fetches_only_the_source_files() {
    let listing = b"[\"/org/One.java\",\"/org/readme.md\",\"/org/Two.java\"]";
    let plan = plan_download(listing, b"dest");
    assert_eq!(plan.len(), 2);
    assert_eq!(plan[0].remote, bytes("/org/One.java"));
    assert_eq!(plan[0].local, bytes("dest/org/One.java"));
    assert_eq!(plan[1].remote, bytes("/org/Two.java"));
    assert_eq!(plan[1].local, bytes("dest/org/Two.java"));
}

#[test]
fn listing_after_wipe_is_empty() {
    assert!(parse_listing(b"[]").is_empty());
    assert!(parse_listing(b"").is_empty());
    assert!(plan_download(b"{\"src\": []}", b"dest").is_empty());
}

#[test]
fn uploaded_files_are_what_the_listing_reports() {
    let found = vec![
        bytes("code/org/A.java"),
        bytes("code/org/notes.txt"),
        bytes("code/B.java"),
    ];
    let plan = plan_upload(&found, b"code");
    assert_eq!(plan.len(), 2);
    assert_eq!(plan[0].local, bytes("code/org/A.java"));
    assert_eq!(plan[0].remote, bytes("/org/A.java"));
    assert_eq!(plan[1].remote, bytes("/B.java"));
    let mut listing = Vec::new();
    for p in &plan {
        listing.push(b'"');
        listing.extend_from_slice(&p.remote);
        listing.extend_from_slice(b"\",");
    }
    let listed = parse_listing(&listing);
    let sent: Vec<Vec<u8>> = plan.iter().map(|p| p.remote.clone()).collect();
    assert_eq!(listed, sent);
}

#[test]
fn status_replies_are_read() {
    assert_eq!(parse_status(b"{\"completed\": false, \"successful\": false}"), Some(BuildStatus::Running));
    assert_eq!(parse_status(b"{\"completed\": true, \"successful\": true}"), Some(BuildStatus::Succeeded));
    assert_eq!(parse_status(b"{\"completed\": true, \"successful\": false}"), Some(BuildStatus::Failed));
    assert_eq!(parse_status(b"{\"completed\": false}"), Some(BuildStatus::Running));
}

#[test]
fn malformed_status_is_unparseable() {
    assert_eq!(parse_status(b"{\"completed\": maybe, \"successful\": 1}"), None);
    assert_eq!(parse_status(b"<html>busy</html>"), None);
    assert_eq!(parse_status(b"{\"completed\": true}"), None);
    assert_eq!(parse_status(b"{\"completed\": true, \"completed\": false}"), None);
    assert_eq!(parse_status(b"{\"completed\": true, \"successful\": true, \"successful\": false}"), None);
    let mut m = BuildMonitor::new(60_000, 1000);
    let step = m.on_reply(parse_status(b"{\"completed\": yes}"));
    assert_eq!(step, MonitorStep::Finish(BuildVerdict::Unparseable));
    assert_eq!(build_result(BuildVerdict::Unparseable, Vec::new()), Err(SyncError::BuildStatusUnparseable));
}

#[test]
fn monitor_succeeds_after_three_polls() {
    let replies = [BuildStatus::Running, BuildStatus::Running, BuildStatus::Succeeded];
    let mut m = BuildMonitor::new(60_000, 1000);
    let mut last = MonitorStep::Poll;
    for r in replies {
        assert_eq!(last, MonitorStep::Poll);
        last = m.on_reply(Some(r));
    }
    assert_eq!(last, MonitorStep::Finish(BuildVerdict::Succeeded));
    assert_eq!(m.polls, 3);
    assert_eq!(build_result(BuildVerdict::Succeeded, Vec::new()), Ok(()));
}

#[test]
fn monitor_times_out_within_its_budget() {
    let mut m = BuildMonitor::new(3000, 1000);
    assert_eq!(m.limit, 3);
    assert_eq!(m.on_reply(Some(BuildStatus::Running)), MonitorStep::Poll);
    assert_eq!(m.on_reply(Some(BuildStatus::Running)), MonitorStep::Poll);
    assert_eq!(m.on_reply(Some(BuildStatus::Running)), MonitorStep::Finish(BuildVerdict::TimedOut));
    assert_eq!(build_result(BuildVerdict::TimedOut, Vec::new()), Err(SyncError::BuildTimedOut));
    assert_eq!(BuildMonitor::new(500, 1000).limit, 1);
    assert_eq!(BuildMonitor::new(500, 0).limit, 1);
    assert_eq!(BuildMonitor::new(10_500, 1000).limit, 10);
}

#[test]
fn failed_build_carries_its_diagnostics() {
    let mut m = BuildMonitor::new(60_000, 1000);
    assert_eq!(m.on_reply(Some(BuildStatus::Failed)), MonitorStep::Finish(BuildVerdict::Failed));
    assert_eq!(
        build_result(BuildVerdict::Failed, bytes("Foo.java:3: error")),
        Err(SyncError::BuildFailed(bytes("Foo.java:3: error")))
    );
}

#[test]
fn unreachable_device_ends_every_operation() {
    for op in [Operation::Download, Operation::Upload, Operation::Wipe, Operation::Build] {
        assert_eq!(begin(op, false), Err(SyncError::Unreachable));
    }
    assert_eq!(begin(Operation::Download, true), Ok(FirstStep::ListFiles));
    assert_eq!(begin(Operation::Upload, true), Ok(FirstStep::DiscoverLocal));
    assert_eq!(begin(Operation::Wipe, true), Ok(FirstStep::DeleteAll));
    assert_eq!(begin(Operation::Build, true), Ok(FirstStep::StartBuild));
}

#[test]
fn download_target_names_the_source_root() {
    assert_eq!(download_target(b"/org/A.java"), bytes("/java/file/download?f=src/org/A.java"));
}

#[test]
fn reply_body_follows_the_head() {
    let raw = b"HTTP/1.1 200 OK\r\nContent-Length: 5\r\n\r\nhello\r\n\r\nx";
    assert_eq!(reply_body(raw), Some(bytes("hello\r\n\r\nx")));
    assert_eq!(reply_body(b"HTTP/1.1 404 Not Found\r\n\r\nmissing"), None);
    assert_eq!(reply_body(b"HTTP/1.1 200 OK\r\nContent-Length: 5"), None);
    assert_eq!(reply_body(b"garbage"), None);
}

fn actions(c: Command) -> Vec<String> {
    match c {
        Command::Run(acts) => acts
            .into_iter()
            .map(|a| match a {
                Action::Download(d) => format!("download {}", d),
                Action::Wipe => "wipe".to_string(),
                Action::Upload(d) => format!("upload {}", d),
                Action::Build => "build".to_string(),
            })
            .collect(),
        _ => panic!("expected operations"),
    }
}

#[test]
fn operations_run_in_fixed_order_with_their_directories() {
    let opt = Ftc {
        download: true,
        upload: true,
        build: true,
        wipe: true,
        directories: vec!["foo/".to_string(), "bar/".to_string()],
        ..Ftc::default()
    };
    assert_eq!(actions(opt.command()), vec!["download foo/", "wipe", "upload bar/", "build"]);
    let opt = Ftc { upload: true, directories: vec!["bar".to_string()], ..Ftc::default() };
    assert_eq!(actions(opt.command()), vec!["upload bar"]);
    let opt = Ftc { download: true, upload: true, ..Ftc::default() };
    assert_eq!(actions(opt.command()), vec!["download .", "upload ."]);
}

#[test]
fn restore_and_usage_commands() {
    let opt = Ftc { restore_defaults: true, download: true, ..Ftc::default() };
    assert!(matches!(opt.command(), Command::RestoreDefaults));
    assert!(matches!(Ftc::default().command(), Command::Usage));
}

#[test]
fn settings_take_the_given_host_and_limits() {
    let mut conf = AppConfig::default();
    assert_eq!(conf.hosts, vec!["http://192.168.43.1:8080".to_string(), "http://192.168.49.1:8080".to_string()]);
    assert_eq!(conf.host_timeout_ms, 1000);
    assert_eq!(conf.build_timeout_sec, 60);
    let first = conf.hosts[0].clone();
    let opt = Ftc {
        host: Some("http://10.0.0.2:8080".to_string()),
        host_timeout_ms: Some(250),
        build_timeout_sec: Some(9),
        ..Ftc::default()
    };
    conf.apply(&opt);
    assert_eq!(conf.hosts, vec!["http://10.0.0.2:8080".to_string(), first.clone(), conf.hosts[2].clone()]);
    assert_eq!(conf.host_timeout_ms, 250);
    assert_eq!(conf.build_timeout_sec, 9);
    conf.apply(&opt);
    assert_eq!(conf.hosts.len(), 3);
    let opt = Ftc { host: Some(first.clone()), ..Ftc::default() };
    conf.apply(&opt);
    assert_eq!(conf.hosts.len(), 3);
    assert_eq!(conf.host_timeout_ms, 250);
}
