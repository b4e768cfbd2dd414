use clap::builder::{PathBufValueParser, RangedU64ValueParser};
use clap::{Arg, ArgAction, ArgMatches, Command};
use hurley::cli::Cli;
use std::path::PathBuf;

fn command() -> Command {
    Command::new("hurley")
        .arg(Arg::new("url").required(true))
        .arg(Arg::new("method").short('X').long("method").default_value("GET"))
        .arg(Arg::new("headers").short('H').long("header").action(ArgAction::Append))
        .arg(Arg::new("data").short('d').long("data"))
        .arg(
            Arg::new("body_file")
                .short('f')
                .long("file")
                .value_parser(PathBufValueParser::new()),
        )
        .arg(Arg::new("include_headers").short('i').long("include").action(ArgAction::SetTrue))
        .arg(Arg::new("follow_redirects").short('L').long("location").action(ArgAction::SetTrue))
        .arg(Arg::new("verbose").short('v').long("verbose").action(ArgAction::SetTrue))
        .arg(
            Arg::new("timeout")
                .long("timeout")
                .default_value("30")
                .value_parser(RangedU64ValueParser::<u64>::new()),
        )
        .arg(Arg::new("perf_file").long("perf").value_parser(PathBufValueParser::new()))
        .arg(
            Arg::new("concurrency")
                .short('c')
                .long("concurrency")
                .default_value("1")
                .value_parser(RangedU64ValueParser::<usize>::new()),
        )
        .arg(
            Arg::new("total_requests")
                .short('n')
                .long("requests")
                .default_value("1")
                .value_parser(RangedU64ValueParser::<usize>::new()),
        )
        .arg(Arg::new("output_format").long("output").default_value("text"))
}

fn text(matches: &ArgMatches, id: &str) -> String {
    matches.get_one::<String>(id).cloned().unwrap()
}

fn parse_from<const N: usize>(args: [&str; N]) -> Cli {
    let matches = command().try_get_matches_from(args).unwrap();
    Cli {
        url: text(&matches, "url"),
        method: text(&matches, "method"),
        headers: matches
            .get_many::<String>("headers")
            .map(|values| values.cloned().collect())
            .unwrap_or_default(),
        data: matches.get_one::<String>("data").cloned(),
        body_file: matches.get_one::<PathBuf>("body_file").cloned(),
        include_headers: matches.get_flag("include_headers"),
        follow_redirects: matches.get_flag("follow_redirects"),
        verbose: matches.get_flag("verbose"),
        timeout: *matches.get_one::<u64>("timeout").unwrap(),
        perf_file: matches.get_one::<PathBuf>("perf_file").cloned(),
        concurrency: *matches.get_one::<usize>("concurrency").unwrap(),
        total_requests: *matches.get_one::<usize>("total_requests").unwrap(),
        output_format: text(&matches, "output_format"),
    }
}

#[test]
fn test_default_values() {
    let cli = parse_from(["hurley", "https://example.com"]);
    assert_eq!(cli.url, "https://example.com");
    assert_eq!(cli.method, "GET");
    assert_eq!(cli.timeout, 30);
    assert_eq!(cli.concurrency, 1);
    assert_eq!(cli.total_requests, 1);
    assert!(!cli.is_perf_mode());
}

#[test]
fn test_post_with_data() {
    let cli = parse_from([
        "hurley",
        "-X", "POST",
        "https://example.com",
        "-d", r#"{"key": "value"}"#,
    ]);
    assert_eq!(cli.method, "POST");
    assert_eq!(cli.data, Some(r#"{"key": "value"}"#.to_string()));
}

#[test]
fn cli_test_headers() {
    let cli = parse_from([
        "hurley",
        "https://example.com",
        "-H", "Content-Type: application/json",
        "-H", "Authorization: Bearer token",
    ]);
    assert_eq!(cli.headers.len(), 2);
    assert_eq!(cli.headers[0], "Content-Type: application/json");
}

#[test]
fn test_perf_mode_with_concurrency() {
    let cli = parse_from([
        "hurley",
        "https://example.com",
        "-c", "10",
        "-n", "100",
    ]);
    assert!(cli.is_perf_mode());
    assert_eq!(cli.concurrency, 10);
    assert_eq!(cli.total_requests, 100);
}

#[test]
fn test_flags() {
    let cli = parse_from([
        "hurley",
        "https://example.com",
        "-i", "-L", "-v",
    ]);
    assert!(cli.include_headers);
    assert!(cli.follow_redirects);
    assert!(cli.verbose);
}

#[test]
fn perf_mode_follows_from_each_of_its_three_causes() {
    let single = parse_from(["hurley", "https://example.com"]);
    assert!(!single.is_perf_mode());
    let many = parse_from(["hurley", "https://example.com", "-n", "2"]);
    assert!(many.is_perf_mode());
    let wide = parse_from(["hurley", "https://example.com", "-c", "2"]);
    assert!(wide.is_perf_mode());
    let dataset = parse_from(["hurley", "https://example.com", "--perf", "data.json"]);
    assert!(dataset.is_perf_mode());
    assert_eq!(dataset.perf_file, Some(PathBuf::from("data.json")));
}

#[test]
fn base_request_takes_method_headers_timeout_and_inline_body() {
    let cli = parse_from([
        "hurley",
        "-X", "put",
        "https://example.com/items",
        "-H", "Accept:  text/plain ",
        "-d", "payload",
        "-f", "body.txt",
        "--timeout", "5",
        "-L",
    ]);
    assert_eq!(cli.body_source(), None);
    let request = cli.base_request().unwrap();
    assert_eq!(request.method, "PUT");
    assert_eq!(request.url, "https://example.com/items");
    assert_eq!(request.headers.len(), 1);
    assert_eq!(request.headers.get("Accept"), Some(&"text/plain".to_string()));
    assert_eq!(request.body, Some("payload".to_string()));
    assert_eq!(request.timeout, std::time::Duration::from_secs(5));
    assert!(request.follow_redirects);
}

#[test]
fn the_body_file_is_read_only_when_no_data_is_given() {
    let cli = parse_from(["hurley", "https://example.com", "-f", "body.txt"]);
    assert_eq!(cli.body_source(), Some(&PathBuf::from("body.txt")));
    let request = cli.base_request().unwrap();
    assert_eq!(request.body, None);
    assert_eq!(request.method, "GET");
    assert_eq!(request.timeout, std::time::Duration::from_secs(30));
    assert!(!request.follow_redirects);
    let bare = parse_from(["hurley", "https://example.com"]);
    assert_eq!(bare.body_source(), None);
    assert_eq!(bare.base_request().unwrap().body, None);
}

#[test]
fn base_request_reports_the_method_before_the_headers() {
    let cli = parse_from(["hurley", "-X", "BAD METHOD", "https://example.com", "-H", "nocolon"]);
    let error = cli.base_request().unwrap_err();
    assert_eq!(error.to_string(), "Invalid method: BAD METHOD");
    let cli = parse_from(["hurley", "https://example.com", "-H", "A: b", "-H", "nocolon"]);
    let error = cli.base_request().unwrap_err();
    assert_eq!(error.to_string(), "Invalid header format: nocolon");
}
