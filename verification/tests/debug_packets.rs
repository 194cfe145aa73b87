use albion_network_lib::cli::{
    build_bpf_filter, code_filter_matches, parse_args, try_parse_args, CliOptions,
};
use std::path::PathBuf;

fn parse(args: &[&str]) -> CliOptions {
    match try_parse_args(args.iter().map(|arg| arg.to_string()).collect()) {
        Ok(result) => result.unwrap(),
        Err(message) => panic!("{message}"),
    }
}

#[test]
fn defaults_select_albion_ports() {
    let options = parse(&[]);

    assert_eq!(options.ports, vec![5056, 4535]);
    assert!(!options.any_port);
}

#[test]
fn repeated_ports_override_defaults() {
    let options = parse(&["--port", "6000", "--port", "7000"]);

    assert_eq!(options.ports, vec![6000, 7000]);
    assert!(!options.any_port);
}

#[test]
fn any_port_clears_port_filtering() {
    let options = parse(&["--any-port"]);

    assert!(options.ports.is_empty());
    assert!(options.any_port);
}

#[test]
fn host_cidr_and_hosts_file_are_both_accepted() {
    let options = parse(&["--host-cidr", "192.168.1.0/24", "--hosts-file", "albion-hosts.txt"]);

    assert_eq!(options.host_cidrs, vec!["192.168.1.0/24"]);
    assert_eq!(
        options.hosts_files.iter().map(PathBuf::from).collect::<Vec<_>>(),
        vec![PathBuf::from("albion-hosts.txt")]
    );
}

#[test]
fn bpf_filter_uses_default_ports() {
    let options = parse(&[]);

    assert_eq!(build_bpf_filter(&options), Some("udp and (port 5056 or port 4535)".to_string()));
}

#[test]
fn bpf_filter_is_absent_for_any_port() {
    let options = parse(&["--any-port"]);

    assert_eq!(build_bpf_filter(&options), None);
}

#[test]
fn parses_output_filter_options() {
    let options = parse(&[
        "--no-events",
        "--no-operations",
        "--op-include",
        "83,174",
        "--event-exclude",
        "3,73",
    ]);

    assert!(options.no_events);
    assert!(options.no_operations);
    assert_eq!(options.op_include, Some(vec![83, 174]));
    assert_eq!(options.event_exclude, Some(vec![3, 73]));
}

#[test]
fn include_filter_allows_only_listed_codes() {
    assert!(code_filter_matches(83, &Some(vec![83, 174]), &None));
    assert!(!code_filter_matches(82, &Some(vec![83, 174]), &None));
}

#[test]
fn exclude_filter_rejects_listed_codes() {
    assert!(!code_filter_matches(83, &None, &Some(vec![83, 174])));
    assert!(code_filter_matches(82, &None, &Some(vec![83, 174])));
}

#[test]
fn bpf_filter_for_one_port_and_for_none() {
    let options = parse(&["--port", "5056"]);
    assert_eq!(build_bpf_filter(&options), Some("udp and port 5056".to_string()));

    let mut options = parse(&[]);
    options.ports.clear();
    assert_eq!(build_bpf_filter(&options), Some("udp".to_string()));
}

#[test]
fn argument_errors_are_reported() {
    let error = |args: &[&str]| parse_args(args.iter().map(|arg| arg.to_string()).collect()).unwrap_err();

    assert_eq!(error(&["--bogus"]), "unknown argument: --bogus");
    assert_eq!(error(&["--port"]), "missing value for --port");
    assert_eq!(error(&["--port", "70000"]), "invalid --port value: number too large to fit in target type");
    assert_eq!(error(&["--port", "x"]), "invalid --port value: invalid digit found in string");
    assert_eq!(error(&["--count", ""]), "invalid --count value: cannot parse integer from empty string");
}

#[test]
fn other_flags_and_values_are_read() {
    let options = parse(&[
        "--interface", "eth0", "--debug", "--unknown", "--count", "10", "--port", "+9", "--any-port",
        "--op-exclude", " 1 , ,2", "--event-include", "-4",
    ]);

    assert_eq!(options.interface.as_deref(), Some("eth0"));
    assert!(options.debug && options.unknown && options.any_port);
    assert!(options.ports.is_empty());
    assert_eq!(options.count, Some(10));
    assert_eq!(options.op_exclude, Some(vec![1, 2]));
    assert_eq!(options.event_include, Some(vec![-4]));
    assert!(code_filter_matches(7, &None, &None));
}

#[test]
#[should_panic(expected = "--op-include and --op-exclude cannot both be specified")]
fn panics_when_operation_include_and_exclude_are_both_set() {
    parse(&["--op-include", "83", "--op-exclude", "174"]);
}

#[test]
#[should_panic(expected = "--event-include and --event-exclude cannot both be specified")]
fn panics_when_event_include_and_exclude_are_both_set() {
    parse(&["--event-include", "3", "--event-exclude", "73"]);
}
