use albion_network_lib::capture::IpAddress;
use albion_network_lib::cli::{
    build_capture_filter, build_host_filter, parse_args, read_code_list, try_parse_args,
};
use albion_network_lib::models::Guid;

fn args(list: &[&str]) -> Vec<String> {
    list.iter().map(|arg| arg.to_string()).collect()
}

#[test]
fn code_lists_read_blank_pieces_and_reject_others() {
    assert_eq!(read_code_list(" 1, ,-2,3 "), Ok(vec![1, -2, 3]));
    assert_eq!(read_code_list(""), Ok(Vec::new()));
    assert_eq!(
        read_code_list("1, x ,y"),
        Err("invalid code \"x\": invalid digit found in string".to_string())
    );
    assert_eq!(
        read_code_list("99999999999"),
        Err("invalid code \"99999999999\": number too large to fit in target type".to_string())
    );
    assert_eq!(
        read_code_list("-2147483649"),
        Err("invalid code \"-2147483649\": number too small to fit in target type".to_string())
    );
    assert_eq!(
        read_code_list("2,-"),
        Err("invalid code \"-\": invalid digit found in string".to_string())
    );
}

#[test]
fn command_lines_the_tool_stops_on_are_told_apart() {
    let stop = |list: &[&str]| match try_parse_args(args(list)) {
        Err(message) => message,
        Ok(_) => panic!("the command line was read"),
    };
    assert_eq!(
        stop(&["--op-include", "1", "--op-exclude", "2"]),
        "--op-include and --op-exclude cannot both be specified"
    );
    assert_eq!(
        stop(&["--event-include", "1", "--event-exclude", "2"]),
        "--event-include and --event-exclude cannot both be specified"
    );
    assert_eq!(
        stop(&["--op-include", "1", "--op-exclude", "2", "--event-include", "1", "--event-exclude", "2"]),
        "--op-include and --op-exclude cannot both be specified"
    );
    assert_eq!(
        stop(&["--op-include", "one"]),
        "invalid code \"one\": invalid digit found in string"
    );
    assert_eq!(
        stop(&["--op-include", "1", "--op-exclude", "2", "--event-include", "z"]),
        "invalid code \"z\": invalid digit found in string"
    );
    assert!(matches!(
        try_parse_args(args(&["--op-include", "1", "--event-exclude", "2"])),
        Ok(Ok(_))
    ));
    assert!(matches!(try_parse_args(args(&["--bogus"])), Ok(Err(_))));
}

#[test]
fn host_filter_is_built_from_ranges_and_files() {
    let none = parse_args(Vec::new()).unwrap();
    assert!(build_host_filter(&none, &[]).unwrap().is_none());

    let one_file = parse_args(args(&["--hosts-file", "hosts.txt"])).unwrap();
    let files = [("hosts.txt".to_string(), "10.0.0.0/8\n# lan\n".to_string())];
    let filter = build_host_filter(&one_file, &files).unwrap().unwrap();
    assert_eq!(filter.len(), 1);
    assert!(filter.contains(IpAddress::v4(10, 1, 1, 1)));

    let bad_file = [("hosts.txt".to_string(), "\nnope\n".to_string())];
    assert_eq!(
        build_host_filter(&one_file, &bad_file).unwrap_err().0,
        "hosts.txt:2 invalid CIDR entry \"nope\": missing /prefix"
    );

    let mixed = parse_args(args(&["--host-cidr", "192.168.0.0/16", "--hosts-file", "a", "--hosts-file", "b"]))
        .unwrap();
    let files = [
        ("a".to_string(), "10.0.0.0/8 # office\n".to_string()),
        ("b".to_string(), "\n172.16.0.0/12\n".to_string()),
    ];
    let filter = build_host_filter(&mixed, &files).unwrap().unwrap();
    assert_eq!(filter.len(), 3);
    assert!(filter.contains(IpAddress::v4(172, 16, 5, 5)));
    assert!(filter.contains(IpAddress::v4(192, 168, 5, 5)));

    let bad_files = [
        ("a".to_string(), "10.0.0.0/8\n".to_string()),
        ("b".to_string(), "nope\n".to_string()),
    ];
    assert_eq!(
        build_host_filter(&mixed, &bad_files).unwrap_err().0,
        "invalid CIDR entry \"nope\": missing /prefix"
    );
}

#[test]
fn capture_filter_follows_the_options() {
    let options = parse_args(args(&["--port", "6000"])).unwrap();
    let filter = build_capture_filter(&options, None);
    assert_eq!(filter.ports(), &[6000]);
    assert!(filter.host_filter().is_none());

    let any = parse_args(args(&["--port", "6000", "--any-port"])).unwrap();
    let hosts = build_host_filter(&parse_args(args(&["--host-cidr", "10.0.0.0/8"])).unwrap(), &[])
        .unwrap();
    let filter = build_capture_filter(&any, hosts);
    assert!(filter.ports().is_empty());
    assert_eq!(filter.host_filter().map(|h| h.len()), Some(1));
}

#[test]
fn guid_text_reads_back() {
    let guid = Guid {
        data1: 0x12345678,
        data2: 0x1234,
        data3: 0x5678,
        data4: [0x90, 0xab, 0xcd, 0xef, 0x12, 0x34, 0x56, 0x78],
    };

    assert_eq!(guid.to_text(), "12345678-1234-5678-90abcdef12345678");
    assert_eq!(Guid::from_str(&guid.to_text()), Some(guid));

    let small = Guid { data1: 1, data2: 2, data3: 3, data4: [0, 1, 2, 3, 4, 5, 6, 0xff] };
    assert_eq!(small.to_text(), "00000001-0002-0003-00010203040506ff");
    assert_eq!(Guid::from_str(&small.to_text()), Some(small));
}
