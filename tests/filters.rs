use network::filters::{Filter, RegexFilter};

#[test]
fn test_source_port_is_match() {
    let mut filter = Filter {
        protocol: String::from("ip4"),
        port: 69,
        min_size: 0,
        max_size: 0,
        regex_filter: RegexFilter::new("", "", ""),
    };

    let is_match = filter.is_match("", 69, "", 0, 0, "");

    assert_eq!(is_match, true);
}

#[test]
fn test_source_port_is_not_match() {
    let mut filter = Filter {
        protocol: String::from("ip4"),
        port: 70,
        min_size: 0,
        max_size: 0,
        regex_filter: RegexFilter::new("", "", ""),
    };

    let is_match = filter.is_match("", 69, "", 0, 0, "");

    assert_eq!(is_match, false);
}

#[test]
fn test_dest_port_is_match() {
    let mut filter = Filter {
        protocol: String::from("ip4"),
        port: 69,
        min_size: 0,
        max_size: 0,
        regex_filter: RegexFilter::new("", "", ""),
    };

    let is_match = filter.is_match("", 0, "", 69, 0, "");

    assert_eq!(is_match, true);
}

#[test]
fn test_dest_port_is_not_match() {
    let mut filter = Filter {
        protocol: String::from("ip4"),
        port: 70,
        min_size: 0,
        max_size: 0,
        regex_filter: RegexFilter::new("", "", ""),
    };

    let is_match = filter.is_match("", 0, "", 69, 0, "");

    assert_eq!(is_match, false);
}

#[test]
fn test_min_size_is_match() {
    let mut filter = Filter {
        protocol: String::from("ip4"),
        port: 0,
        min_size: 5,
        max_size: 0,
        regex_filter: RegexFilter::new("", "", ""),
    };

    let is_match = filter.is_match("", 0, "", 0, 9, "");

    assert_eq!(is_match, true);
}

#[test]
fn test_min_size_is_not_match() {
    let mut filter = Filter {
        protocol: String::from("ip4"),
        port: 0,
        min_size: 5,
        max_size: 0,
        regex_filter: RegexFilter::new("", "", ""),
    };

    let is_match = filter.is_match("", 0, "", 0, 2, "");

    assert_eq!(is_match, false);
}

#[test]
fn test_max_size_is_match() {
    let mut filter = Filter {
        protocol: String::from("ip4"),
        port: 0,
        min_size: 0,
        max_size: 10,
        regex_filter: RegexFilter::new("", "", ""),
    };

    let is_match = filter.is_match("", 0, "", 0, 9, "");

    assert_eq!(is_match, true);
}

#[test]
fn test_max_size_is_not_match() {
    let mut filter = Filter {
        protocol: String::from("ip4"),
        port: 0,
        min_size: 0,
        max_size: 10,
        regex_filter: RegexFilter::new("", "", ""),
    };

    let is_match = filter.is_match("", 0, "", 0, 12, "");

    assert_eq!(is_match, false);
}
#[test]
fn test_min_max_size_is_match() {
    let mut filter = Filter {
        protocol: String::from("ip4"),
        port: 0,
        min_size: 5,
        max_size: 10,
        regex_filter: RegexFilter::new("", "", ""),
    };

    let is_match = filter.is_match("", 0, "", 0, 7, "");

    assert_eq!(is_match, true);
}

#[test]
fn test_min_max_size_is_not_match() {
    let mut filter = Filter {
        protocol: String::from("ip4"),
        port: 0,
        min_size: 5,
        max_size: 10,
        regex_filter: RegexFilter::new("", "", ""),
    };

    let is_match = filter.is_match("", 0, "", 0, 12, "");

    assert_eq!(is_match, false);
}

#[test]
fn test_source_ip_regex_is_match() {
    let mut filter = Filter {
        protocol: String::from("ip4"),
        port: 0,
        min_size: 0,
        max_size: 0,
        regex_filter: RegexFilter::new("198.2.+", "", ""),
    };

    let is_match = filter.is_match("198.2.132.5", 0, "", 0, 12, "");

    assert_eq!(is_match, true);
}

#[test]
fn test_source_ip_regex_is_not_match() {
    let mut filter = Filter {
        protocol: String::from("ip4"),
        port: 0,
        min_size: 0,
        max_size: 0,
        regex_filter: RegexFilter::new("198.3.*", "", ""),
    };

    let is_match = filter.is_match("198.2.132.5", 0, "", 0, 12, "");

    assert_eq!(is_match, false);
}

#[test]
fn test_dest_ip_regex_is_match() {
    let mut filter = Filter {
        protocol: String::from("ip4"),
        port: 0,
        min_size: 0,
        max_size: 0,
        regex_filter: RegexFilter::new("", "198.2.+", ""),
    };

    let is_match = filter.is_match("", 0, "198.2.132.5", 0, 12, "");

    assert_eq!(is_match, true);
}

#[test]
fn test_dest_ip_regex_is_not_match() {
    let mut filter = Filter {
        protocol: String::from("ip4"),
        port: 0,
        min_size: 0,
        max_size: 0,
        regex_filter: RegexFilter::new("", "198.3.*", ""),
    };

    let is_match = filter.is_match("", 0, "198.2.132.5", 0, 12, "");

    assert_eq!(is_match, false);
}

#[test]
fn test_payload_regex_is_match() {
    let mut filter = Filter {
        protocol: String::from("ip4"),
        port: 0,
        min_size: 0,
        max_size: 0,
        regex_filter: RegexFilter::new("", "", ".+hello world$"),
    };

    let is_match = filter.is_match("", 0, "", 0, 0, "blah hello world");

    assert_eq!(is_match, true);
}

#[test]
fn test_payload_regex_is_not_match() {
    let mut filter = Filter {
        protocol: String::from("ip4"),
        port: 0,
        min_size: 0,
        max_size: 0,
        regex_filter: RegexFilter::new("", "", ".*hello world$"),
    };

    let is_match = filter.is_match("", 0, "", 0, 0, "hello world blah");

    assert_eq!(is_match, false);
}

#[test]
fn size_range_bounds_are_exclusive() {
    let mut filter = Filter {
        protocol: String::from("ip4"),
        port: 0,
        min_size: 5,
        max_size: 10,
        regex_filter: RegexFilter::new("", "", ""),
    };
    assert!(filter.is_match("", 0, "", 0, 7, ""));
    assert!(!filter.is_match("", 0, "", 0, 12, ""));
    assert!(!filter.is_match("", 0, "", 0, 10, ""));
    assert!(!filter.is_match("", 0, "", 0, 5, ""));
}

#[test]
fn port_matches_either_end_whatever_the_size() {
    let mut filter = Filter {
        protocol: String::from("udp"),
        port: 443,
        min_size: 100,
        max_size: 200,
        regex_filter: RegexFilter::new("", "", ""),
    };
    assert!(filter.is_match("", 443, "", 9, 1, ""));
    assert!(filter.is_match("", 9, "", 443, 1, ""));
    assert!(!filter.is_match("", 9, "", 10, 1, ""));
}

#[test]
fn blank_filter_matches_nothing() {
    let mut filter = Filter {
        protocol: String::new(),
        port: 0,
        min_size: 0,
        max_size: 0,
        regex_filter: RegexFilter::new("", "", ""),
    };
    assert!(!filter.is_match("10.0.0.1", 80, "10.0.0.2", 8080, 1500, "anything"));
    assert!(!filter.is_match("", 0, "", 0, 0, ""));
}

#[test]
fn repeated_matching_gives_the_same_answer() {
    let mut filter = Filter {
        protocol: String::from("ip4"),
        port: 0,
        min_size: 0,
        max_size: 0,
        regex_filter: RegexFilter::new("^10\\.", "", "hello"),
    };
    for _ in 0..3 {
        assert!(filter.is_match("10.1.2.3", 0, "", 0, 0, ""));
        assert!(!filter.is_match("11.1.2.3", 0, "", 0, 0, "bye"));
        assert!(filter.is_match("11.1.2.3", 0, "", 0, 0, "say hello"));
    }
    assert_eq!(filter.regex_filter.source_ip(), "^10\\.");
    assert_eq!(filter.regex_filter.payload(), "hello");
}

#[test]
fn invalid_pattern_hits_nothing() {
    let mut filter = Filter {
        protocol: String::from("ip4"),
        port: 0,
        min_size: 0,
        max_size: 0,
        regex_filter: RegexFilter::new("*", "", ""),
    };
    assert!(!filter.is_match("*", 0, "", 0, 0, ""));
    assert!(!filter.regex_filter.compile_all());
    let mut good = RegexFilter::new("198.2.+", "", "");
    assert!(good.compile_all());
}
