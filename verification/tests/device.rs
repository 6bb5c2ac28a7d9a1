use regex::Regex;
use rudevil::device::{extract_device, matches_device_pattern};

#[test]
fn partition_nodes_match() {
    assert!(matches_device_pattern("/dev/sda1"));
    assert!(matches_device_pattern("/dev/sdb1"));
    assert!(matches_device_pattern("/dev/sdab12"));
    assert!(matches_device_pattern("/dev/sdz9"));
    assert!(matches_device_pattern("/dev/sdaa0"));
}

#[test]
fn other_nodes_do_not_match() {
    assert!(!matches_device_pattern("/dev/nvme0n1p1"));
    assert!(!matches_device_pattern("/dev/sda"));
    assert!(!matches_device_pattern("/dev/sd1"));
    assert!(!matches_device_pattern("/dev/sdabc1"));
    assert!(!matches_device_pattern("/dev/sd"));
    assert!(!matches_device_pattern("/dev/null"));
    assert!(!matches_device_pattern("dev/sda1"));
    assert!(!matches_device_pattern("/dev/sd-a1"));
    assert!(!matches_device_pattern(""));
    assert!(!matches_device_pattern("/"));
}

#[test]
fn disk_letters_are_lowercase_only() {
    assert!(!matches_device_pattern("/dev/sdA1"));
    assert!(!matches_device_pattern("/dev/sdaB1"));
    assert!(!matches_device_pattern("/dev/SDa1"));
    assert!(!matches_device_pattern("/dev/sdAB12"));
}

#[test]
fn only_ascii_letters_and_digits_count() {
    assert!(!matches_device_pattern("/dev/sd\u{e9}1"));
    assert!(!matches_device_pattern("/dev/sda\u{661}"));
    assert!(!matches_device_pattern("/dev/sda1\u{e9}"));
    assert!(!matches_device_pattern("\u{1F4BE}/dev/sda1"));
}

#[test]
fn the_whole_path_must_be_the_node_name() {
    assert!(!matches_device_pattern("/dev/sda123"));
    assert!(!matches_device_pattern("/dev/sdab123"));
    assert!(!matches_device_pattern("/dev/sda1foo"));
    assert!(!matches_device_pattern("/mnt/dev/sdb1"));
    assert!(!matches_device_pattern("/tmp/sda1"));
    assert!(!matches_device_pattern("/dev/sdb1/"));
    assert!(!matches_device_pattern("/dev/sdb1/extra"));
    assert!(!matches_device_pattern("/dev//sdb1"));
    assert!(!matches_device_pattern(" /dev/sdb1"));
    assert!(!matches_device_pattern("/dev/sdb1\n"));
    assert!(!matches_device_pattern("/dev/sdb1/dev/sdc3"));
}

#[test]
fn shortest_and_longest_node_names() {
    assert!(matches_device_pattern("/dev/sda1"));
    assert!(!matches_device_pattern("/dev/sda"));
    assert!(matches_device_pattern("/dev/sdab12"));
    assert!(matches_device_pattern("/dev/sdab1"));
    assert!(matches_device_pattern("/dev/sda12"));
    assert!(!matches_device_pattern("/dev/sdab"));
    assert!(!matches_device_pattern("/dev/sdabc12"));
    assert!(!matches_device_pattern("/dev/sd12"));
}

fn extend(alphabet: &[char], words: &[String]) -> Vec<String> {
    let mut longer = Vec::new();
    for word in words {
        for c in alphabet {
            let mut next = word.clone();
            next.push(*c);
            longer.push(next);
        }
    }
    longer
}

fn corpus() -> Vec<String> {
    let alphabet = ['a', 'z', 'A', '0', '9', '/', '-', '\u{e9}', 'd', '\n'];
    let mut tails = vec![String::new()];
    let mut layer = vec![String::new()];
    for _ in 0..4 {
        layer = extend(&alphabet, &layer);
        tails.extend(layer.iter().cloned());
    }
    let heads = ["/dev/sd", "/dev/s", "x/dev/sd", "/dev/sd/dev/sd", "/dev//sd", "dev/sd", ""];
    let mut paths = Vec::new();
    for head in heads {
        for tail in &tails {
            paths.push(format!("{}{}", head, tail));
        }
    }
    paths
}

#[test]
fn agrees_with_the_anchored_regular_expression() {
    let pattern = Regex::new(r"\A/dev/sd[a-z]{1,2}[0-9]{1,2}\z").unwrap();
    let paths = corpus();
    assert_eq!(paths.len(), 7 * 11111);
    let mut matched = 0;
    for path in &paths {
        let expected = pattern.is_match(path);
        assert_eq!(matches_device_pattern(path), expected, "path {:?}", path);
        if expected {
            matched += 1;
        }
    }
    // The corpus has three lowercase letters and two digits. After `/dev/sd`
    // come one or two letters and one or two digits; after `/dev/s` a `d`
    // comes first, which leaves room for three more characters.
    assert_eq!(matched, (3 + 9) * (2 + 4) + (3 * (2 + 4) + 9 * 2));
}

#[test]
fn a_name_is_handed_out_for_matching_paths_only() {
    let paths = corpus();
    for path in &paths {
        let name = extract_device(path);
        assert_eq!(name.is_some(), matches_device_pattern(path), "path {:?}", path);
        if let Some(name) = name {
            assert_eq!(format!("/dev/{}", name), *path);
        }
    }
}

#[test]
fn device_name_is_the_final_segment() {
    assert_eq!(extract_device("/dev/sdb1"), Some("sdb1".to_string()));
    assert_eq!(extract_device("/dev/sda1"), Some("sda1".to_string()));
    assert_eq!(extract_device("/dev/sdab12"), Some("sdab12".to_string()));
    assert_eq!(extract_device("/dev/sdz90"), Some("sdz90".to_string()));
    assert_eq!(extract_device("/dev/sdaa0"), Some("sdaa0".to_string()));
}

#[test]
fn no_device_name_for_paths_outside_the_pattern() {
    assert_eq!(extract_device("/dev/nvme0n1p1"), None);
    assert_eq!(extract_device("/tmp/sda1"), None);
    assert_eq!(extract_device("/mnt/dev/sdb1"), None);
    assert_eq!(extract_device("/dev/sda"), None);
    assert_eq!(extract_device("/dev/sdabc1"), None);
    assert_eq!(extract_device("/dev/sda123"), None);
    assert_eq!(extract_device("/dev/sdA1"), None);
    assert_eq!(extract_device("/dev//sdb1"), None);
    assert_eq!(extract_device("/dev/sdb1/extra"), None);
    assert_eq!(extract_device("sdb1"), None);
}

#[test]
fn no_device_name_where_nothing_follows_the_last_slash() {
    assert_eq!(extract_device(""), None);
    assert_eq!(extract_device("/"), None);
    assert_eq!(extract_device("/dev/"), None);
    assert_eq!(extract_device("/dev/sdb1/"), None);
    assert_eq!(extract_device("/dev/sdb1//"), None);
}

#[test]
fn no_device_name_for_text_beyond_ascii() {
    assert_eq!(extract_device("/d\u{e9}v/sdb1"), None);
    assert_eq!(extract_device("/dev/sdb1\u{1F4BE}"), None);
    assert_eq!(extract_device("/dev/sd\u{e9}1"), None);
}

#[test]
fn extraction_is_repeatable() {
    let paths = ["/dev/sdb1", "/dev/sdb1/", "", "sdb1", "/dev/sdab12", "/dev/sda123"];
    for path in paths {
        assert_eq!(extract_device(path), extract_device(path));
        assert_eq!(matches_device_pattern(path), matches_device_pattern(path));
    }
}

#[test]
fn device_name_follows_the_last_slash_of_matching_paths() {
    let paths = ["/dev/sda1", "/dev/sdab12", "/dev/sdz9", "/dev/sdb10", "/dev/sdxy7"];
    for path in paths {
        assert!(matches_device_pattern(path));
        let cut = path.rfind('/').unwrap();
        assert_eq!(cut, 4);
        assert_eq!(extract_device(path), Some(path[cut + 1..].to_string()));
    }
}
