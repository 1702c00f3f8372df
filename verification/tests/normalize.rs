use pcapmerge::name::normalize_entry_name;

#[test]
fn brackets_become_underscores() {
    let raw = b"a[b]c.pcap".to_vec();
    let out = normalize_entry_name(&raw);
    assert_eq!(out, b"a_b_c.pcap".to_vec());
    assert_eq!(out.len(), raw.len());
    assert!(!out.contains(&b'['));
    assert!(!out.contains(&b']'));
}

#[test]
fn leading_hyphen_becomes_star() {
    let out = normalize_entry_name(&b"-abc".to_vec());
    assert_eq!(out, b"*abc".to_vec());
}

#[test]
fn inner_hyphen_is_kept() {
    let out = normalize_entry_name(&b"a-bc".to_vec());
    assert_eq!(out, b"a-bc".to_vec());
}

#[test]
fn only_the_leading_hyphen_changes() {
    let out = normalize_entry_name(&b"--a-b".to_vec());
    assert_eq!(out, b"*-a-b".to_vec());
}

#[test]
fn normalizing_twice_changes_nothing() {
    let raw = b"-x[1]y[2].pcap".to_vec();
    let once = normalize_entry_name(&raw);
    let twice = normalize_entry_name(&once);
    assert_eq!(once, twice);
    assert_eq!(once, b"*x_1_y_2_.pcap".to_vec());
}

#[test]
fn empty_name_stays_empty() {
    let out = normalize_entry_name(&Vec::new());
    assert!(out.is_empty());
}
