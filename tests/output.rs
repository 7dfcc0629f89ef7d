use spx_supervisor::output::{relay_line, relay_lines, Stream};

#[test]
fn stdout_lines_keep_their_order() {
    let reads = vec![Some("A".to_string()), Some("B".to_string()), Some("C".to_string())];
    let out = relay_lines(Stream::Stdout, &reads);
    let texts: Vec<&str> = out.iter().map(|l| l.text.as_str()).collect();
    assert_eq!(texts, vec!["A", "B", "C"]);
    assert!(out.iter().all(|l| l.stream == Stream::Stdout));
}

#[test]
fn undecodable_line_is_skipped() {
    let reads = vec![Some("A".to_string()), None, Some("C".to_string())];
    let out = relay_lines(Stream::Stderr, &reads);
    let texts: Vec<&str> = out.iter().map(|l| l.text.as_str()).collect();
    assert_eq!(texts, vec!["A", "C"]);
    assert!(out.iter().all(|l| l.stream == Stream::Stderr));
}

#[test]
fn relay_one_line() {
    let line = relay_line(Stream::Stdout, Some("ready".to_string())).unwrap();
    assert_eq!(line.text, "ready");
    assert_eq!(line.stream, Stream::Stdout);
    assert!(relay_line(Stream::Stdout, None).is_none());
}
