use fleet_updater::lines::LineAssembler;
use fleet_updater::phase::UpdatePhase;
use fleet_updater::stream::CommandStreamParser;

fn collect(chunks: &[&str]) -> (Vec<String>, String) {
    let mut assembler = LineAssembler::new();
    let mut lines = Vec::new();
    for c in chunks {
        lines.extend(assembler.feed(c));
    }
    let rest = assembler.take_residual();
    (lines, rest)
}

#[test]
fn splits_lines_at_newlines() {
    let (lines, rest) = collect(&["one\ntwo\nthree"]);
    assert_eq!(lines, vec!["one".to_string(), "two".to_string()]);
    assert_eq!(rest, "three");
}

#[test]
fn chunk_boundaries_do_not_matter() {
    let content = "alpha\nbe\rta\ngam\r\nma";
    let whole = collect(&[content]);
    let by_char: Vec<String> = content.chars().map(|c| c.to_string()).collect();
    let refs: Vec<&str> = by_char.iter().map(|s| s.as_str()).collect();
    let pieces = collect(&refs);
    let halves = collect(&[&content[..7], &content[7..]]);
    assert_eq!(whole, pieces);
    assert_eq!(whole, halves);
}

#[test]
fn carriage_return_discards_overwritten_text() {
    let (lines, _) = collect(&["progress 10%\rprogress 99%\rdone\n"]);
    assert_eq!(lines, vec!["done".to_string()]);
}

#[test]
fn carriage_return_discard_spans_chunks() {
    let (lines, _) = collect(&["abc\r", "xy\n"]);
    assert_eq!(lines, vec!["xy".to_string()]);
    let (lines2, _) = collect(&["abc", "\rxy", "\n"]);
    assert_eq!(lines2, vec!["xy".to_string()]);
}

#[test]
fn crlf_is_normalised() {
    let (lines, _) = collect(&["abc\r\ndef\r\n"]);
    assert_eq!(lines, vec!["abc".to_string(), "def".to_string()]);
}

#[test]
fn trailing_carriage_return_at_end_is_dropped() {
    let (lines, rest) = collect(&["abc\r"]);
    assert!(lines.is_empty());
    assert_eq!(rest, "abc");
}

#[test]
fn stream_parser_emits_trimmed_lines_and_keeps_raw_transcript() {
    let mut p = CommandStreamParser::new("h1".to_string(), false);
    let events = p.feed(b"  hello  \n\n world");
    assert_eq!(events.len(), 1);
    assert_eq!(events[0].hostname, "h1");
    assert_eq!(events[0].output_line.as_deref(), Some("hello"));
    assert!(matches!(events[0].phase, UpdatePhase::SyncingRepo));
    let tail = p.finish();
    assert_eq!(tail.len(), 1);
    assert_eq!(tail[0].output_line.as_deref(), Some("world"));
    assert_eq!(p.transcript(), "  hello  \n\n world");
}

#[test]
fn blank_lines_are_suppressed_from_events() {
    let mut p = CommandStreamParser::new("h1".to_string(), false);
    let events = p.feed(b"   \n\t\n");
    assert!(events.is_empty());
    assert_eq!(p.transcript(), "   \n\t\n");
}

#[test]
fn rebuild_parser_strips_escape_sequences_before_classifying() {
    let mut p = CommandStreamParser::new("h1".to_string(), true);
    let events = p.feed(b"\x1b[32mbuilding\x1b[m the thing\n");
    assert_eq!(events.len(), 1);
    assert_eq!(events[0].output_line.as_deref(), Some("building the thing"));
    match &events[0].phase {
        UpdatePhase::Rebuilding { detail } => assert_eq!(detail, "building..."),
        other => panic!("unexpected phase {:?}", other),
    }
    assert_eq!(p.transcript(), "\u{1b}[32mbuilding\u{1b}[m the thing\n");
}

#[test]
fn rebuild_parser_tags_unclassified_lines_with_empty_detail() {
    let mut p = CommandStreamParser::new("h1".to_string(), true);
    let events = p.feed(b"nothing to see\n");
    assert_eq!(events.len(), 1);
    match &events[0].phase {
        UpdatePhase::Rebuilding { detail } => assert_eq!(detail, ""),
        other => panic!("unexpected phase {:?}", other),
    }
}

#[test]
fn invalid_utf8_is_replaced_in_transcript() {
    let mut p = CommandStreamParser::new("h1".to_string(), false);
    let _ = p.feed(&[0xff, b'\n']);
    assert_eq!(p.transcript(), "\u{FFFD}\n");
}
