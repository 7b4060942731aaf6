use node_viewer::text::{is_printable, is_whitespace, looks_like_text, printable_text};
use node_viewer::xml_parsing::{
    element_name, element_names_of_run, get_all_xml_element_names, is_likely_xml, read_run,
    ParseError, XmlRead, XmlToken, XML_SNIFF_LIMIT,
};

fn names(list: &[&str]) -> Vec<String> {
    list.iter().map(|name| name.to_string()).collect()
}

#[test]
fn xml_declaration_is_likely_xml() {
    assert!(is_likely_xml(b"<?xml version=\"1.0\"?><a/>"));
}

#[test]
fn plain_words_are_not_likely_xml() {
    assert!(!is_likely_xml(b"hello world"));
}

#[test]
fn empty_buffer_is_not_likely_xml() {
    assert!(!is_likely_xml(b""));
}

#[test]
fn leading_white_space_is_skipped_before_the_tag() {
    assert!(is_likely_xml(b"  \r\n\t<root></root>"));
    assert!(is_likely_xml("\u{a0}\u{2003}\u{3000}<root/>".as_bytes()));
    assert!(is_likely_xml(b" \n <?xml"));
}

#[test]
fn declaration_start_needs_no_closing_bracket() {
    assert!(is_likely_xml(b"<?xml"));
    assert!(!is_likely_xml(b"<?xm"));
    assert!(!is_likely_xml(b"<?XML"));
}

#[test]
fn tag_start_needs_a_closing_bracket() {
    assert!(!is_likely_xml(b"<"));
    assert!(!is_likely_xml(b"<a"));
    assert!(is_likely_xml(b"<a>"));
    assert!(is_likely_xml(b"<>"));
}

#[test]
fn text_that_merely_starts_like_a_tag_passes() {
    assert!(is_likely_xml(b"< 3 is less, 4 > 3 is more"));
}

#[test]
fn text_before_the_tag_is_not_likely_xml() {
    assert!(!is_likely_xml(b"x<a>"));
    assert!(!is_likely_xml(b"> <a>"));
    assert!(!is_likely_xml("\u{feff}<?xml version=\"1.0\"?>".as_bytes()));
}

#[test]
fn invalid_utf8_is_not_likely_xml() {
    assert!(!is_likely_xml(b"<a>\xff</a>"));
    assert!(!is_likely_xml(b"\xc3"));
}

#[test]
fn only_the_first_thousand_bytes_are_sniffed() {
    assert_eq!(XML_SNIFF_LIMIT, 1000);

    let mut late_bracket = vec![b'<'];
    late_bracket.extend(std::iter::repeat(b'a').take(999));
    late_bracket.push(b'>');
    assert_eq!(late_bracket.len(), 1001);
    assert!(!is_likely_xml(&late_bracket));

    let mut bracket_in_reach = vec![b'<'];
    bracket_in_reach.extend(std::iter::repeat(b'a').take(998));
    bracket_in_reach.push(b'>');
    assert_eq!(bracket_in_reach.len(), 1000);
    assert!(is_likely_xml(&bracket_in_reach));

    let mut bad_byte_out_of_reach = b"<a>".to_vec();
    bad_byte_out_of_reach.extend(std::iter::repeat(b' ').take(997));
    bad_byte_out_of_reach.push(0xff);
    assert!(is_likely_xml(&bad_byte_out_of_reach));
}

#[test]
fn character_cut_by_the_sniff_limit_fails_the_test() {
    let mut cut = b"<a>".to_vec();
    cut.extend(std::iter::repeat(b' ').take(996));
    cut.extend("\u{e9}".as_bytes());
    assert_eq!(cut.len(), 1001);
    assert!(std::str::from_utf8(&cut).is_ok());
    assert!(!is_likely_xml(&cut));

    let mut whole = b"<a>".to_vec();
    whole.extend(std::iter::repeat(b' ').take(995));
    whole.extend("\u{e9}".as_bytes());
    assert_eq!(whole.len(), 1000);
    assert!(is_likely_xml(&whole));
}

#[test]
fn is_likely_xml_agrees_with_the_string_methods() {
    let samples: [&[u8]; 12] = [
        b"",
        b" ",
        b"<",
        b">",
        b"<>",
        b"\t<?xml?>",
        b"<?xml",
        b"a<b>",
        b"\n\n<html>",
        b"<<<<",
        b"\x0b\x0c<a>",
        b"\x1f<a>",
    ];
    for sample in samples {
        let text = std::str::from_utf8(sample).unwrap();
        let expected = text.trim_start().starts_with("<?xml")
            || text.trim_start().starts_with("<") && text.contains(">");
        assert_eq!(is_likely_xml(sample), expected, "{:?}", text);
    }
}

#[test]
fn empty_buffer_is_text() {
    assert!(looks_like_text(b""));
    assert_eq!(printable_text(b""), Some(""));
}

#[test]
fn printable_ascii_is_text() {
    assert!(looks_like_text(b"Hello, world! 0123456789 ~"));
    assert!(looks_like_text(b"line one\nline two\r\n\tindented"));
    assert_eq!(printable_text(b"a b\n"), Some("a b\n"));
}

#[test]
fn control_characters_are_not_text() {
    assert!(!looks_like_text(b"\x00"));
    assert!(!looks_like_text(b"abc\x07def"));
    assert!(!looks_like_text(b"\x1b[0m"));
    assert!(!looks_like_text(b"\x7f"));
    assert_eq!(printable_text(b"abc\x07def"), None);
}

#[test]
fn white_space_control_characters_are_text() {
    assert!(looks_like_text(b"\t\n\x0b\x0c\r "));
    assert!(looks_like_text("\u{85}".as_bytes()));
}

#[test]
fn characters_beyond_ascii_are_text_only_if_white_space() {
    assert!(!looks_like_text("caf\u{e9}".as_bytes()));
    assert!(!looks_like_text("\u{4e2d}\u{6587}".as_bytes()));
    assert!(looks_like_text("a\u{a0}b\u{2003}c\u{3000}d\u{2028}e".as_bytes()));
    assert!(!looks_like_text("\u{200b}".as_bytes()));
    assert!(!looks_like_text("\u{feff}".as_bytes()));
}

#[test]
fn invalid_utf8_is_not_text() {
    assert!(!looks_like_text(b"\xff"));
    assert!(!looks_like_text(b"abc\xc3"));
    assert!(!looks_like_text(b"\xed\xa0\x80"));
    assert!(!looks_like_text(b"\xc0\x80"));
    assert_eq!(printable_text(b"abc\xc3"), None);
}

#[test]
fn text_verdict_implies_valid_utf8_and_printable_characters() {
    let samples: [&[u8]; 8] = [
        b"",
        b"plain",
        b"tab\tseparated",
        b"bell\x07",
        b"\xff\xfe",
        "nbsp\u{a0}".as_bytes(),
        "accent \u{e9}".as_bytes(),
        b"\x7f",
    ];
    for sample in samples {
        if looks_like_text(sample) {
            let text = std::str::from_utf8(sample).expect("text is valid UTF-8");
            assert!(text.chars().all(|c| c.is_ascii() && !c.is_control() || c.is_whitespace()));
        }
    }
}

#[test]
fn white_space_is_the_unicode_property_for_every_character() {
    for code in 0..=0x10FFFFu32 {
        if let Some(c) = char::from_u32(code) {
            assert_eq!(is_whitespace(c), c.is_whitespace(), "U+{:04X}", code);
        }
    }
}

#[test]
fn printable_is_ascii_without_controls_or_white_space_for_every_character() {
    for code in 0..=0x10FFFFu32 {
        if let Some(c) = char::from_u32(code) {
            let expected = c.is_ascii() && !c.is_control() || c.is_whitespace();
            assert_eq!(is_printable(c), expected, "U+{:04X}", code);
        }
    }
}

#[test]
fn element_names_come_in_document_order() {
    assert_eq!(
        get_all_xml_element_names(b"<a><b/><c>text</c></a>"),
        Ok(names(&["a", "b", "c"]))
    );
}

#[test]
fn element_names_keep_duplicates() {
    assert_eq!(
        get_all_xml_element_names(b"<a><a/><b></b><a/></a>"),
        Ok(names(&["a", "a", "b", "a"]))
    );
}

#[test]
fn element_names_of_empty_buffer_are_empty() {
    assert_eq!(get_all_xml_element_names(b""), Ok(Vec::new()));
}

#[test]
fn element_names_of_text_without_markup_are_empty() {
    assert_eq!(get_all_xml_element_names(b"hello world"), Ok(Vec::new()));
    assert_eq!(get_all_xml_element_names(b" \n\t "), Ok(Vec::new()));
}

#[test]
fn other_markup_adds_no_names() {
    let document = b"<?xml version=\"1.0\"?>\n<!DOCTYPE root>\n<!-- <hidden/> -->\n<root>\
        <?target data?><![CDATA[<raw/>]]>&amp; text</root>";
    assert_eq!(get_all_xml_element_names(document), Ok(names(&["root"])));
}

#[test]
fn attributes_and_prefixes_stay_out_of_or_in_the_name() {
    assert_eq!(
        get_all_xml_element_names(b"<ns:a x=\"1\"><b y='>'/>\n<c\tz=\"\"></c></ns:a>"),
        Ok(names(&["ns:a", "b", "c"]))
    );
}

#[test]
fn names_beyond_ascii_are_decoded() {
    assert_eq!(
        get_all_xml_element_names("<\u{e9}t\u{e9}><\u{4e2d}/></\u{e9}t\u{e9}>".as_bytes()),
        Ok(names(&["\u{e9}t\u{e9}", "\u{4e2d}"]))
    );
}

#[test]
fn invalid_utf8_in_character_data_is_passed_over() {
    assert_eq!(get_all_xml_element_names(b"<a>\xff\xfe</a>"), Ok(names(&["a"])));
}

#[test]
fn tag_cut_short_is_a_parse_error() {
    assert_eq!(
        get_all_xml_element_names(b"<a><b"),
        Err(ParseError::Malformed(
            "syntax error: tag not closed: `>` not found before end of input".to_string()
        ))
    );
    assert!(matches!(get_all_xml_element_names(b"<"), Err(ParseError::Malformed(_))));
    assert!(matches!(get_all_xml_element_names(b"<a><!-- open"), Err(ParseError::Malformed(_))));
}

#[test]
fn elements_left_open_are_listed() {
    assert_eq!(get_all_xml_element_names(b"<a><b>"), Ok(names(&["a", "b"])));
}

#[test]
fn mismatched_end_tag_is_a_parse_error() {
    assert_eq!(
        get_all_xml_element_names(b"<a><b></a>"),
        Err(ParseError::Malformed(
            "ill-formed document: expected `</b>`, but `</a>` was found".to_string()
        ))
    );
    assert_eq!(
        get_all_xml_element_names(b"</a>"),
        Err(ParseError::Malformed(
            "ill-formed document: close tag `</a>` does not match any open tag".to_string()
        ))
    );
}

#[test]
fn name_that_is_not_utf8_is_a_parse_error() {
    assert_eq!(
        get_all_xml_element_names(b"<a><\xff\xfe/></a>"),
        Err(ParseError::NameNotUtf8(vec![0xff, 0xfe]))
    );
}

#[test]
fn first_failure_in_document_order_is_reported() {
    assert_eq!(
        get_all_xml_element_names(b"<\xff></b>"),
        Err(ParseError::NameNotUtf8(vec![0xff]))
    );
    assert!(matches!(
        get_all_xml_element_names(b"<a></b><\xff>"),
        Err(ParseError::Malformed(_))
    ));
}

#[test]
fn truncated_buffer_is_still_classified() {
    let truncated = b"<?xml version=\"1.0\"?><root><item name=\"x";
    assert!(is_likely_xml(truncated));
    assert!(looks_like_text(truncated));
    assert!(matches!(get_all_xml_element_names(truncated), Err(ParseError::Malformed(_))));
}

#[test]
fn listing_twice_gives_the_same_names() {
    let documents: [&[u8]; 4] =
        [b"<a><b/><c>text</c></a>", b"<root/>", b"", b"<a><b></a>"];
    for document in documents {
        assert_eq!(get_all_xml_element_names(document), get_all_xml_element_names(document));
    }
}

#[test]
fn byte_order_mark_is_passed_over_by_the_tokenizer() {
    assert_eq!(get_all_xml_element_names(b"\xef\xbb\xbf<a/>"), Ok(names(&["a"])));
}

#[test]
fn element_name_of_a_start_tag_is_its_text() {
    assert_eq!(element_name(&XmlToken::Start(b"root".to_vec())), Ok(Some("root".to_string())));
    assert_eq!(
        element_name(&XmlToken::Empty("\u{e9}".as_bytes().to_vec())),
        Ok(Some("\u{e9}".to_string()))
    );
    assert_eq!(element_name(&XmlToken::Start(Vec::new())), Ok(Some(String::new())));
}

#[test]
fn element_name_of_other_tokens_is_none() {
    assert_eq!(element_name(&XmlToken::Other), Ok(None));
    assert_eq!(element_name(&XmlToken::Eof), Ok(None));
    assert!(XmlToken::Eof.is_eof());
    assert!(!XmlToken::Other.is_eof());
    assert!(!XmlToken::Start(Vec::new()).is_eof());
}

#[test]
fn element_name_that_is_not_utf8_is_an_error() {
    assert_eq!(
        element_name(&XmlToken::Start(vec![b'a', 0x80])),
        Err(ParseError::NameNotUtf8(vec![b'a', 0x80]))
    );
    assert_eq!(
        element_name(&XmlToken::Empty(vec![0xc3])),
        Err(ParseError::NameNotUtf8(vec![0xc3]))
    );
}

#[test]
fn parse_error_messages() {
    assert_eq!(ParseError::Malformed("broken".to_string()).message(), "broken");
    assert_eq!(ParseError::NameNotUtf8(vec![0xff]).message(), "tag name is not valid UTF-8");
}

fn start(name: &str) -> XmlRead {
    Ok(XmlToken::Start(name.as_bytes().to_vec()))
}

fn empty(name: &str) -> XmlRead {
    Ok(XmlToken::Empty(name.as_bytes().to_vec()))
}

#[test]
fn run_lists_start_and_empty_tags_in_order() {
    let run = [
        start("a"),
        empty("b"),
        start("c"),
        Ok(XmlToken::Other),
        Ok(XmlToken::Other),
        Ok(XmlToken::Eof),
    ];
    assert_eq!(element_names_of_run(&run), Ok(names(&["a", "b", "c"])));
}

#[test]
fn run_without_reads_has_no_names() {
    assert_eq!(element_names_of_run(&[]), Ok(Vec::new()));
    assert_eq!(element_names_of_run(&[Ok(XmlToken::Eof)]), Ok(Vec::new()));
    assert_eq!(element_names_of_run(&[Ok(XmlToken::Other)]), Ok(Vec::new()));
}

#[test]
fn run_that_is_cut_short_lists_what_it_holds() {
    assert_eq!(element_names_of_run(&[start("a"), start("a")]), Ok(names(&["a", "a"])));
}

#[test]
fn run_is_not_looked_at_beyond_the_end_of_input() {
    let run = [
        start("a"),
        Ok(XmlToken::Eof),
        start("late"),
        Err("late failure".to_string()),
        Ok(XmlToken::Start(vec![0xff])),
    ];
    assert_eq!(element_names_of_run(&run), Ok(names(&["a"])));
}

#[test]
fn run_fails_at_a_failed_read_with_its_diagnostic() {
    let run = [start("a"), Err("broken markup".to_string()), start("b"), Ok(XmlToken::Eof)];
    assert_eq!(
        element_names_of_run(&run),
        Err(ParseError::Malformed("broken markup".to_string()))
    );
}

#[test]
fn run_fails_at_a_name_that_is_not_utf8() {
    let run = [start("a"), Ok(XmlToken::Empty(vec![b'b', 0xe2, 0x82])), Ok(XmlToken::Eof)];
    assert_eq!(
        element_names_of_run(&run),
        Err(ParseError::NameNotUtf8(vec![b'b', 0xe2, 0x82]))
    );
}

#[test]
fn run_reports_the_first_of_two_failures() {
    let name_first = [Ok(XmlToken::Start(vec![0xff])), Err("second".to_string())];
    assert_eq!(element_names_of_run(&name_first), Err(ParseError::NameNotUtf8(vec![0xff])));
    let read_first = [Err("first".to_string()), Ok(XmlToken::Start(vec![0xff]))];
    assert_eq!(
        element_names_of_run(&read_first),
        Err(ParseError::Malformed("first".to_string()))
    );
}

#[test]
fn read_run_ends_at_the_end_of_input() {
    assert_eq!(read_run(b""), vec![Ok(XmlToken::Eof)]);
    assert_eq!(read_run(b" \n "), vec![Ok(XmlToken::Eof)]);
    assert_eq!(
        read_run(b"<a x='1'><b/> text </a>"),
        vec![
            start("a"),
            empty("b"),
            Ok(XmlToken::Other),
            Ok(XmlToken::Other),
            Ok(XmlToken::Eof),
        ]
    );
}

#[test]
fn read_run_ends_at_the_first_failure() {
    assert_eq!(
        read_run(b"<a></b><c/>"),
        vec![
            start("a"),
            Err("ill-formed document: expected `</a>`, but `</b>` was found".to_string()),
        ]
    );
    assert_eq!(
        read_run(b"<a"),
        vec![Err("syntax error: tag not closed: `>` not found before end of input".to_string())]
    );
}

#[test]
fn read_run_keeps_names_as_bytes() {
    assert_eq!(
        read_run(b"<\xff/><ok>"),
        vec![Ok(XmlToken::Empty(vec![0xff])), start("ok"), Ok(XmlToken::Eof)]
    );
}

#[test]
fn listing_is_the_listing_of_the_run() {
    let documents: [&[u8]; 5] =
        [b"<a><b/><c>text</c></a>", b"", b"<a></b>", b"<\xff>", b"plain text"];
    for document in documents {
        assert_eq!(
            get_all_xml_element_names(document),
            element_names_of_run(&read_run(document))
        );
    }
}
