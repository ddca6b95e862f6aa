use rregex::{escape, RRegex, RRegexSet};

#[test]
fn compile_error_is_reported() {
    match RRegex::new("(") {
        Err(e) => assert!(!e.message.is_empty()),
        Ok(_) => panic!("an unclosed group compiled"),
    }
    assert!(RRegex::new("a(").is_err());
}

#[test]
fn is_match_thirteen_letter_word() {
    let re = RRegex::new(r"\b\w{13}\b").unwrap();
    assert!(re.is_match("I categorically deny having triskaidekaphobia."));
    assert!(!re.is_match("short words only"));
}

#[test]
fn is_match_at_takes_context() {
    let re = RRegex::new(r"\bchew\b").unwrap();
    assert!(re.is_match("chew"));
    assert!(!re.is_match_at("eschew", 2));
    assert!(!re.is_match_at("chew", 5));
    assert!(re.is_match_at("a chew", 1));
}

#[test]
fn find_gives_offsets_and_text() {
    let re = RRegex::new(r"\b\w{13}\b").unwrap();
    let m = re.find("I categorically deny having triskaidekaphobia.").unwrap();
    assert_eq!((m.start, m.end, m.value.as_str()), (2, 15, "categorically"));
    let greek = RRegex::new(r"\p{Greek}+").unwrap().find("Greek: αβγδ").unwrap();
    assert_eq!((greek.start, greek.end, greek.value.as_str()), (7, 15, "αβγδ"));
}

#[test]
fn find_at_past_the_end_is_none() {
    let re = RRegex::new("a").unwrap();
    assert!(re.find_at("aaa", 4).is_none());
    let m = re.find_at("aaa", 1).unwrap();
    assert_eq!((m.start, m.end), (1, 2));
    assert!(RRegex::new(r"\bchew\b").unwrap().find_at("eschew", 2).is_none());
}

#[test]
fn find_all_in_order() {
    let re = RRegex::new(r"\b\w{13}\b").unwrap();
    let all = re.find_all("Retroactively relinquishing remunerations is reprehensible.");
    let words: Vec<&str> = all.iter().map(|m| m.value.as_str()).collect();
    assert_eq!(words, vec!["Retroactively", "relinquishing", "remunerations", "reprehensible"]);
    assert_eq!((all[1].start, all[1].end), (14, 27));
}

#[test]
fn capture_names_are_the_named_ones() {
    let re = RRegex::new(r"(?<a>.(?<b>.))(.)(?:.)(?<c>.)").unwrap();
    assert_eq!(re.capture_names(), vec!["a", "b", "c"]);
    assert!(RRegex::new("foo").unwrap().capture_names().is_empty());
}

#[test]
fn captures_len_counts_group_zero() {
    assert_eq!(RRegex::new(r"(?P<y>\d{4})-(?P<m>\d{2})-(?P<d>\d{2})").unwrap().captures_len(), 4);
    assert_eq!(RRegex::new("foo").unwrap().captures_len(), 1);
    assert_eq!(RRegex::new("(foo)").unwrap().captures_len(), 2);
    assert_eq!(RRegex::new(r"(?<a>.(?<b>.))(.)(?:.)(?<c>.)").unwrap().captures_len(), 5);
    assert_eq!(RRegex::new("[a&&b]").unwrap().captures_len(), 1);
}

#[test]
fn replace_expands_groups() {
    let re = RRegex::new("[^01]+").unwrap();
    assert_eq!(re.replace("1078910", ""), "1010");
    let re = RRegex::new(r"(?P<last>[^,\s]+),\s+(?P<first>\S+)").unwrap();
    assert_eq!(re.replace("Springsteen, Bruce", "$first $last"), "Bruce Springsteen");
    let re = RRegex::new(r"(?P<first>\w+)\s+(?P<second>\w+)").unwrap();
    assert_eq!(re.replace("deep fried", "${first}_$second"), "deep_fried");
    assert_eq!(re.replace("nothing", "x"), "nothing");
}

#[test]
fn replacen_and_replace_all() {
    let re = RRegex::new("a").unwrap();
    assert_eq!(re.replacen("aaaa", 2, "b"), "bbaa");
    assert_eq!(re.replacen("aaaa", 0, "b"), "bbbb");
    assert_eq!(re.replace_all("banana", "o"), "bonono");
    assert_eq!(re.replace("banana", "o"), "bonana");
}

#[test]
fn split_and_splitn() {
    let re = RRegex::new(r"[ \t]+").unwrap();
    assert_eq!(re.split("a b \t  c\td    e"), vec!["a", "b", "c", "d", "e"]);
    let re = RRegex::new(r"\W+").unwrap();
    assert_eq!(re.splitn("Hey! How are you?", 3), vec!["Hey", "How", "are you?"]);
    assert!(re.splitn("Hey! How are you?", 0).is_empty());
}

#[test]
fn shortest_match_ends_early() {
    let re = RRegex::new("a+").unwrap();
    assert_eq!(re.shortest_match("aaaaa"), Some(1));
    assert_eq!(re.shortest_match("bbb"), None);
    assert_eq!(re.shortest_match_at("aaaaa", 9), None);
    assert_eq!(RRegex::new(r"\bchew\b").unwrap().shortest_match_at("eschew", 2), None);
    assert_eq!(re.shortest_match_at("baaa", 1), Some(2));
}

#[test]
fn as_string_gives_the_pattern() {
    assert_eq!(RRegex::new(r"\d+").unwrap().as_string(), r"\d+");
}

#[test]
fn escape_quotes_meta_characters() {
    assert_eq!(escape("1.5-2.0?"), r"1\.5\-2\.0\?");
    assert_eq!(escape("plain"), "plain");
    assert_eq!(escape(""), "");
}

#[test]
fn regex_set_reports_every_match() {
    let pats: Vec<String> = [r"\w+", r"\d+", r"\pL+", "foo", "bar", "barfoo", "foobar"]
        .iter()
        .map(|s| s.to_string())
        .collect();
    let set = RRegexSet::new(&pats).unwrap();
    assert_eq!(set.matches("foobar"), vec![0, 2, 3, 4, 6]);
    assert!(set.is_match("foo"));
    assert!(!set.is_match("☃"));
    assert!(RRegexSet::new(&vec!["(".to_string()]).is_err());
    assert!(RRegexSet::new(&vec!["a".to_string(), "b".to_string()]).unwrap().matches("c").is_empty());
}

#[test]
fn shortest_match_present_exactly_when_a_match_is() {
    let re = RRegex::new(r"\d+").unwrap();
    for (text, start) in [("ab12cd", 0usize), ("ab12cd", 3), ("ab12cd", 4), ("ab12cd", 6), ("", 0)] {
        let r = re.shortest_match_at(text, start);
        assert_eq!(r.is_some(), re.is_match_at(text, start));
        if let Some(e) = r {
            assert!(start <= e && e <= text.len());
        }
    }
    assert_eq!(re.shortest_match_at("ab12cd", 4), None);
    assert_eq!(re.shortest_match_at("ab12cd", 7), None);
}

#[test]
fn offsets_fall_between_characters() {
    let re = RRegex::new(r"\w").unwrap();
    let text = "é-ü";
    for m in re.find_all(text) {
        assert!(text.is_char_boundary(m.start) && text.is_char_boundary(m.end));
        assert_eq!(&text[m.start..m.end], m.value);
    }
    let m = re.find_at(text, 2).unwrap();
    assert_eq!((m.start, m.end, m.value.as_str()), (3, 5, "ü"));
}

#[test]
fn compile_error_carries_the_parser_message() {
    for p in ["(", "a{2,1}", "(?<n>a)(?<n>b)", r"\p{NoSuchClass}"] {
        let e = RRegex::new(p).err().unwrap();
        assert_eq!(e.message, regex::Regex::new(p).unwrap_err().to_string());
    }
    let pats = vec!["a".to_string(), "[".to_string()];
    let e = RRegexSet::new(&pats).err().unwrap();
    assert_eq!(e.message, regex::RegexSet::new(&pats).unwrap_err().to_string());
}
