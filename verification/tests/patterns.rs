use grep_caselaw::pattern::CompiledPattern;

#[test]
fn a_valid_pattern_compiles_and_keeps_its_text() {
    let re = CompiledPattern::compile("([dD])efendant|(Pp)laintiff").expect("valid");
    assert_eq!(re.as_str(), "([dD])efendant|(Pp)laintiff");
}

#[test]
fn an_unclosed_group_is_rejected_with_a_diagnostic() {
    match CompiledPattern::compile("foo(bar") {
        Ok(_) => panic!("an unclosed group must not compile"),
        Err(e) => assert!(!e.message.is_empty()),
    }
}

#[test]
fn a_pattern_over_the_size_limit_is_rejected() {
    assert!(CompiledPattern::compile(r"\w{1000}").is_err());
}

#[test]
fn a_search_hands_out_the_matches_in_order_and_then_nothing() {
    let re = CompiledPattern::compile("[0-9]+").expect("valid");
    let mut search = re.search("a1b22c333");
    assert_eq!(search.next_match(), Some("1"));
    assert_eq!(search.next_match(), Some("22"));
    assert_eq!(search.next_match(), Some("333"));
    assert_eq!(search.next_match(), None);
    assert_eq!(search.next_match(), None);
}

#[test]
fn matches_do_not_overlap() {
    let re = CompiledPattern::compile("aa").expect("valid");
    let mut search = re.search("aaaaa");
    assert_eq!(search.next_match(), Some("aa"));
    assert_eq!(search.next_match(), Some("aa"));
    assert_eq!(search.next_match(), None);
}

#[test]
fn the_same_pattern_compiled_twice_finds_the_same_matches() {
    let first = CompiledPattern::compile("[a-c]+").expect("valid");
    let second = CompiledPattern::compile("[a-c]+").expect("valid");
    let text = "abc xyz cab";
    let mut a = first.search(text);
    let mut b = second.search(text);
    loop {
        let x = a.next_match();
        let y = b.next_match();
        assert_eq!(x, y);
        if x.is_none() {
            break;
        }
    }
}
