use wn::{
    parse_multilingual_wordnet_line, split_line, Definition, Entry, Example, Fields, Kind, Lemma,
    ParseError, Part,
};

#[test]
fn it_extracts_indonesian_lemma() {
    let line = "00018158-v\tind:lemma\tmembubung\n";

    let lemma = parse_multilingual_wordnet_line(line);

    assert_eq!(
        lemma,
        Ok(Entry::Lemma(Lemma {
            lemma: "membubung",
            language: "ind",
            offset: "00018158",
            pos: Part::Verb,
        }))
    )
}

#[test]
fn it_extract_indonesian_definition() {
    let line =
        "00006024-n\tind:def\t0\torganisme yang tergantung pada zat organik kompleks untuk gizi\n";

    let definition = parse_multilingual_wordnet_line(line);

    assert_eq!(
        definition,
        Ok(Entry::Definition(Definition {
            sid: 0,
            definition: "organisme yang tergantung pada zat organik kompleks untuk gizi",
            language: "ind",
            pos: Part::Noun,
            offset: "00006024",
        }))
    )
}

#[test]
fn it_extracts_english_example() {
    let line = "00012345-a\teng:exe\tShe felt an overwhelming sense of joy.\n";
    assert_eq!(
        parse_multilingual_wordnet_line(line),
        Ok(Entry::Example(Example {
            language: "eng",
            offset: "00012345",
            pos: Part::Adjective,
            example: "She felt an overwhelming sense of joy.",
        }))
    );
}

#[test]
fn short_offset_is_malformed() {
    let line = "0001234-n\teng:lemma\tcat\n";
    assert_eq!(parse_multilingual_wordnet_line(line), Err(ParseError::MalformedLine(line)));
}

#[test]
fn long_offset_is_malformed() {
    let line = "000123456-n\teng:lemma\tcat\n";
    assert_eq!(parse_multilingual_wordnet_line(line), Err(ParseError::MalformedLine(line)));
}

#[test]
fn unknown_part_code_fails() {
    for line in [
        "00012345-z\teng:lemma\tcat\n",
        "00012345-x\teng:lemma\tcat\n",
        "00012345-s\teng:lemma\tcat\n",
        "00012345-N\teng:lemma\tcat\n",
    ] {
        assert_eq!(parse_multilingual_wordnet_line(line), Err(ParseError::MalformedLine(line)));
    }
}

#[test]
fn every_part_code_decodes() {
    let pos = |line| parse_multilingual_wordnet_line(line).map(|e| e.pos());
    assert_eq!(pos("00012345-a\teng:lemma\tcat"), Ok(Part::Adjective));
    assert_eq!(pos("00012345-r\teng:lemma\tcat"), Ok(Part::Adverb));
    assert_eq!(pos("00012345-n\teng:lemma\tcat"), Ok(Part::Noun));
    assert_eq!(pos("00012345-v\teng:lemma\tcat"), Ok(Part::Verb));
}

#[test]
fn definition_without_sense_index_is_malformed() {
    for line in [
        "00006024-n\tind:def\torganisme yang tergantung\n",
        "00006024-n\tind:def\t0\n",
        "00006024-n\tind:def\t0\t\n",
        "00006024-n\tind:def\t07\tgizi\n",
        "00006024-n\tind:def\tx\tgizi\n",
    ] {
        assert_eq!(parse_multilingual_wordnet_line(line), Err(ParseError::MalformedLine(line)));
    }
}

#[test]
fn stray_sense_index_is_malformed() {
    for line in [
        "00018158-v\tind:lemma\t1\tmembubung\n",
        "00018158-v\tind:exe\t3 dia membubung\n",
    ] {
        assert_eq!(parse_multilingual_wordnet_line(line), Err(ParseError::MalformedLine(line)));
    }
}

#[test]
fn content_may_start_with_digits() {
    assert_eq!(
        parse_multilingual_wordnet_line("00018158-n\teng:lemma\t1\n"),
        Ok(Entry::Lemma(Lemma { language: "eng", offset: "00018158", pos: Part::Noun, lemma: "1" }))
    );
    assert_eq!(
        parse_multilingual_wordnet_line("00018158-n\teng:lemma\t100 metres\n"),
        Ok(Entry::Lemma(Lemma {
            language: "eng",
            offset: "00018158",
            pos: Part::Noun,
            lemma: "100 metres",
        }))
    );
    assert_eq!(
        parse_multilingual_wordnet_line("00018158-n\teng:def\t2\t3 apples\n"),
        Ok(Entry::Definition(Definition {
            language: "eng",
            offset: "00018158",
            pos: Part::Noun,
            sid: 2,
            definition: "3 apples",
        }))
    );
}

#[test]
fn every_sense_index_has_its_value() {
    let digits = ['0', '1', '2', '3', '4', '5', '6', '7', '8', '9'];
    for (value, digit) in digits.iter().enumerate() {
        let line = format!("00006024-n\tind:def\t{}\tgizi\n", digit);
        match parse_multilingual_wordnet_line(&line) {
            Ok(Entry::Definition(d)) => assert_eq!(d.sid as usize, value),
            other => panic!("{:?}", other),
        }
        assert_eq!(wn::fields::sense_index(*digit), Some(value as i8));
    }
    assert_eq!(wn::fields::sense_index('a'), None);
    assert_eq!(wn::fields::sense_index('/'), None);
    assert_eq!(wn::fields::sense_index(':'), None);
    assert_eq!(wn::fields::sense_index('\u{0663}'), None);
}

#[test]
fn end_of_line_is_stripped() {
    for line in [
        "00018158-v\tind:lemma\tmembubung",
        "00018158-v\tind:lemma\tmembubung\n",
        "00018158-v\tind:lemma\tmembubung\r\n",
        "00018158-v\tind:lemma\tmembubung  \t \r\n\n",
    ] {
        assert_eq!(
            parse_multilingual_wordnet_line(line),
            Ok(Entry::Lemma(Lemma {
                language: "ind",
                offset: "00018158",
                pos: Part::Verb,
                lemma: "membubung",
            }))
        );
    }
}

#[test]
fn runs_of_blanks_separate_fields() {
    assert_eq!(
        parse_multilingual_wordnet_line("00006024-n \t ind:def  7 \t zat  organik \n"),
        Ok(Entry::Definition(Definition {
            language: "ind",
            offset: "00006024",
            pos: Part::Noun,
            sid: 7,
            definition: "zat  organik",
        }))
    );
}

#[test]
fn missing_separators_are_malformed() {
    for line in [
        "",
        "\n",
        "00018158",
        "00018158-v",
        "00018158-v\t",
        "00018158-v\tind",
        "00018158-v\tind:",
        "00018158-v\tind:lemma",
        "00018158-v\tind:lemma\t",
        "00018158-v\tind:lemma\t \n",
        "00018158-vind:lemma\tmembubung\n",
        "00018158-v\tind:lemmamembubung\n",
        "00018158 v\tind:lemma\tmembubung\n",
        "00018158-v\tind lemma\tmembubung\n",
        "00018158-v\tind:lemmas\tmembubung\n",
        "00018158-v\tind:word\tmembubung\n",
        "00018158-v\nind:lemma\tmembubung\n",
        " 00018158-v\tind:lemma\tmembubung\n",
        "0001815a-v\tind:lemma\tmembubung\n",
    ] {
        assert_eq!(parse_multilingual_wordnet_line(line), Err(ParseError::MalformedLine(line)));
    }
}

#[test]
fn line_feed_inside_content_is_malformed() {
    let line = "00018158-v\tind:lemma\tmem\nbubung\n";
    assert_eq!(parse_multilingual_wordnet_line(line), Err(ParseError::MalformedLine(line)));
}

#[test]
fn language_is_three_word_characters() {
    let language = |line| parse_multilingual_wordnet_line(line).map(|e| e.language());
    assert_eq!(language("00018158-v\tind:lemma\tmembubung\n"), Ok("ind"));
    assert_eq!(language("00018158-v\tz_1:lemma\tmembubung\n"), Ok("z_1"));
    assert_eq!(
        language("00018158-v\t\u{65e5}\u{672c}\u{8a9e}:lemma\tmembubung\n"),
        Ok("\u{65e5}\u{672c}\u{8a9e}")
    );
    for line in [
        "00018158-v\ti-d:lemma\tmembubung\n",
        "00018158-v\tin:lemma\tmembubung\n",
        "00018158-v\tindo:lemma\tmembubung\n",
        "00018158-v\tin.:lemma\tmembubung\n",
        "00018158-v\t:::lemma\tmembubung\n",
    ] {
        assert_eq!(parse_multilingual_wordnet_line(line), Err(ParseError::MalformedLine(line)));
    }
}

#[test]
fn content_keeps_characters_of_any_script() {
    assert_eq!(
        parse_multilingual_wordnet_line("00018158-v\tfra:lemma\t\u{e9}lever un b\u{e2}timent\n"),
        Ok(Entry::Lemma(Lemma {
            language: "fra",
            offset: "00018158",
            pos: Part::Verb,
            lemma: "\u{e9}lever un b\u{e2}timent",
        }))
    );
}

#[test]
fn parsing_twice_gives_equal_results() {
    for line in [
        "00018158-v\tind:lemma\tmembubung\n",
        "00006024-n\tind:def\t0\torganisme\n",
        "0001234-n\teng:lemma\tcat\n",
    ] {
        assert_eq!(parse_multilingual_wordnet_line(line), parse_multilingual_wordnet_line(line));
    }
}

#[test]
fn sense_key_does_not_depend_on_kind() {
    let lines = [
        "00012345-r \teng:lemma\tquickly\n",
        "00012345-r \teng:def\t4\tin a quick manner\n",
        "00012345-r \teng:exe\tshe ran quickly\n",
    ];
    let kinds = [Kind::Lemma, Kind::Definition, Kind::Example];
    for (line, kind) in lines.iter().zip(kinds) {
        let entry = parse_multilingual_wordnet_line(line).unwrap();
        assert_eq!(entry.offset(), "00012345");
        assert_eq!(entry.pos(), Part::Adverb);
        assert_eq!(entry.language(), "eng");
        assert_eq!(entry.kind(), kind);
    }
}

#[test]
fn split_line_gives_fields_as_written() {
    let line = "00006024-n\tind:def\t0\tzat organik \n";
    assert_eq!(
        split_line(line),
        Some(Fields {
            line,
            offset: "00006024",
            pos: 'n',
            language: "ind",
            kind: "def",
            sid: Some('0'),
            content: "zat organik",
        })
    );
    let line = "00018158-v\tind:lemma\t1\tmembubung\n";
    assert_eq!(
        split_line(line),
        Some(Fields {
            line,
            offset: "00018158",
            pos: 'v',
            language: "ind",
            kind: "lemma",
            sid: Some('1'),
            content: "membubung",
        })
    );
    assert_eq!(split_line("00018158-v\tind:lemma\n"), None);
}

#[test]
fn decode_reports_unknown_part_of_speech() {
    let line = "00018158-s\tind:lemma\tmembubung\n";
    let fields = Fields {
        line,
        offset: "00018158",
        pos: 's',
        language: "ind",
        kind: "lemma",
        sid: None,
        content: "membubung",
    };
    assert_eq!(fields.decode(), Err(ParseError::UnknownPartOfSpeech(line)));
    let both = Fields { kind: "word", ..fields };
    assert_eq!(both.decode(), Err(ParseError::UnknownPartOfSpeech(line)));
}

#[test]
fn decode_reports_unknown_kind() {
    let line = "00018158-v\tind:word\tmembubung\n";
    let fields = Fields {
        line,
        offset: "00018158",
        pos: 'v',
        language: "ind",
        kind: "word",
        sid: None,
        content: "membubung",
    };
    assert_eq!(fields.decode(), Err(ParseError::UnknownKind(line)));
    assert_eq!(fields.decode().unwrap_err().line(), line);
}

#[test]
fn decode_checks_the_sense_index() {
    let line = "00006024-n\tind:def\t0\tgizi\n";
    let fields = Fields {
        line,
        offset: "00006024",
        pos: 'n',
        language: "ind",
        kind: "def",
        sid: Some('9'),
        content: "gizi",
    };
    assert_eq!(
        fields.decode(),
        Ok(Entry::Definition(Definition {
            language: "ind",
            offset: "00006024",
            pos: Part::Noun,
            sid: 9,
            definition: "gizi",
        }))
    );
    assert_eq!(Fields { sid: None, ..fields }.decode(), Err(ParseError::MalformedLine(line)));
    assert_eq!(Fields { sid: Some('x'), ..fields }.decode(), Err(ParseError::MalformedLine(line)));
    assert_eq!(
        Fields { kind: "exe", ..fields }.decode(),
        Err(ParseError::MalformedLine(line))
    );
    assert_eq!(
        Fields { kind: "lemma", sid: None, ..fields }.decode(),
        Ok(Entry::Lemma(Lemma {
            language: "ind",
            offset: "00006024",
            pos: Part::Noun,
            lemma: "gizi",
        }))
    );
}

#[test]
fn codes_and_keywords_decode() {
    assert_eq!(Part::from_code('a'), Some(Part::Adjective));
    assert_eq!(Part::from_code('r'), Some(Part::Adverb));
    assert_eq!(Part::from_code('n'), Some(Part::Noun));
    assert_eq!(Part::from_code('v'), Some(Part::Verb));
    assert_eq!(Part::from_code('s'), None);
    assert_eq!(Part::from_code('A'), None);
    assert_eq!(Kind::from_keyword("lemma"), Some(Kind::Lemma));
    assert_eq!(Kind::from_keyword("def"), Some(Kind::Definition));
    assert_eq!(Kind::from_keyword("exe"), Some(Kind::Example));
    assert_eq!(Kind::from_keyword("lemm"), None);
    assert_eq!(Kind::from_keyword("lemmas"), None);
    assert_eq!(Kind::from_keyword("Def"), None);
    assert_eq!(Kind::from_keyword(""), None);
}

#[test]
fn scan_line_does_not_look_at_the_language_code() {
    let line = "00018158-v\ti-d:lemma\tmembubung\n";
    assert_eq!(
        wn::parse::scan_line(line),
        Some(Fields {
            line,
            offset: "00018158",
            pos: 'v',
            language: "i-d",
            kind: "lemma",
            sid: None,
            content: "membubung",
        })
    );
    assert_eq!(split_line(line), None);
    assert_eq!(wn::parse::scan_line("00018158-v\tindo:lemma\tmembubung\n"), None);
}

#[test]
fn language_code_is_three_word_characters() {
    assert!(wn::parse::language_code("ind"));
    assert!(wn::parse::language_code("a_9"));
    assert!(wn::parse::language_code("\u{e9}t\u{e9}"));
    assert!(!wn::parse::language_code("in"));
    assert!(!wn::parse::language_code("indo"));
    assert!(!wn::parse::language_code("i d"));
    assert!(!wn::parse::language_code("in\n"));
    assert!(!wn::parse::language_code("in-"));
    assert!(!wn::parse::language_code(""));
}

#[test]
fn getters_read_every_kind() {
    let lemma = parse_multilingual_wordnet_line("00018158-v\tind:lemma\tmembubung\n").unwrap();
    assert_eq!(lemma.content(), "membubung");
    assert_eq!(lemma.sid(), None);
    let definition =
        parse_multilingual_wordnet_line("00006024-n\tind:def\t3\tzat organik\n").unwrap();
    assert_eq!(definition.content(), "zat organik");
    assert_eq!(definition.sid(), Some(3));
    assert_eq!(definition.kind(), Kind::Definition);
    let example = parse_multilingual_wordnet_line("00012345-a\teng:exe\ta joyful day\n").unwrap();
    assert_eq!(example.content(), "a joyful day");
    assert_eq!(example.sid(), None);
    assert_eq!(example.language(), "eng");
    assert_eq!(example.offset(), "00012345");
    assert_eq!(example.pos(), Part::Adjective);
}

#[test]
fn error_carries_the_line() {
    let line = "not a record";
    let error = parse_multilingual_wordnet_line(line).unwrap_err();
    assert_eq!(error, ParseError::MalformedLine(line));
    assert_eq!(error.line(), line);
    assert_eq!(ParseError::UnknownKind(line).line(), line);
    assert_eq!(ParseError::UnknownPartOfSpeech(line).line(), line);
}
