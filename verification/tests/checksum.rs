use aqua_backend::checksum::{
    find_digest, find_file_line, read_digest, read_digest_in_group, ChecksumError, FileLine,
};
use aqua_backend::package::{AquaChecksum, AquaChecksumPattern, AquaChecksumType};
use regex::Regex;

fn plain() -> AquaChecksum {
    AquaChecksum {
        enabled: true,
        kind: AquaChecksumType::GithubRelease,
        algorithm: "sha256".to_string(),
        file_format: String::new(),
        pattern: None,
        cosign: None,
    }
}

fn regexp(checksum: &str, file: Option<&str>) -> AquaChecksum {
    AquaChecksum {
        file_format: "regexp".to_string(),
        pattern: Some(AquaChecksumPattern {
            checksum: checksum.to_string(),
            file: file.map(|file| file.to_string()),
        }),
        ..plain()
    }
}

fn digest(checksum: &AquaChecksum, content: &str, filename: &str) -> String {
    match read_digest(checksum, content, filename) {
        Ok(digest) => digest,
        Err(_) => panic!("no digest"),
    }
}

#[test]
fn the_line_of_the_file_gives_the_digest() {
    let content = "aaa  other.zip\nbbb  tool.zip\nccc  tool.zip\n";
    assert_eq!(digest(&plain(), content, "tool.zip"), "bbb");
}

#[test]
fn names_may_have_a_star_or_a_directory() {
    assert_eq!(digest(&plain(), "aaa *tool.zip", "tool.zip"), "aaa");
    assert_eq!(digest(&plain(), "aaa\t./dist/tool.zip\r\n", "tool.zip"), "aaa");
    assert_eq!(digest(&plain(), "bbb dist/*tool.zip", "tool.zip"), "bbb");
}

#[test]
fn without_a_line_of_the_file_the_first_word_counts() {
    assert_eq!(digest(&plain(), "  aaa\n", "tool.zip"), "aaa");
    assert_eq!(digest(&plain(), "aaa  other.zip\nbbb  more.zip", "tool.zip"), "aaa");
    assert_eq!(digest(&plain(), "x y tool.zip", "tool.zip"), "x");
}

#[test]
fn a_checksum_file_without_words_gives_nothing() {
    assert!(matches!(read_digest(&plain(), " \n", "tool.zip"), Err(ChecksumError::NoDigest)));
    assert_eq!(find_digest("", "tool.zip"), None);
}

#[test]
fn patterns_find_the_line_and_the_digest() {
    let content = "File: other.zip Sum: aa11\nFile: tool.zip Sum: bb22\n";
    let both = regexp("Sum: ([0-9a-f]+)", Some("^File: ([^ ]+)"));
    assert_eq!(digest(&both, content, "tool.zip"), "bb22");
    assert_eq!(digest(&both, content, "other.zip"), "aa11");
    assert_eq!(digest(&both, content, "absent.zip"), "aa11");
    assert_eq!(digest(&regexp("Sum: ([0-9a-f]+)", None), content, "tool.zip"), "aa11");
}

#[test]
fn a_pattern_that_does_not_match_leaves_the_text() {
    let content = "aaa  tool.zip";
    assert_eq!(digest(&regexp("Sum: ([0-9a-f]+)", None), content, "tool.zip"), "aaa");
}

#[test]
fn a_group_with_lines_is_read_like_a_checksum_file() {
    let content = "begin\naaa other.zip\nbbb tool.zip\nend";
    let between = regexp("(?s)begin(.*)end", None);
    assert_eq!(digest(&between, content, "tool.zip"), "bbb");
}

#[test]
fn patterns_must_be_regular_expressions() {
    let content = "aaa  tool.zip";
    for (checksum, refused) in [
        (regexp("(", None), "("),
        (regexp("(a+)", Some("[")), "["),
        (regexp("(", Some("[")), "["),
        (regexp("(", Some("x")), "("),
    ] {
        match (read_digest(&checksum, content, "tool.zip"), Regex::new(refused)) {
            (Err(ChecksumError::Pattern(err)), Err(expected)) => {
                assert_eq!(err.message(), expected.to_string());
                assert_eq!(err.into_cause(), expected);
            }
            _ => panic!("the pattern is no regular expression"),
        }
    }
}

#[test]
fn patterns_must_take_their_first_group() {
    let content = "aaa  tool.zip";
    for checksum in [regexp("a+", None), regexp("x|(y)|a", None), regexp("(a+)", Some("tool"))] {
        let r = read_digest(&checksum, content, "tool.zip");
        assert!(matches!(r, Err(ChecksumError::NoGroup)));
    }
}

#[test]
fn patterns_must_be_given() {
    let missing = AquaChecksum { file_format: "regexp".to_string(), ..plain() };
    assert!(matches!(read_digest(&missing, "aaa", "tool.zip"), Err(ChecksumError::NoPattern)));
}

#[test]
fn the_first_line_that_names_the_file_is_taken() {
    let lines = vec![
        ("one".to_string(), None),
        ("two".to_string(), Some(Some("tool".to_string()))),
        ("three".to_string(), Some(None)),
    ];
    let found = find_file_line(&lines, "tool");
    assert!(matches!(found, FileLine::Found(line) if line == "two"));
    assert!(matches!(find_file_line(&lines, "other"), FileLine::NoGroup));
    assert!(matches!(find_file_line(&vec![("one".to_string(), None)], "tool"), FileLine::Absent));
}

#[test]
fn the_group_stands_in_for_the_text() {
    let group = Some(Some("abc def".to_string()));
    assert!(matches!(read_digest_in_group(&group, "x", "tool"), Ok(d) if d == "abc"));
    assert!(matches!(read_digest_in_group(&None, "x", "tool"), Ok(d) if d == "x"));
    let without = read_digest_in_group(&Some(None), "x", "tool");
    assert!(matches!(without, Err(ChecksumError::NoGroup)));
}
