//! Reading the digest of a file out of a checksum file.
use vstd::prelude::*;

use crate::package::{AquaChecksum, AquaChecksumPattern};
use crate::pattern;
use crate::pattern::{Pattern, PatternError};
use crate::text;

verus! {

/// The name of a file as a line of a checksum file gives it: without its directories, and without
/// the stars that mark it as read in binary mode.
pub open spec fn bare_name(word: Seq<char>) -> Seq<char> {
    let name = text::tail_after_last(word, '/');
    text::without_trailing(text::without_leading(name, '*'), '*')
}

/// Whether a line of a checksum file is of the form `digest name`, with this name.
pub open spec fn lists(line: Seq<char>, filename: Seq<char>) -> bool {
    let words = text::words_of(line);
    words.len() == 2 && bare_name(words[1]) == filename
}

/// The text that holds the digest of a file: the digest of the first line that lists the file, or,
/// where no line does, the whole text.
pub open spec fn digest_text(lines: Seq<Seq<char>>, filename: Seq<char>, whole: Seq<char>) -> Seq<
    char,
>
    decreases lines.len(),
{
    if lines.len() == 0 {
        whole
    } else if lists(lines[0], filename) {
        text::words_of(lines[0])[0]
    } else {
        digest_text(lines.skip(1), filename, whole)
    }
}

/// The digest of a file in a text: the first word of the text that holds it.
pub open spec fn listed_digest(content: Seq<char>, filename: Seq<char>) -> Option<Seq<char>> {
    let words = text::words_of(digest_text(text::lines_of(content), filename, content));
    if words.len() > 0 {
        Some(words[0])
    } else {
        None
    }
}

/// The digest of a file in a text, if the text holds a word at all.
pub fn find_digest(content: &str, filename: &str) -> (r: Option<String>)
    ensures
        text::opt_text(r) == listed_digest(content@, filename@),
{
    let lines = text::lines(content);
    let mut found: String = content.to_owned();
    let mut i: usize = 0;
    let ghost all = text::texts(lines@);
    assert(all.skip(0) == all);
    while i < lines.len()
        invariant_except_break
            found@ == content@,
            i <= lines@.len(),
            all == text::texts(lines@),
            digest_text(all, filename@, content@) == digest_text(
                all.skip(i as int),
                filename@,
                content@,
            ),
        ensures
            found@ == digest_text(all, filename@, content@),
        decreases lines.len() - i,
    {
        let words = text::words(lines[i].as_str());
        proof {
            assert(all.skip(i as int)[0] == lines@[i as int]@);
            assert(all.skip(i as int).skip(1) == all.skip(i + 1));
            assert(text::texts(words@).len() == words@.len());
        }
        if words.len() == 2 {
            let name = text::trim_matches(text::after_last(words[1].as_str(), '/'), '*');
            assert(text::texts(words@)[1] == words@[1]@);
            if text::same(name, filename) {
                found = words[0].clone();
                assert(text::texts(words@)[0] == words@[0]@);
                break;
            }
        }
        i = i + 1;
    }
    let words = text::words(found.as_str());
    assert(text::texts(words@).len() == words@.len());
    if words.len() > 0 {
        assert(text::texts(words@)[0] == words@[0]@);
        Some(words[0].clone())
    } else {
        None
    }
}

/// Why a checksum file gives no digest.
pub enum ChecksumError {
    /// The format of the checksum file is `regexp`, and the package gives no patterns.
    NoPattern,
    /// A pattern of the package is no regular expression.
    Pattern(PatternError),
    /// A pattern matched, and its first group took no part in the match.
    NoGroup,
    /// There is no word where the digest should be.
    NoDigest,
}

/// What a checksum file gives of a file.
pub enum DigestView {
    Digest(Seq<char>),
    NoPattern,
    /// A pattern is no regular expression, with why it is not.
    BadPattern(Seq<char>),
    NoGroup,
    NoDigest,
}

/// What the outcome of reading a checksum file stands for.
pub open spec fn digest_view(r: Result<String, ChecksumError>) -> DigestView {
    match r {
        Ok(digest) => DigestView::Digest(digest@),
        Err(ChecksumError::NoPattern) => DigestView::NoPattern,
        Err(ChecksumError::Pattern(err)) => DigestView::BadPattern(err@),
        Err(ChecksumError::NoGroup) => DigestView::NoGroup,
        Err(ChecksumError::NoDigest) => DigestView::NoDigest,
    }
}

/// What a pattern's group took.
pub open spec fn group_text(found: Option<Option<String>>) -> Option<Option<Seq<char>>> {
    match found {
        Some(part) => Some(text::opt_text(part)),
        None => None,
    }
}

/// A line of a checksum file, with what the pattern for the file's name makes of it.
pub type GroupedLine = (Seq<char>, Option<Option<Seq<char>>>);

/// The lines of a checksum file, each with what the pattern for the file's name makes of it.
pub open spec fn grouped(lines: Seq<(String, Option<Option<String>>)>) -> Seq<GroupedLine> {
    Seq::new(lines.len(), |i: int| (lines[i].0@, group_text(lines[i].1)))
}

/// The line of a file among the lines of a checksum file.
pub enum FileLine {
    Found(String),
    Absent,
    /// The pattern matched a line, and its first group took no part in the match.
    NoGroup,
}

/// The line of a file among the lines of a checksum file.
pub enum FileLineView {
    Found(Seq<char>),
    Absent,
    NoGroup,
}

impl View for FileLine {
    type V = FileLineView;

    open spec fn view(&self) -> FileLineView {
        match *self {
            FileLine::Found(line) => FileLineView::Found(line@),
            FileLine::Absent => FileLineView::Absent,
            FileLine::NoGroup => FileLineView::NoGroup,
        }
    }
}

/// The first line in which the pattern's first group took the file's name. A match without its
/// first group, in a line before, ends the search.
pub open spec fn file_line(lines: Seq<GroupedLine>, filename: Seq<char>) -> FileLineView
    decreases lines.len(),
{
    if lines.len() == 0 {
        FileLineView::Absent
    } else {
        match lines[0].1 {
            Some(None) => FileLineView::NoGroup,
            Some(Some(name)) if name == filename => FileLineView::Found(lines[0].0),
            _ => file_line(lines.skip(1), filename),
        }
    }
}

/// The first line in which the pattern's first group took the file's name, where each line comes with
/// what the pattern makes of it.
pub fn find_file_line(lines: &Vec<(String, Option<Option<String>>)>, filename: &str) -> (r: FileLine)
    ensures
        r@ == file_line(grouped(lines@), filename@),
{
    let mut i: usize = 0;
    let ghost all = grouped(lines@);
    assert(all.skip(0) == all);
    while i < lines.len()
        invariant
            i <= lines@.len(),
            all == grouped(lines@),
            file_line(all, filename@) == file_line(all.skip(i as int), filename@),
        decreases lines.len() - i,
    {
        proof {
            assert(all.skip(i as int)[0] == all[i as int]);
            assert(all.skip(i as int).skip(1) == all.skip(i + 1));
        }
        if let Some(part) = &lines[i].1 {
            match part {
                None => {
                    return FileLine::NoGroup;
                },
                Some(name) => {
                    if text::same(name.as_str(), filename) {
                        return FileLine::Found(lines[i].0.clone());
                    }
                },
            }
        }
        i = i + 1;
    }
    FileLine::Absent
}

/// The digest of a file in a text.
pub open spec fn plain_digest(content: Seq<char>, filename: Seq<char>) -> DigestView {
    match listed_digest(content, filename) {
        Some(digest) => DigestView::Digest(digest),
        None => DigestView::NoDigest,
    }
}

/// The digest of a file in a text, where `found` is what the pattern for the digest makes of the
/// text: it is sought in what the first group took, or, without a match, in the text itself.
pub open spec fn digest_in_group(
    found: Option<Option<Seq<char>>>,
    content: Seq<char>,
    filename: Seq<char>,
) -> DigestView {
    match found {
        None => plain_digest(content, filename),
        Some(None) => DigestView::NoGroup,
        Some(Some(part)) => plain_digest(part, filename),
    }
}

/// The digest of a file in a text.
fn read_plain_digest(content: &str, filename: &str) -> (r: Result<String, ChecksumError>)
    ensures
        digest_view(r) == plain_digest(content@, filename@),
{
    match find_digest(content, filename) {
        Some(digest) => Ok(digest),
        None => Err(ChecksumError::NoDigest),
    }
}

/// The digest of a file in a text, where `found` is what the pattern for the digest makes of the
/// text.
pub fn read_digest_in_group(
    found: &Option<Option<String>>,
    content: &str,
    filename: &str,
) -> (r: Result<String, ChecksumError>)
    ensures
        digest_view(r) == digest_in_group(group_text(*found), content@, filename@),
{
    match found {
        None => read_plain_digest(content, filename),
        Some(part) => match part {
            None => Err(ChecksumError::NoGroup),
            Some(part) => read_plain_digest(part.as_str(), filename),
        },
    }
}

/// The lines of a text, each with what a pattern makes of it.
pub open spec fn line_groups(pattern: Seq<char>, lines: Seq<Seq<char>>) -> Seq<GroupedLine> {
    Seq::new(lines.len(), |i: int| (lines[i], pattern::regex_group(pattern, lines[i], 1)))
}

/// The digest of a file in a checksum file whose format is `regexp`. Where the pattern for the file
/// names a line, only that line is read; then the pattern for the digest is applied.
pub open spec fn pattern_digest(
    file: Option<Seq<char>>,
    checksum: Seq<char>,
    content: Seq<char>,
    filename: Seq<char>,
) -> DigestView {
    let lines = text::lines_of(content);
    if let Some(file) = file {
        if let Some(why) = pattern::regex_refusal(file) {
            DigestView::BadPattern(why)
        } else {
            match file_line(line_groups(file, lines), filename) {
                FileLineView::NoGroup => DigestView::NoGroup,
                FileLineView::Found(line) => text_digest(checksum, line, filename),
                FileLineView::Absent => text_digest(checksum, content, filename),
            }
        }
    } else {
        text_digest(checksum, content, filename)
    }
}

/// The digest of a file in a text that the pattern for the digest is applied to.
pub open spec fn text_digest(
    checksum: Seq<char>,
    content: Seq<char>,
    filename: Seq<char>,
) -> DigestView {
    if let Some(why) = pattern::regex_refusal(checksum) {
        DigestView::BadPattern(why)
    } else {
        digest_in_group(pattern::regex_group(checksum, content, 1), content, filename)
    }
}

/// What a package's checksum file gives of a file.
pub open spec fn digest_of(
    checksum: AquaChecksum,
    content: Seq<char>,
    filename: Seq<char>,
) -> DigestView {
    if checksum.file_format@ == "regexp"@ {
        match checksum.pattern {
            Some(pattern) => pattern_digest(
                text::opt_text(pattern.file),
                pattern.checksum@,
                content,
                filename,
            ),
            None => DigestView::NoPattern,
        }
    } else {
        plain_digest(content, filename)
    }
}

/// Applies the pattern for the digest to a text, and reads the digest of a file.
fn read_text_digest(checksum: &str, content: &str, filename: &str) -> (r: Result<
    String,
    ChecksumError,
>)
    ensures
        digest_view(r) == text_digest(checksum@, content@, filename@),
{
    match Pattern::compile(checksum) {
        Err(err) => Err(ChecksumError::Pattern(err)),
        Ok(pattern) => {
            let found = pattern.group(content, 1);
            read_digest_in_group(&found, content, filename)
        },
    }
}

/// The lines of a text, each with what a pattern makes of it.
fn groups_of_lines(pattern: &Pattern, lines: &Vec<String>) -> (r: Vec<
    (String, Option<Option<String>>),
>)
    ensures
        grouped(r@) == line_groups(pattern@, text::texts(lines@)),
{
    let mut r: Vec<(String, Option<Option<String>>)> = Vec::new();
    let mut i: usize = 0;
    while i < lines.len()
        invariant
            i <= lines@.len(),
            r@.len() == i,
            forall|j: int|
                0 <= j < i ==> (#[trigger] r@[j]).0@ == lines@[j]@ && group_text(r@[j].1)
                    == pattern::regex_group(pattern@, lines@[j]@, 1),
        decreases lines.len() - i,
    {
        let found = pattern.group(lines[i].as_str(), 1);
        r.push((lines[i].clone(), found));
        i = i + 1;
    }
    assert(grouped(r@) =~= line_groups(pattern@, text::texts(lines@)));
    r
}

/// Reads the digest of a file out of a package's checksum file.
pub fn read_digest(checksum: &AquaChecksum, content: &str, filename: &str) -> (r: Result<
    String,
    ChecksumError,
>)
    ensures
        digest_view(r) == digest_of(*checksum, content@, filename@),
{
    if !text::same(checksum.file_format.as_str(), "regexp") {
        return read_plain_digest(content, filename);
    }
    if let Some(pattern) = &checksum.pattern {
        if let Some(file) = &pattern.file {
            let lines = text::lines(content);
            match Pattern::compile(file.as_str()) {
                Err(err) => {
                    return Err(ChecksumError::Pattern(err));
                },
                Ok(compiled) => {
                    let groups = groups_of_lines(&compiled, &lines);
                    match find_file_line(&groups, filename) {
                        FileLine::NoGroup => {
                            return Err(ChecksumError::NoGroup);
                        },
                        FileLine::Found(line) => {
                            return read_text_digest(
                                pattern.checksum.as_str(),
                                line.as_str(),
                                filename,
                            );
                        },
                        FileLine::Absent => {},
                    }
                },
            }
        }
        read_text_digest(pattern.checksum.as_str(), content, filename)
    } else {
        Err(ChecksumError::NoPattern)
    }
}

/// A checksum as the lockfile holds it.
pub open spec fn checksum_text(algorithm: Seq<char>, digest: Seq<char>) -> Seq<char> {
    algorithm + ":"@ + digest
}

/// The names that a checksum file gives a file by: its bare name, its name after a star, and its
/// name below any directory.
pub proof fn law_bare_name(name: Seq<char>, directory: Seq<char>)
    requires
        !name.contains('/'),
        name.len() > 0,
        name[0] != '*',
        name.last() != '*',
    ensures
        bare_name(name) == name,
        bare_name(seq!['*'] + name) == name,
        bare_name(directory.push('/') + name) == name,
{
    text::lemma_after_last_of_sum(directory, '/', name);
    let starred = seq!['*'] + name;
    assert forall|i: int| 0 <= i < starred.len() implies starred[i] != '/' by {
        if i > 0 {
            assert(name.contains(name[i - 1]));
        }
    }
    text::lemma_after_last_of_sum(directory, '/', starred);
    assert(starred[0] == '*');
    assert(starred.skip(1) == name);
    assert(text::without_leading(starred, '*') == text::without_leading(name, '*'));
}

proof fn lemma_digest_text(lines: Seq<Seq<char>>, filename: Seq<char>, whole: Seq<char>, i: int)
    requires
        0 <= i < lines.len(),
        lists(lines[i], filename),
        forall|j: int| 0 <= j < i ==> !lists(#[trigger] lines[j], filename),
    ensures
        digest_text(lines, filename, whole) == text::words_of(lines[i])[0],
    decreases lines.len(),
{
    if i > 0 {
        assert(!lists(lines[0], filename));
        let rest = lines.skip(1);
        assert forall|j: int| 0 <= j < i - 1 implies !lists(#[trigger] rest[j], filename) by {
            assert(rest[j] == lines[j + 1]);
        }
        lemma_digest_text(rest, filename, whole, i - 1);
    }
}

/// The digest of a file is the one that stands, with white space between the two, before the file's
/// name in the first line that lists the file.
pub proof fn law_listed_digest(
    content: Seq<char>,
    filename: Seq<char>,
    i: int,
    digest: Seq<char>,
    gap: Seq<char>,
    name: Seq<char>,
)
    requires
        0 <= i < text::lines_of(content).len(),
        text::lines_of(content)[i] == digest + gap + name,
        digest.len() > 0,
        text::spaceless(digest),
        gap.len() > 0,
        text::blank(gap),
        name.len() > 0,
        text::spaceless(name),
        bare_name(name) == filename,
        forall|j: int|
            0 <= j < i ==> {
                let words = text::words_of(#[trigger] text::lines_of(content)[j]);
                words.len() != 2 || bare_name(words[1]) != filename
            },
    ensures
        listed_digest(content, filename) == Some(digest),
{
    text::lemma_two_words(digest, gap, name);
    assert forall|j: int| 0 <= j < i implies !lists(
        #[trigger] text::lines_of(content)[j],
        filename,
    ) by {
        let words = text::words_of(text::lines_of(content)[j]);
    }
    lemma_digest_text(text::lines_of(content), filename, content, i);
    text::lemma_one_word(digest);
}

/// However many stars mark it, and whatever directory it lies in, a name is taken for the bare name.
pub proof fn law_marked_name(directory: Seq<char>, before: nat, name: Seq<char>, after: nat)
    requires
        !name.contains('/'),
        name.len() > 0 ==> name[0] != '*' && name.last() != '*',
    ensures
        bare_name(Seq::new(before, |i: int| '*') + name + Seq::new(after, |i: int| '*')) == name,
        bare_name(
            directory.push('/') + (Seq::new(before, |i: int| '*') + name + Seq::new(
                after,
                |i: int| '*',
            )),
        ) == name,
{
    let marked = Seq::new(before, |i: int| '*') + name + Seq::new(after, |i: int| '*');
    assert forall|i: int| 0 <= i < marked.len() implies marked[i] != '/' by {
        if before <= i < before + name.len() {
            assert(name.contains(name[i - before]));
        }
    }
    text::lemma_after_last_of_sum(directory, '/', marked);
    text::law_trimmed('*', before, name, after);
}

/// The digest of a file is the first word of the first line of two words whose second word is the
/// file's name. Lines of other files, and lines of more or fewer words, before it make no difference.
pub proof fn law_digest_of_the_named_line(content: Seq<char>, filename: Seq<char>, i: int)
    requires
        0 <= i < text::lines_of(content).len(),
        text::words_of(text::lines_of(content)[i]).len() == 2,
        bare_name(text::words_of(text::lines_of(content)[i])[1]) == filename,
        forall|j: int|
            0 <= j < i ==> {
                let words = text::words_of(#[trigger] text::lines_of(content)[j]);
                words.len() != 2 || bare_name(words[1]) != filename
            },
    ensures
        listed_digest(content, filename) == Some(text::words_of(text::lines_of(content)[i])[0]),
{
    let line = text::lines_of(content)[i];
    assert forall|j: int| 0 <= j < i implies !lists(
        #[trigger] text::lines_of(content)[j],
        filename,
    ) by {
        let words = text::words_of(text::lines_of(content)[j]);
    }
    lemma_digest_text(text::lines_of(content), filename, content, i);
    text::law_word(line, 0);
    text::lemma_one_word(text::words_of(line)[0]);
}

proof fn lemma_no_line(lines: Seq<Seq<char>>, filename: Seq<char>, whole: Seq<char>)
    requires
        forall|j: int| 0 <= j < lines.len() ==> !lists(#[trigger] lines[j], filename),
    ensures
        digest_text(lines, filename, whole) == whole,
    decreases lines.len(),
{
    if lines.len() > 0 {
        assert(!lists(lines[0], filename));
        let rest = lines.skip(1);
        assert forall|j: int| 0 <= j < rest.len() implies !lists(#[trigger] rest[j], filename) by {
            assert(rest[j] == lines[j + 1]);
        }
        lemma_no_line(rest, filename, whole);
    }
}

/// A text that has no line of two words for the file gives its first word, if it has one.
pub proof fn law_digest_without_a_line(content: Seq<char>, filename: Seq<char>)
    requires
        forall|j: int|
            0 <= j < text::lines_of(content).len() ==> {
                let words = text::words_of(#[trigger] text::lines_of(content)[j]);
                words.len() != 2 || bare_name(words[1]) != filename
            },
    ensures
        text::words_of(content).len() > 0 ==> listed_digest(content, filename) == Some(
            text::words_of(content)[0],
        ),
        text::words_of(content).len() == 0 ==> listed_digest(content, filename) is None,
{
    assert forall|j: int| 0 <= j < text::lines_of(content).len() implies !lists(
        #[trigger] text::lines_of(content)[j],
        filename,
    ) by {
        let words = text::words_of(text::lines_of(content)[j]);
    }
    lemma_no_line(text::lines_of(content), filename, content);
}

/// A checksum file in any format but `regexp` is read as it stands.
pub proof fn law_plain_checksum_file(
    checksum: AquaChecksum,
    content: Seq<char>,
    filename: Seq<char>,
    digest: Seq<char>,
)
    requires
        checksum.file_format@ != "regexp"@,
    ensures
        listed_digest(content, filename) == Some(digest) ==> digest_of(checksum, content, filename)
            == DigestView::Digest(digest),
        listed_digest(content, filename) is None ==> digest_of(checksum, content, filename)
            == DigestView::NoDigest,
{
}

/// With a pattern for the digest alone, what its first group took of the whole text is read in the place
/// of the text; without a match the text itself is. A match without its group is an error, as is a
/// pattern that is no regular expression.
pub proof fn law_pattern_for_the_digest(
    checksum: AquaChecksum,
    pattern: AquaChecksumPattern,
    content: Seq<char>,
    filename: Seq<char>,
    part: Seq<char>,
    plain: AquaChecksum,
    why: Seq<char>,
)
    requires
        checksum.file_format@ == "regexp"@,
        checksum.pattern == Some(pattern),
        pattern.file is None,
        plain.file_format@ != "regexp"@,
    ensures
        pattern::regex_refusal(pattern.checksum@) == Some(why) ==> digest_of(
            checksum,
            content,
            filename,
        ) == DigestView::BadPattern(why),
        pattern::regex_refusal(pattern.checksum@) is None ==> {
            let found = pattern::regex_group(pattern.checksum@, content, 1);
            let read = digest_of(checksum, content, filename);
            &&& found == Some(Some(part)) ==> read == digest_of(plain, part, filename)
            &&& found == Some(None::<Seq<char>>) ==> read == DigestView::NoGroup
            &&& found is None ==> read == digest_of(plain, content, filename)
        },
{
}

proof fn lemma_file_line(lines: Seq<GroupedLine>, filename: Seq<char>, i: int)
    requires
        0 <= i <= lines.len(),
        forall|j: int|
            0 <= j < i ==> (#[trigger] lines[j]).1 != Some(None::<Seq<char>>) && lines[j].1 != Some(
                Some(filename),
            ),
    ensures
        file_line(lines, filename) == file_line(lines.skip(i), filename),
    decreases i,
{
    if i > 0 {
        assert(lines[0].1 != Some(None::<Seq<char>>) && lines[0].1 != Some(Some(filename)));
        let rest = lines.skip(1);
        assert forall|j: int| 0 <= j < i - 1 implies (#[trigger] rest[j]).1 != Some(
            None::<Seq<char>>,
        ) && rest[j].1 != Some(Some(filename)) by {
            assert(rest[j] == lines[j + 1]);
        }
        lemma_file_line(rest, filename, i - 1);
        assert(rest.skip(i - 1) == lines.skip(i));
    } else {
        assert(lines.skip(0) == lines);
    }
}

/// With a pattern for the file too, only the first line in which its first group took the file's name is
/// read, just as if it were the whole checksum file and there were no such pattern; where there is no
/// such line, the whole of it is. A match without its group, before that line, is an error.
pub proof fn law_pattern_for_the_file(
    checksum: AquaChecksum,
    pattern: AquaChecksumPattern,
    file: Seq<char>,
    content: Seq<char>,
    filename: Seq<char>,
    without: AquaChecksum,
    i: int,
    why: Seq<char>,
)
    requires
        checksum.file_format@ == "regexp"@,
        checksum.pattern == Some(pattern),
        pattern.file matches Some(text) && text@ == file,
        without.file_format@ == "regexp"@,
        without.pattern matches Some(other) && other.file is None && other.checksum@
            == pattern.checksum@,
        0 <= i <= text::lines_of(content).len(),
        forall|j: int|
            0 <= j < i ==> {
                let found = pattern::regex_group(file, #[trigger] text::lines_of(content)[j], 1);
                found != Some(None::<Seq<char>>) && found != Some(Some(filename))
            },
    ensures
        pattern::regex_refusal(file) == Some(why) ==> digest_of(checksum, content, filename)
            == DigestView::BadPattern(why),
        pattern::regex_refusal(file) is None ==> {
            let lines = text::lines_of(content);
            let read = digest_of(checksum, content, filename);
            &&& i < lines.len() && pattern::regex_group(file, lines[i], 1) == Some(Some(filename))
                ==> read == digest_of(without, lines[i], filename)
            &&& i < lines.len() && pattern::regex_group(file, lines[i], 1) == Some(
                None::<Seq<char>>,
            ) ==> read == DigestView::NoGroup
            &&& i == lines.len() ==> read == digest_of(without, content, filename)
        },
{
    let lines = text::lines_of(content);
    let all = line_groups(file, lines);
    assert forall|j: int| 0 <= j < i implies (#[trigger] all[j]).1 != Some(None::<Seq<char>>)
        && all[j].1 != Some(Some(filename)) by {
        let line = text::lines_of(content)[j];
    }
    lemma_file_line(all, filename, i);
    if i < lines.len() {
        assert(all.skip(i)[0] == all[i]);
    }
}

/// A checksum file in the format `regexp` cannot be read without patterns.
pub proof fn law_no_pattern(checksum: AquaChecksum, content: Seq<char>, filename: Seq<char>)
    requires
        checksum.file_format@ == "regexp"@,
        checksum.pattern is None,
    ensures
        digest_of(checksum, content, filename) == DigestView::NoPattern,
{
}

/// The line of a file is the first in which the pattern's first group took the file's name.
pub proof fn law_line_of_a_file(lines: Seq<GroupedLine>, filename: Seq<char>, i: int)
    requires
        0 <= i <= lines.len(),
        forall|j: int|
            0 <= j < i ==> (#[trigger] lines[j]).1 != Some(None::<Seq<char>>) && lines[j].1 != Some(
                Some(filename),
            ),
    ensures
        i < lines.len() && lines[i].1 == Some(Some(filename)) ==> file_line(lines, filename)
            == FileLineView::Found(lines[i].0),
        i < lines.len() && lines[i].1 == Some(None::<Seq<char>>) ==> file_line(lines, filename)
            == FileLineView::NoGroup,
        i == lines.len() ==> file_line(lines, filename) == FileLineView::Absent,
{
    lemma_file_line(lines, filename, i);
    if i < lines.len() {
        assert(lines.skip(i)[0] == lines[i]);
    }
}

/// What a pattern's group took is read in the place of the text.
pub proof fn law_digest_in_a_group(content: Seq<char>, part: Seq<char>, filename: Seq<char>)
    ensures
        digest_in_group(None, content, filename) == (match listed_digest(content, filename) {
            Some(digest) => DigestView::Digest(digest),
            None => DigestView::NoDigest,
        }),
        digest_in_group(Some(None), content, filename) == DigestView::NoGroup,
        digest_in_group(Some(Some(part)), content, filename) == (match listed_digest(
            part,
            filename,
        ) {
            Some(digest) => DigestView::Digest(digest),
            None => DigestView::NoDigest,
        }),
{
}

} // verus!
