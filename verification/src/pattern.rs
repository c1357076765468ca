//! Regular expressions, as the crate `regex` reads them.
use regex::Regex;
use vstd::prelude::*;

verus! {

/// `regex::Regex`: a compiled regular expression.
#[verifier::external_type_specification]
#[verifier::external_body]
pub struct ExRegex(regex::Regex);

/// `regex::Error`: why a text is no regular expression.
#[verifier::external_type_specification]
#[verifier::external_body]
pub struct ExRegexError(regex::Error);

/// What the error of `Regex::new` says of a text; nothing where `Regex::new` accepts the text.
pub uninterp spec fn regex_refusal(pattern: Seq<char>) -> Option<Seq<char>>;

/// Whether `Regex::new` accepts a text.
pub open spec fn regex_compiles(pattern: Seq<char>) -> bool {
    regex_refusal(pattern) is None
}

/// Whether `Regex::is_match`, of the expression that `Regex::new` makes of a text, finds a match.
pub uninterp spec fn regex_finds(pattern: Seq<char>, text: Seq<char>) -> bool;

/// What `Regex::captures`, of the expression that `Regex::new` makes of a text, finds: nothing, or
/// a match with the part that the given group took, where the group took part in it.
pub uninterp spec fn regex_group(pattern: Seq<char>, text: Seq<char>, group: nat) -> Option<
    Option<Seq<char>>,
>;

/// A compiled regular expression together with the text that it was compiled from. `compile` alone
/// makes one, so the two always belong together.
pub struct Pattern {
    text: String,
    regex: Regex,
}

impl View for Pattern {
    type V = Seq<char>;

    closed spec fn view(&self) -> Seq<char> {
        self.text@
    }
}

/// Why a text is no regular expression, together with what that says in words. `Pattern::compile`
/// alone makes one, so the two always belong together.
pub struct PatternError {
    error: regex::Error,
    message: String,
}

impl View for PatternError {
    type V = Seq<char>;

    closed spec fn view(&self) -> Seq<char> {
        self.message@
    }
}

impl PatternError {
    /// Why the text is no regular expression.
    pub closed spec fn cause(&self) -> regex::Error {
        self.error
    }

    /// Why the text is no regular expression.
    pub fn into_cause(self) -> (r: regex::Error)
        ensures
            r == self.cause(),
    {
        self.error
    }

    /// Why the text is no regular expression, in words.
    pub fn message(&self) -> (r: &str)
        ensures
            r@ == self@,
    {
        self.message.as_str()
    }
}

impl Pattern {
    /// `Regex::new`: compiles a text, or says why it is no regular expression.
    #[verifier::external_body]
    pub(crate) fn compile(text: &str) -> (r: Result<Pattern, PatternError>)
        ensures
            r is Ok <==> regex_refusal(text@) is None,
            r matches Ok(p) ==> p@ == text@,
            r matches Err(err) ==> regex_refusal(text@) == Some(err@),
    {
        Regex::new(text)
            .map(|regex| Pattern { text: text.to_string(), regex })
            .map_err(|error| PatternError { message: error.to_string(), error })
    }

    /// `Regex::is_match`: whether the expression matches somewhere in a text.
    #[verifier::external_body]
    pub(crate) fn is_match(&self, text: &str) -> (r: bool)
        ensures
            r == regex_finds(self@, text@),
    {
        self.regex.is_match(text)
    }

    /// `Regex::captures`, and `Captures::get` on what it finds: the part of the first match that a
    /// group took.
    #[verifier::external_body]
    pub(crate) fn group(&self, text: &str, group: usize) -> (r: Option<Option<String>>)
        ensures
            r is Some <==> regex_group(self@, text@, group as nat) is Some,
            r matches Some(part) ==> regex_group(self@, text@, group as nat) == Some(
                crate::text::opt_text(part),
            ),
    {
        self.regex.captures(text).map(|found| found.get(group).map(|part| part.as_str().to_string()))
    }
}

/// The characters that have a meaning of their own in a regular expression.
pub open spec fn is_meta(c: char) -> bool {
    c == '\\' || c == '.' || c == '+' || c == '*' || c == '?' || c == '(' || c == ')' || c == '|'
        || c == '[' || c == ']' || c == '{' || c == '}' || c == '^' || c == '$' || c == '#' || c
        == '&' || c == '-' || c == '~'
}

/// A text with a backslash before each of its characters that have a meaning of their own.
pub open spec fn escaped(text: Seq<char>) -> Seq<char>
    decreases text.len(),
{
    if text.len() == 0 {
        text
    } else if is_meta(text.last()) {
        escaped(text.drop_last()).push('\\').push(text.last())
    } else {
        escaped(text.drop_last()).push(text.last())
    }
}

/// `regex::escape`: puts a backslash before each character that has a meaning of its own.
#[verifier::external_body]
pub(crate) fn escape(text: &str) -> (r: String)
    ensures
        r@ == escaped(text@),
{
    regex::escape(text)
}

/// A text in which no character has a meaning of its own is its own escaped form.
pub proof fn lemma_plain_text_escapes_to_itself(text: Seq<char>)
    requires
        forall|i: int| 0 <= i < text.len() ==> !is_meta(#[trigger] text[i]),
    ensures
        escaped(text) == text,
    decreases text.len(),
{
    if text.len() > 0 {
        assert forall|i: int| 0 <= i < text.drop_last().len() implies !is_meta(
            #[trigger] text.drop_last()[i],
        ) by {
            assert(text.drop_last()[i] == text[i]);
        }
        lemma_plain_text_escapes_to_itself(text.drop_last());
        assert(text.drop_last().push(text.last()) == text);
    }
}

/// Escaping puts a backslash before each of the eighteen characters that have a meaning of their own,
/// and leaves every other character as it is.
pub proof fn law_escaped(text: Seq<char>, c: char)
    ensures
        escaped(Seq::empty()) == Seq::<char>::empty(),
        "\\.+*?()|[]{}^$#&-~"@.contains(c) ==> escaped(text.push(c)) == escaped(text) + seq!['\\', c],
        !"\\.+*?()|[]{}^$#&-~"@.contains(c) ==> escaped(text.push(c)) == escaped(text).push(c),
{
    let special = "\\.+*?()|[]{}^$#&-~"@;
    reveal_strlit("\\.+*?()|[]{}^$#&-~");
    assert(text.push(c).drop_last() == text);
    assert(special.len() == 18);
    assert(special[0] == '\\' && special[1] == '.' && special[2] == '+' && special[3] == '*'
        && special[4] == '?' && special[5] == '(' && special[6] == ')' && special[7] == '|'
        && special[8] == '[' && special[9] == ']' && special[10] == '{' && special[11] == '}'
        && special[12] == '^' && special[13] == '$' && special[14] == '#' && special[15] == '&'
        && special[16] == '-' && special[17] == '~');
    assert(is_meta(c) <==> special.contains(c));
    assert(escaped(text).push('\\').push(c) == escaped(text) + seq!['\\', c]);
}

} // verus!
