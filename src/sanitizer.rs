//! Erases excluded words from raw page text before it is parsed.
//!
//! All excluded words are combined into one case-insensitive alternation,
//! bounded by word boundaries, in which any run of whitespace may stand
//! before each character of a word: "w o r d" is caught as well as "word".
use crate::error::Error;
use vstd::prelude::*;

verus! {

#[verifier::external_type_specification]
#[verifier::external_body]
pub struct ExRegex(regex::Regex);

/// Whether `regex::Regex::new` accepts the pattern (its syntax, and the
/// default size limit of the compiled program).
pub uninterp spec fn regex_accepts(pattern: Seq<char>) -> bool;

/// The text with every match of the pattern, searched for from left to right
/// without overlap, replaced by nothing.
pub uninterp spec fn regex_erased(pattern: Seq<char>, text: Seq<char>) -> Seq<char>;

/// A compiled regular expression, kept together with the pattern it was
/// compiled from. Only `compile_regex` builds one.
pub struct ExclusionRegex {
    pattern: String,
    regex: regex::Regex,
}

impl ExclusionRegex {
    /// The pattern that was compiled.
    pub closed spec fn pattern(&self) -> Seq<char> {
        self.pattern@
    }
}

/// Relies on `regex::Regex::new`: it compiles the pattern or refuses it, as a
/// function of the pattern alone.
#[verifier::external_body]
fn compile_regex(pattern: String) -> (r: Option<ExclusionRegex>)
    ensures
        r is Some <==> regex_accepts(pattern@),
        r matches Some(x) ==> x.pattern() == pattern@,
{
    match regex::Regex::new(&pattern) {
        Ok(regex) => Some(ExclusionRegex { pattern, regex }),
        Err(_) => None,
    }
}

/// Relies on `regex::Regex::replace_all` with an empty replacement: every
/// match of the compiled pattern is erased from the text.
#[verifier::external_body]
fn erase_matches(re: &ExclusionRegex, text: &str) -> (r: String)
    ensures
        r@ == regex_erased(re.pattern(), text@),
{
    re.regex.replace_all(text, "").into_owned()
}

/// The characters that carry a meaning in the regex syntax and are escaped
/// with a backslash to stand for themselves.
pub open spec fn is_meta(c: char) -> bool {
    c == '\\' || c == '.' || c == '+' || c == '*' || c == '?' || c == '(' || c == ')' || c == '|'
        || c == '[' || c == ']' || c == '{' || c == '}' || c == '^' || c == '$' || c == '#'
        || c == '&' || c == '-' || c == '~'
}

/// A single character as a literal of the regex syntax.
pub open spec fn literal_char(c: char) -> Seq<char> {
    if is_meta(c) {
        seq!['\\', c]
    } else {
        seq![c]
    }
}

/// A word as a pattern in which whitespace may precede each character.
pub open spec fn spaced_word(w: Seq<char>) -> Seq<char>
    decreases w.len(),
{
    if w.len() == 0 {
        seq![]
    } else {
        spaced_word(w.drop_last()) + seq!['\\', 's', '*'] + literal_char(w.last())
    }
}

/// The spaced patterns of all words, separated by `|`.
pub open spec fn alternation(ws: Seq<Seq<char>>) -> Seq<char>
    decreases ws.len(),
{
    if ws.len() == 0 {
        seq![]
    } else if ws.len() == 1 {
        spaced_word(ws[0])
    } else {
        alternation(ws.drop_last()) + seq!['|'] + spaced_word(ws.last())
    }
}

/// The one pattern that matches any excluded word: case-insensitive, between
/// word boundaries.
pub open spec fn exclusion_pattern(ws: Seq<Seq<char>>) -> Seq<char> {
    seq!['(', '?', 'i', ')', '\\', 'b', '(', '?', ':'] + alternation(ws) + seq![')', '\\', 'b']
}

/// The views of a list of strings.
pub open spec fn views(ws: Seq<String>) -> Seq<Seq<char>> {
    ws.map_values(|w: String| w@)
}

/// The sanitised page: unchanged when no word is excluded, the page with every
/// match of the exclusion pattern erased when that pattern compiles, and
/// nothing when it does not.
pub open spec fn sanitized(html: Seq<char>, ws: Seq<Seq<char>>) -> Option<Seq<char>> {
    if ws.len() == 0 {
        Some(html)
    } else if regex_accepts(exclusion_pattern(ws)) {
        Some(regex_erased(exclusion_pattern(ws), html))
    } else {
        None
    }
}

/// With no excluded word, sanitising returns the page unchanged.
pub proof fn lemma_no_words_identity(html: Seq<char>)
    ensures
        sanitized(html, Seq::<Seq<char>>::empty()) == Some(html),
{
}

/// Whether a character is a regex meta character.
pub fn is_meta_char(c: char) -> (r: bool)
    ensures
        r == is_meta(c),
{
    c == '\\' || c == '.' || c == '+' || c == '*' || c == '?' || c == '(' || c == ')' || c == '|'
        || c == '[' || c == ']' || c == '{' || c == '}' || c == '^' || c == '$' || c == '#'
        || c == '&' || c == '-' || c == '~'
}

/// Appends `\s*` and the character `word[i]`, escaped where needed. For an
/// ASCII word the character is read in constant time.
fn push_spaced_char(out: &mut String, word: &str, ascii: bool, i: usize)
    requires
        i < word@.len() <= usize::MAX,
        ascii == word.is_ascii(),
    ensures
        final(out)@ == old(out)@ + seq!['\\', 's', '*'] + literal_char(word@[i as int]),
{
    let c = if ascii {
        let b = word.get_ascii(i);
        proof {
            let c = word@[i as int];
            assert('\0' <= c <= '\u{7f}');
            assert(c as u8 == b);
        }
        b as char
    } else {
        word.get_char(i)
    };
    assert(c == word@[i as int]);
    let one = if ascii {
        word.substring_ascii(i, i + 1)
    } else {
        word.substring_char(i, i + 1)
    };
    assert(one@ =~= seq![c]);
    proof {
        reveal_strlit("\\s*");
        reveal_strlit("\\");
    }
    out.append("\\s*");
    if is_meta_char(c) {
        out.append("\\");
    }
    out.append(one);
    assert(final(out)@ =~= old(out)@ + seq!['\\', 's', '*'] + literal_char(c));
}

/// The pattern of one word, with whitespace allowed before each character.
pub fn spaced_word_pattern(word: &str) -> (r: String)
    ensures
        r@ == spaced_word(word@),
{
    let n = word.unicode_len();
    let ascii = word.is_ascii();
    let mut r = String::new();
    let mut i: usize = 0;
    while i < n
        invariant
            n == word@.len(),
            ascii == word.is_ascii(),
            i <= n,
            r@ == spaced_word(word@.take(i as int)),
        decreases n - i,
    {
        push_spaced_char(&mut r, word, ascii, i);
        assert(word@.take(i + 1).drop_last() =~= word@.take(i as int));
        i += 1;
    }
    assert(word@.take(n as int) =~= word@);
    r
}

/// The exclusion pattern of a word list.
pub fn build_pattern(words: &Vec<String>) -> (r: String)
    ensures
        r@ == exclusion_pattern(views(words@)),
{
    proof {
        reveal_strlit("(?i)\\b(?:");
        reveal_strlit("|");
        reveal_strlit(")\\b");
    }
    let mut alt = String::new();
    let mut i: usize = 0;
    while i < words.len()
        invariant
            i <= words@.len(),
            alt@ == alternation(views(words@).take(i as int)),
        decreases words@.len() - i,
    {
        let ghost before = alt@;
        if i > 0 {
            proof {
                reveal_strlit("|");
                assert("|"@ =~= seq!['|']);
            }
            alt.append("|");
        }
        let w = spaced_word_pattern(words[i].as_str());
        alt.append(w.as_str());
        proof {
            let vs = views(words@);
            assert(vs.take(i + 1).drop_last() =~= vs.take(i as int));
            assert(vs.take(i + 1).last() == words@[i as int]@);
            if i == 0 {
                assert(before =~= Seq::<char>::empty());
                assert(alt@ =~= spaced_word(vs.take(1)[0]));
            } else {
                assert(alt@ =~= before + seq!['|'] + w@);
            }
        }
        i += 1;
    }
    assert(views(words@).take(words@.len() as int) =~= views(words@));
    let r = String::from_str("(?i)\\b(?:");
    let r = r.concat(alt.as_str());
    let r = r.concat(")\\b");
    assert(r@ =~= exclusion_pattern(views(words@)));
    r
}

/// Erases every excluded word from a page. With no excluded word the page is
/// returned as it is; a pattern that the regex engine refuses is an error that
/// carries the pattern.
pub fn sanitize(html: String, words: &Vec<String>) -> (r: Result<String, Error>)
    ensures
        sanitized(html@, views(words@)) matches Some(s) ==> (r matches Ok(t) && t@ == s),
        sanitized(html@, views(words@)) is None ==> (r matches Err(Error::SanitizeError {
            pattern,
        }) && pattern@ == exclusion_pattern(views(words@))),
{
    if words.len() == 0 {
        return Ok(html);
    }
    let pattern = build_pattern(words);
    match compile_regex(pattern) {
        Some(re) => Ok(erase_matches(&re, html.as_str())),
        None => {
            let pattern = build_pattern(words);
            Err(Error::SanitizeError { pattern })
        },
    }
}

} // verus!
