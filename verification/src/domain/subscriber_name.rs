//! A subscriber's display name: non-blank, at most 256 grapheme clusters,
//! and free of characters that could be abused in rendered or quoted contexts.

use unicode_segmentation::UnicodeSegmentation;
use vstd::prelude::*;

verus! {

/// Upper bound on the length of a name, counted in grapheme clusters.
pub const NAME_MAX_GRAPHEMES: usize = 256;

/// Number of extended grapheme clusters in a string, as the Unicode text
/// segmentation rules define them. The value depends on the characters alone.
pub uninterp spec fn grapheme_count(s: Seq<char>) -> nat;

/// Relies on `unicode_segmentation::UnicodeSegmentation::graphemes` (with
/// extended grapheme clusters) to segment the string; only the cluster count
/// is used.
#[verifier::external_body]
fn count_graphemes(s: &str) -> (r: usize)
    ensures
        r == grapheme_count(s@),
{
    s.graphemes(true).count()
}

/// The characters of the Unicode `White_Space` property, which is what
/// `str::trim` strips from both ends of a string.
pub open spec fn whitespace_char(c: char) -> bool {
    ||| c == '\u{0009}'
    ||| c == '\u{000A}'
    ||| c == '\u{000B}'
    ||| c == '\u{000C}'
    ||| c == '\u{000D}'
    ||| c == ' '
    ||| c == '\u{0085}'
    ||| c == '\u{00A0}'
    ||| c == '\u{1680}'
    ||| ('\u{2000}' <= c && c <= '\u{200A}')
    ||| c == '\u{2028}'
    ||| c == '\u{2029}'
    ||| c == '\u{202F}'
    ||| c == '\u{205F}'
    ||| c == '\u{3000}'
}

/// A name is blank when trimming it leaves nothing, i.e. every character is
/// whitespace; the empty string is blank as well.
pub open spec fn blank(s: Seq<char>) -> bool {
    forall|i: int| 0 <= i < s.len() ==> whitespace_char(#[trigger] s[i])
}

/// Characters a name must not contain.
pub open spec fn forbidden_name_char(c: char) -> bool {
    ||| c == '/'
    ||| c == '('
    ||| c == ')'
    ||| c == '['
    ||| c == ']'
    ||| c == '{'
    ||| c == '}'
    ||| c == '"'
    ||| c == '<'
    ||| c == '>'
    ||| c == '\\'
    ||| c == '|'
    ||| c == '`'
    ||| c == '$'
    ||| c == ';'
    ||| c == ':'
    ||| c == '.'
    ||| c == ','
}

pub open spec fn has_forbidden_name_char(s: Seq<char>) -> bool {
    exists|i: int| 0 <= i < s.len() && forbidden_name_char(#[trigger] s[i])
}

/// What it takes for a string to be a valid subscriber name.
pub open spec fn name_ok(s: Seq<char>) -> bool {
    &&& !blank(s)
    &&& grapheme_count(s) <= NAME_MAX_GRAPHEMES
    &&& !has_forbidden_name_char(s)
}

fn exec_whitespace_char(c: char) -> (r: bool)
    ensures
        r == whitespace_char(c),
{
    c == '\u{0009}' || c == '\u{000A}' || c == '\u{000B}' || c == '\u{000C}' || c == '\u{000D}'
        || c == ' ' || c == '\u{0085}' || c == '\u{00A0}' || c == '\u{1680}' || ('\u{2000}' <= c
        && c <= '\u{200A}') || c == '\u{2028}' || c == '\u{2029}' || c == '\u{202F}' || c
        == '\u{205F}' || c == '\u{3000}'
}

fn exec_forbidden_name_char(c: char) -> (r: bool)
    ensures
        r == forbidden_name_char(c),
{
    c == '/' || c == '(' || c == ')' || c == '[' || c == ']' || c == '{' || c == '}' || c == '"'
        || c == '<' || c == '>' || c == '\\' || c == '|' || c == '`' || c == '$' || c == ';' || c
        == ':' || c == '.' || c == ','
}

fn exec_blank(s: &str) -> (r: bool)
    ensures
        r == blank(s@),
{
    let n = s.unicode_len();
    let mut i: usize = 0;
    while i < n
        invariant
            n == s@.len(),
            0 <= i <= n,
            forall|j: int| 0 <= j < i ==> whitespace_char(#[trigger] s@[j]),
        decreases n - i,
    {
        if !exec_whitespace_char(s.get_char(i)) {
            return false;
        }
        i = i + 1;
    }
    true
}

fn exec_has_forbidden(s: &str) -> (r: bool)
    ensures
        r == has_forbidden_name_char(s@),
{
    let n = s.unicode_len();
    let mut i: usize = 0;
    while i < n
        invariant
            n == s@.len(),
            0 <= i <= n,
            forall|j: int| 0 <= j < i ==> !forbidden_name_char(#[trigger] s@[j]),
        decreases n - i,
    {
        if exec_forbidden_name_char(s.get_char(i)) {
            return true;
        }
        i = i + 1;
    }
    false
}

/// The full name check: not blank, not over the grapheme budget, and free of
/// forbidden characters.
fn validate_subscriber_name(s: &str) -> (r: bool)
    ensures
        r == name_ok(s@),
{
    if exec_blank(s) {
        return false;
    }
    if count_graphemes(s) > NAME_MAX_GRAPHEMES {
        return false;
    }
    if exec_has_forbidden(s) {
        return false;
    }
    true
}

/// A display name that passed validation on construction.
#[derive(Debug)]
pub struct SubscriberName {
    name: String,
}

impl View for SubscriberName {
    type V = Seq<char>;

    closed spec fn view(&self) -> Seq<char> {
        self.name@
    }
}

impl SubscriberName {
    /// The characters a valid name is made of.
    pub open spec fn wf(&self) -> bool {
        name_ok(self@)
    }

    /// Accept `value` as a subscriber name, or report why it is not one.
    pub fn try_from(value: String) -> (r: Result<SubscriberName, String>)
        ensures
            r is Ok <==> name_ok(value@),
            r matches Ok(n) ==> n@ == value@ && n.wf(),
            r matches Err(m) ==> m@ == value@ + " is not a valid subscriber name"@,
    {
        if validate_subscriber_name(value.as_str()) {
            Ok(SubscriberName { name: value })
        } else {
            let mut message = value;
            message.append(" is not a valid subscriber name");
            Err(message)
        }
    }

    /// The underlying string.
    pub fn as_ref(&self) -> (r: &str)
        ensures
            r@ == self@,
    {
        self.name.as_str()
    }
}

} // verus!
