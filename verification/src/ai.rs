//! Branch names: the question put to the suggester, what is made of its
//! answer, and the name that is derived from the description alone.

use crate::text::{
    chars_of, lemma_pieces_len, lemma_strip, lemma_strip_end, lemma_strip_start, pieces,
    slice_string, split, strip, strip_end, strip_start, trim, trim_end_matches, trim_matches,
    CharClass,
};
use vstd::prelude::*;
use vstd::string::*;

verus! {

/// What every question to the suggester begins with.
pub const PROMPT_HEAD: &'static str =
    "Suggest exactly one git branch name for the following implementation.\n\
     Rules:\n\
     - kebab-case\n\
     - English\n\
     - Short and concise (2-4 words)\n\
     - Use prefix: feat/, fix/, refactor/, etc.\n\
     - Output only the branch name (no explanation)\n\
     \n\
     Implementation: ";

/// What introduces the feedback in a question to the suggester.
pub const PROMPT_FEEDBACK: &'static str = "\n\nFeedback on previous suggestion: ";

/// The question to the suggester: the rules, the description, and the
/// feedback on the suggestion before, if there is any.
pub open spec fn prompt_text(description: Seq<char>, feedback: Seq<char>) -> Seq<char> {
    if feedback.len() == 0 {
        PROMPT_HEAD@ + description
    } else {
        PROMPT_HEAD@ + description + PROMPT_FEEDBACK@ + feedback
    }
}

/// Writes the question to the suggester.
pub fn build_prompt(description: &str, feedback: &str) -> (prompt: String)
    ensures
        prompt@ == prompt_text(description@, feedback@),
{
    let mut prompt = String::from_str(PROMPT_HEAD);
    prompt.append(description);
    if !feedback.is_empty() {
        prompt.append(PROMPT_FEEDBACK);
        prompt.append(feedback);
    }
    prompt
}

/// An ASCII letter or digit.
pub open spec fn is_alnum(c: char) -> bool {
    ('0' <= c <= '9') || ('a' <= c <= 'z') || ('A' <= c <= 'Z')
}

/// `c` itself if it is an ASCII letter or digit, a hyphen if not.
pub open spec fn dashed(c: char) -> char {
    if is_alnum(c) {
        c
    } else {
        '-'
    }
}

/// `s` with a hyphen in place of each character that is no ASCII letter or digit.
pub open spec fn hyphenated(s: Seq<char>) -> Seq<char> {
    s.map_values(|c: char| dashed(c))
}

/// `s` with each run of hyphens made one hyphen.
pub open spec fn collapsed(s: Seq<char>) -> Seq<char>
    decreases s.len(),
{
    if s.len() == 0 {
        Seq::empty()
    } else if s.len() >= 2 && s.last() == '-' && s[s.len() - 2] == '-' {
        collapsed(s.drop_last())
    } else {
        collapsed(s.drop_last()).push(s.last())
    }
}

/// At most the first `limit` characters of `s`.
pub open spec fn truncated(s: Seq<char>, limit: nat) -> Seq<char> {
    if s.len() > limit {
        s.take(limit as int)
    } else {
        s
    }
}

/// The most characters that a derived name keeps of the description.
pub const SLUG_LIMIT: usize = 40;

/// The words of a lower-cased description, joined by hyphens: every run of
/// other characters becomes one hyphen, none stands at either end, and what
/// goes beyond `SLUG_LIMIT` characters is cut off.
pub open spec fn slug(lower: Seq<char>) -> Seq<char> {
    strip_end(
        truncated(strip(collapsed(hyphenated(lower)), CharClass::Only('-')), SLUG_LIMIT as nat),
        CharClass::Only('-'),
    )
}

/// The branch name derived from a lower-cased description.
pub open spec fn fallback_name(lower: Seq<char>) -> Seq<char> {
    "feat/"@ + slug(lower)
}

/// Collapsing keeps the last character, leaves no two hyphens side by side,
/// and brings in no character that was not there.
pub proof fn lemma_collapsed(s: Seq<char>)
    ensures
        collapsed(s).len() <= s.len(),
        collapsed(s).len() > 0 <==> s.len() > 0,
        s.len() > 0 ==> collapsed(s).last() == s.last(),
        forall|i: int|
            0 <= i < collapsed(s).len() - 1 ==> !(#[trigger] collapsed(s)[i] == '-' && collapsed(
                s,
            )[i + 1] == '-'),
        forall|i: int| 0 <= i < collapsed(s).len() ==> s.contains(#[trigger] collapsed(s)[i]),
    decreases s.len(),
{
    if s.len() > 0 {
        lemma_collapsed(s.drop_last());
    }
}

/// The words of a description are joined by single hyphens: its slug holds
/// ASCII letters, digits and hyphens only, never two hyphens side by side,
/// and none at either end; it is at most `SLUG_LIMIT` characters long.
pub proof fn lemma_slug_shape(lower: Seq<char>)
    ensures
        slug(lower).len() <= SLUG_LIMIT,
        forall|i: int|
            0 <= i < slug(lower).len() ==> is_alnum(#[trigger] slug(lower)[i]) || slug(lower)[i]
                == '-',
        forall|i: int|
            0 <= i < slug(lower).len() - 1 ==> !(#[trigger] slug(lower)[i] == '-' && slug(
                lower,
            )[i + 1] == '-'),
        slug(lower).len() > 0 ==> slug(lower)[0] != '-' && slug(lower).last() != '-',
{
    let dash = CharClass::Only('-');
    let joined = collapsed(hyphenated(lower));
    let inner = strip_start(joined, dash);
    let stripped = strip(joined, dash);
    let cut = truncated(stripped, SLUG_LIMIT as nat);
    lemma_collapsed(hyphenated(lower));
    lemma_strip_start(joined, dash);
    lemma_strip_end(inner, dash);
    lemma_strip(joined, dash);
    lemma_strip_end(cut, dash);
}

/// A derived name begins with `feat/`, holds at most `SLUG_LIMIT`
/// characters after that, and never ends with a hyphen.
pub proof fn lemma_fallback_shape(lower: Seq<char>)
    ensures
        fallback_name(lower).len() <= 5 + SLUG_LIMIT,
        fallback_name(lower).len() >= 5,
        fallback_name(lower).take(5) == "feat/"@,
        fallback_name(lower).skip(5) == slug(lower),
        fallback_name(lower).last() != '-',
{
    reveal_strlit("feat/");
    lemma_slug_shape(lower);
}

/// Whether `c` is an ASCII letter or digit.
pub fn is_ascii_alphanumeric(c: char) -> (b: bool)
    ensures
        b == is_alnum(c),
{
    ('0' <= c && c <= '9') || ('a' <= c && c <= 'z') || ('A' <= c && c <= 'Z')
}

/// Hyphenates `s` and makes each run of hyphens one.
fn kebab(s: &str) -> (out: String)
    ensures
        out@ == collapsed(hyphenated(s@)),
{
    let v = chars_of(s);
    let mut out = String::new();
    let mut after_dash = false;
    let mut i: usize = 0;
    while i < v.len()
        invariant
            i <= v.len(),
            out@ == collapsed(hyphenated(v@.take(i as int))),
            after_dash == (i > 0 && dashed(v@[i - 1]) == '-'),
        decreases v.len() - i,
    {
        let c = if is_ascii_alphanumeric(v[i]) {
            v[i]
        } else {
            '-'
        };
        proof {
            let now = hyphenated(v@.take(i + 1));
            assert(now.drop_last() == hyphenated(v@.take(i as int)));
        }
        if !(c == '-' && after_dash) {
            out.push(c);
        }
        after_dash = c == '-';
        i += 1;
    }
    assert(v@.take(v.len() as int) == v@);
    out
}

/// The branch name derived from a description that is already in lower case.
pub fn branch_name_from(lower: &str) -> (name: String)
    ensures
        name@ == fallback_name(lower@),
        name@.len() <= 5 + SLUG_LIMIT,
        name@.take(5) == "feat/"@,
        name@.last() != '-',
{
    let joined = kebab(lower);
    let stripped = trim_matches(joined.as_str(), CharClass::Only('-'));
    let v = chars_of(stripped.as_str());
    let cut = if v.len() > SLUG_LIMIT {
        slice_string(&v, 0, SLUG_LIMIT)
    } else {
        assert(v@.subrange(0, v.len() as int) == v@);
        slice_string(&v, 0, v.len())
    };
    let tail = trim_end_matches(cut.as_str(), CharClass::Only('-'));
    let mut name = String::from_str("feat/");
    name.append(tail.as_str());
    proof {
        lemma_fallback_shape(lower@);
    }
    name
}

/// The lower-case equivalent of a string, as Unicode defines it.
pub uninterp spec fn lowercase(s: Seq<char>) -> Seq<char>;

/// `str::to_lowercase` of std: the lower-case equivalent of `s` by the
/// Unicode rules that std carries, which depend on `s` alone.
#[verifier::external_body]
fn to_lowercase(s: &str) -> (lower: String)
    ensures
        lower@ == lowercase(s@),
{
    s.to_lowercase()
}

/// The branch name derived from `description` alone: `feat/` and the
/// description's words in lower case, joined by hyphens.
pub fn fallback_branch_name(description: &str) -> (name: String)
    ensures
        name@ == fallback_name(lowercase(description@)),
        name@.len() <= 5 + SLUG_LIMIT,
        name@.take(5) == "feat/"@,
        name@.last() != '-',
{
    let lower = to_lowercase(description);
    branch_name_from(lower.as_str())
}

/// What the suggester proposes: the first line of its output, without the
/// white space round it.
pub open spec fn proposal(output: Seq<char>) -> Seq<char> {
    strip(pieces(output, CharClass::Only('\n'))[0], CharClass::Space)
}

/// The name to offer, given the derived name and what the suggester printed,
/// if it ran and succeeded: its proposal, unless that is empty.
pub open spec fn offered_name(fallback: Seq<char>, output: Option<Seq<char>>) -> Seq<char> {
    match output {
        Some(text) => if proposal(text).len() > 0 {
            proposal(text)
        } else {
            fallback
        },
        None => fallback,
    }
}

/// The suggester's proposal in `output`; none where it is empty.
pub fn read_proposal(output: &str) -> (name: Option<String>)
    ensures
        name matches Some(n) ==> n@ == proposal(output@) && n@.len() > 0,
        name is None ==> proposal(output@).len() == 0,
{
    let lines = split(output, CharClass::Only('\n'));
    proof {
        lemma_pieces_len(output@, CharClass::Only('\n'));
    }
    let first = trim(lines[0].as_str());
    if first.as_str().is_empty() {
        None
    } else {
        Some(first)
    }
}

/// The branch name to offer for `description`. `output` is what the
/// suggester printed, or nothing if it is absent or failed; an absent
/// suggester, a failed one and an empty proposal all give the derived name.
pub fn generate_branch_name(description: &str, output: Option<&str>) -> (name: String)
    ensures
        name@ == offered_name(
            fallback_name(lowercase(description@)),
            match output {
                Some(text) => Some(text@),
                None => None,
            },
        ),
{
    match output {
        Some(text) => match read_proposal(text) {
            Some(name) => name,
            None => fallback_branch_name(description),
        },
        None => fallback_branch_name(description),
    }
}

} // verus!
