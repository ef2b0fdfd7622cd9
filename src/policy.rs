//! Automatic content policy: a message that contains a blacklisted word, or
//! matches a blacklisted pattern, earns its author a strike.

use crate::duration::{parse_parts, Duration};
use crate::model::{Guild, ModerationConfig};
use crate::moderation::{escalation_matches, records, unchanged, CommandError, Handler, StrikeOutcome};
use crate::store::active_count;
use crate::model::ActionType;
use vstd::prelude::*;
use vstd::string::*;

verus! {

#[verifier::external_type_specification]
#[verifier::external_body]
pub struct ExRegex(regex::Regex);

/// What `str::to_lowercase` makes of a text.
pub uninterp spec fn lower_of(s: Seq<char>) -> Seq<char>;

/// Whether `regex::Regex::new` accepts a pattern.
pub uninterp spec fn pattern_compiles(pattern: Seq<char>) -> bool;

/// Whether the regex compiled from `pattern` matches somewhere in `text`.
pub uninterp spec fn pattern_matches(pattern: Seq<char>, text: Seq<char>) -> bool;

/// Whether `needle` occurs in `hay`.
pub open spec fn contains_text(hay: Seq<char>, needle: Seq<char>) -> bool {
    exists|i: int| 0 <= i <= hay.len() - needle.len() && #[trigger] hay.subrange(i, i + needle.len()) == needle
}

/// Relies on `str::to_lowercase`, whose result depends on the text alone.
#[verifier::external_body]
fn lowercase(s: &str) -> (r: String)
    ensures
        r@ == lower_of(s@),
{
    s.to_lowercase()
}

/// Relies on `str::contains` with a `&str` pattern: true exactly when
/// `needle` is a sub-slice of `hay`.
#[verifier::external_body]
fn text_contains(hay: &str, needle: &str) -> (r: bool)
    ensures
        r == contains_text(hay@, needle@),
{
    hay.contains(needle)
}

/// A compiled pattern together with its source text. Only `compile_pattern`
/// makes one, so the regex is always the one compiled from `pattern`.
pub struct CompiledPattern {
    regex: regex::Regex,
    pattern: String,
}

impl CompiledPattern {
    pub closed spec fn pattern(&self) -> Seq<char> {
        self.pattern@
    }
}

/// Relies on `regex::Regex::new`, which fails exactly on the patterns it
/// rejects (invalid, or over the default size limit).
#[verifier::external_body]
fn compile_pattern(pattern: &String) -> (r: Option<CompiledPattern>)
    ensures
        r is Some <==> pattern_compiles(pattern@),
        r matches Some(c) ==> c.pattern() == pattern@,
{
    match regex::Regex::new(pattern) {
        Ok(regex) => Some(CompiledPattern { regex, pattern: pattern.clone() }),
        Err(_) => None,
    }
}

/// Relies on `regex::Regex::is_match`: whether the regex matches anywhere in
/// `text`.
#[verifier::external_body]
fn pattern_is_match(c: &CompiledPattern, text: &str) -> (r: bool)
    ensures
        r == pattern_matches(c.pattern(), text@),
{
    c.regex.is_match(text)
}

/// Whether `pattern` compiles and matches `text`.
pub open spec fn flags(pattern: Seq<char>, text: Seq<char>) -> bool {
    pattern_compiles(pattern) && pattern_matches(pattern, text)
}

pub open spec fn word_reason(word: Seq<char>) -> Seq<char> {
    "Blacklisted word: \""@ + word + "\""@
}

pub open spec fn regex_reason(pattern: Seq<char>) -> Seq<char> {
    "Blacklisted regex: \""@ + pattern + "\""@
}

/// Whether `i` is the first word of `words` that occurs in `lowered`.
pub open spec fn first_word(words: Seq<String>, lowered: Seq<char>, i: int) -> bool {
    &&& 0 <= i < words.len()
    &&& contains_text(lowered, words[i]@)
    &&& forall|k: int| 0 <= k < i ==> !contains_text(lowered, #[trigger] words[k]@)
}

/// Whether `j` is the first pattern of `patterns` that flags `text`.
pub open spec fn first_pattern(patterns: Seq<String>, text: Seq<char>, j: int) -> bool {
    &&& 0 <= j < patterns.len()
    &&& flags(patterns[j]@, text)
    &&& forall|k: int| 0 <= k < j ==> !flags(#[trigger] patterns[k]@, text)
}

/// The strike reason `content` earns under `mc`: a matching pattern names the
/// reason when there is one, else a blacklisted word (looked for in the
/// lowercased text), else there is none.
pub open spec fn violation(content: Seq<char>, mc: ModerationConfig, r: Option<String>) -> bool {
    let words = mc.blacklisted_words@;
    let patterns = mc.blacklisted_regex@;
    if exists|j: int| first_pattern(patterns, content, j) {
        exists|j: int| first_pattern(patterns, content, j) && r is Some && r.unwrap()@ == regex_reason(patterns[j]@)
    } else if exists|i: int| first_word(words, lower_of(content), i) {
        exists|i: int| first_word(words, lower_of(content), i) && r is Some && r.unwrap()@ == word_reason(words[i]@)
    } else {
        r is None
    }
}

fn quoted(prefix: &str, body: &String) -> (r: String)
    ensures
        r@ == prefix@ + body@ + "\""@,
{
    let mut r = String::from_str(prefix);
    r.append(body.as_str());
    r.append("\"");
    r
}

/// The strike reason `content` earns under `mc`, if any.
pub fn find_violation(content: &String, mc: &ModerationConfig) -> (r: Option<String>)
    ensures
        violation(content@, *mc, r),
{
    let ghost words = mc.blacklisted_words@;
    let ghost patterns = mc.blacklisted_regex@;
    let mut j: usize = 0;
    while j < mc.blacklisted_regex.len()
        invariant
            patterns == mc.blacklisted_regex@,
            j <= patterns.len(),
            forall|k: int| 0 <= k < j ==> !flags(#[trigger] patterns[k]@, content@),
        decreases patterns.len() - j,
    {
        let hit = match compile_pattern(&mc.blacklisted_regex[j]) {
            Some(c) => pattern_is_match(&c, content.as_str()),
            None => false,
        };
        if hit {
            assert(first_pattern(patterns, content@, j as int));
            proof {
                reveal_strlit("Blacklisted regex: \"");
            }
            let reason = quoted("Blacklisted regex: \"", &mc.blacklisted_regex[j]);
            assert(reason@ == regex_reason(patterns[j as int]@));
            assert(violation(content@, *mc, Some(reason)));
            return Some(reason);
        }
        j = j + 1;
    }
    assert(!exists|j: int| first_pattern(patterns, content@, j));
    let lowered = lowercase(content.as_str());
    let mut i: usize = 0;
    while i < mc.blacklisted_words.len()
        invariant
            words == mc.blacklisted_words@,
            patterns == mc.blacklisted_regex@,
            !exists|j: int| first_pattern(patterns, content@, j),
            lowered@ == lower_of(content@),
            i <= words.len(),
            forall|k: int| 0 <= k < i ==> !contains_text(lowered@, #[trigger] words[k]@),
        decreases words.len() - i,
    {
        if text_contains(lowered.as_str(), mc.blacklisted_words[i].as_str()) {
            assert(first_word(words, lowered@, i as int));
            proof {
                reveal_strlit("Blacklisted word: \"");
            }
            let reason = quoted("Blacklisted word: \"", &mc.blacklisted_words[i]);
            assert(reason@ == word_reason(words[i as int]@));
            assert(violation(content@, *mc, Some(reason)));
            return Some(reason);
        }
        i = i + 1;
    }
    assert forall|k: int| !first_word(words, lower_of(content@), k) by {
        if 0 <= k < words.len() {
            assert(!contains_text(lowered@, words[k]@));
        }
    }
    None
}

impl Handler {
    /// Applies the content policy to a message that `author_id` posted in
    /// `guild`. A violation earns the author a strike from the system, with the
    /// guild's default strike duration and the violation as its reason. `None`
    /// when the guild has no moderation policy or the message breaks no rule.
    pub fn on_message(&mut self, guild: &Guild, author_id: i64, content: &String, now: u64) -> (r: Result<
        Option<StrikeOutcome>,
        CommandError,
    >)
        requires
            old(self).wf(),
        ensures
            final(self).wf(),
            (r is Err || r matches Ok(None)) ==> unchanged(*old(self), *final(self)),
            guild.config.moderation is None ==> (r matches Ok(None)),
            guild.config.moderation matches Some(mc) ==> exists|reason: Option<String>|
                #[trigger] violation(content@, mc, reason) && (reason is None ==> (r matches Ok(None))) && (
                reason matches Some(text) ==> {
                    &&& old(self).bot_id == author_id ==> r == Err::<Option<StrikeOutcome>, CommandError>(
                        CommandError::SelfTarget,
                    )
                    &&& old(self).bot_id != author_id ==> exists|d: Duration|
                        #[trigger] d.parts() == parse_parts(mc.default_strike_duration@) && records(
                            *old(self),
                            *final(self),
                            match r {
                                Ok(Some(o)) => Ok(o.action),
                                Ok(None) => Err(CommandError::NotFound),
                                Err(e) => Err(e),
                            },
                            ActionType::Strike,
                            guild.id,
                            author_id,
                            text@,
                            old(self).bot_id,
                            Some(d),
                            now,
                        )
                    &&& r matches Ok(Some(o)) ==> escalation_matches(
                        o.escalation,
                        *guild,
                        active_count(final(self).actions@, author_id, guild.id, ActionType::Strike) as u64,
                    )
                }),
    {
        match &guild.config.moderation {
            None => Ok(None),
            Some(mc) => match find_violation(content, mc) {
                None => {
                    assert(violation(content@, *mc, None));
                    Ok(None)
                },
                Some(reason) => {
                    let ghost text = reason;
                    assert(violation(content@, *mc, Some(text)));
                    let d = Duration::new(mc.default_strike_duration.clone());
                    let ghost dd = d;
                    match self.strike(guild, author_id, reason, None, Some(d), now) {
                        Ok(o) => Ok(Some(o)),
                        Err(e) => Err(e),
                    }
                },
            },
        }
    }
}

} // verus!
