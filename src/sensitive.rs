//! Matching of file contents against the sensitive-data patterns (e-mail
//! addresses, social security and card numbers, passwords, API keys).
use vstd::prelude::*;

verus! {

#[verifier::external_type_specification]
#[verifier::external_body]
pub struct ExRegex(regex::Regex);

#[verifier::external_type_specification]
#[verifier::external_body]
pub struct ExRegexError(regex::Error);

/// Whether `pattern` is a regular expression that the regex crate compiles.
pub uninterp spec fn regex_compiles(pattern: Seq<char>) -> bool;

/// Text of the leftmost-first match of `pattern` in `text`, if any.
pub uninterp spec fn regex_first_match(pattern: Seq<char>, text: Seq<char>) -> Option<Seq<char>>;

/// Relies on `regex::Regex::new`: compiling succeeds exactly for the
/// patterns that it accepts.
#[verifier::external_body]
fn compile_regex(source: &str) -> (r: Result<regex::Regex, regex::Error>)
    ensures
        r is Ok <==> regex_compiles(source@),
{
    regex::Regex::new(source)
}

/// The six patterns, in the order in which they are tried.
pub open spec fn default_pattern_sources() -> Seq<Seq<char>> {
    seq![
        r"\b[A-Z0-9._%+-]+@[A-Z0-9.-]+\.[A-Z]{2,}\b"@,
        r"\b\d{3}-\d{2}-\d{4}\b"@,
        r"\b\d{4}[- ]?\d{4}[- ]?\d{4}[- ]?\d{4}\b"@,
        r"(?i)password.*=.*"@,
        r"\b(?:\d[ -]*?){13,16}\b"@,
        r"(?i)(api[_-]?key|secret[_-]?key).*=.*"@,
    ]
}

/// A compiled pattern together with its source text.
pub struct Pattern {
    source: String,
    compiled: regex::Regex,
}

impl Pattern {
    pub closed spec fn source_view(&self) -> Seq<char> {
        self.source@
    }

    /// Compiles `source`; `None` when it is not a valid regular expression.
    pub fn new(source: &str) -> (r: Option<Pattern>)
        ensures
            r is Some <==> regex_compiles(source@),
            r matches Some(p) ==> p.source_view() == source@,
    {
        match compile_regex(source) {
            Ok(compiled) => Some(Pattern { source: source.to_string(), compiled }),
            Err(_) => None,
        }
    }

    /// The pattern's source text.
    pub fn source(&self) -> (r: &String)
        ensures
            r@ == self.source_view(),
    {
        &self.source
    }
}

/// Relies on `regex::Regex::find` and `Match::as_str`: the text of the
/// leftmost-first match of the pattern in `text`. The pattern was compiled
/// from its source by `Pattern::new`, the only way to make one.
#[verifier::external_body]
fn first_match(p: &Pattern, text: &str) -> (r: Option<String>)
    ensures
        r matches Some(m) ==> regex_first_match(p.source_view(), text@) == Some(m@),
        r is None ==> regex_first_match(p.source_view(), text@) is None,
{
    p.compiled.find(text).map(|m| m.as_str().to_string())
}

/// A pattern that matched, and the text it matched.
pub struct SensitiveMatch {
    pub pattern_type: String,
    pub matched_content: String,
}

pub open spec fn match_view(m: SensitiveMatch) -> (Seq<char>, Seq<char>) {
    (m.pattern_type@, m.matched_content@)
}

/// For each pattern in order that matches `text`: the pattern and its first match.
pub open spec fn text_matches(ps: Seq<Seq<char>>, text: Seq<char>) -> Seq<(Seq<char>, Seq<char>)>
    decreases ps.len(),
{
    if ps.len() == 0 {
        seq![]
    } else {
        text_matches(ps.drop_last(), text) + match regex_first_match(ps.last(), text) {
            Some(m) => seq![(ps.last(), m)],
            None => seq![],
        }
    }
}

/// `text_matches` of each text in order, one after the other.
pub open spec fn all_matches(ps: Seq<Seq<char>>, texts: Seq<Seq<char>>) -> Seq<
    (Seq<char>, Seq<char>),
>
    decreases texts.len(),
{
    if texts.len() == 0 {
        seq![]
    } else {
        all_matches(ps, texts.drop_last()) + text_matches(ps, texts.last())
    }
}

/// The sensitive-data patterns that file contents are checked against.
pub struct SensitivePatterns {
    patterns: Vec<Pattern>,
}

/// A pattern source that does not compile.
#[derive(Debug, Clone)]
pub struct PatternError {
    pub pattern: String,
}

impl SensitivePatterns {
    pub closed spec fn sources(&self) -> Seq<Seq<char>> {
        self.patterns@.map_values(|p: Pattern| p.source_view())
    }

    /// Compiles `sources` in order; the error names the first that fails.
    pub fn from_sources(sources: &Vec<String>) -> (r: Result<SensitivePatterns, PatternError>)
        ensures
            r is Ok <==> forall|k: int| 0 <= k < sources@.len() ==> regex_compiles(#[trigger] sources@[k]@),
            r matches Ok(s) ==> s.sources() == sources@.map_values(|x: String| x@),
            r matches Err(e) ==> exists|k: int|
                0 <= k < sources@.len() && e.pattern@ == #[trigger] sources@[k]@ && !regex_compiles(sources@[k]@),
    {
        let mut patterns: Vec<Pattern> = Vec::new();
        let mut i: usize = 0;
        while i < sources.len()
            invariant
                i <= sources@.len(),
                patterns@.len() == i,
                forall|k: int| 0 <= k < i ==> regex_compiles(#[trigger] sources@[k]@),
                forall|k: int| 0 <= k < i ==> #[trigger] patterns@[k].source_view() == sources@[k]@,
            decreases sources@.len() - i,
        {
            match Pattern::new(sources[i].as_str()) {
                Some(p) => patterns.push(p),
                None => {
                    return Err(PatternError { pattern: sources[i].clone() });
                },
            }
            i = i + 1;
        }
        let r = SensitivePatterns { patterns };
        assert(r.sources() =~= sources@.map_values(|x: String| x@));
        Ok(r)
    }

    /// The six built-in patterns.
    pub fn new() -> (r: Result<SensitivePatterns, PatternError>)
        ensures
            r is Ok <==> forall|k: int|
                0 <= k < default_pattern_sources().len() ==> regex_compiles(
                    #[trigger] default_pattern_sources()[k],
                ),
            r matches Ok(s) ==> s.sources() == default_pattern_sources(),
    {
        let sources = vec![
            r"\b[A-Z0-9._%+-]+@[A-Z0-9.-]+\.[A-Z]{2,}\b".to_string(),
            r"\b\d{3}-\d{2}-\d{4}\b".to_string(),
            r"\b\d{4}[- ]?\d{4}[- ]?\d{4}[- ]?\d{4}\b".to_string(),
            r"(?i)password.*=.*".to_string(),
            r"\b(?:\d[ -]*?){13,16}\b".to_string(),
            r"(?i)(api[_-]?key|secret[_-]?key).*=.*".to_string(),
        ];
        assert(sources@.map_values(|x: String| x@) =~= default_pattern_sources());
        let r = Self::from_sources(&sources);
        proof {
            if r is Err {
                let e = r->Err_0;
                let k = choose|k: int|
                    0 <= k < sources@.len() && e.pattern@ == #[trigger] sources@[k]@ && !regex_compiles(sources@[k]@);
                assert(sources@.map_values(|x: String| x@)[k] == default_pattern_sources()[k]);
            } else {
                assert forall|k: int| 0 <= k < default_pattern_sources().len() implies regex_compiles(
                    #[trigger] default_pattern_sources()[k]) by {
                    assert(sources@.map_values(|x: String| x@)[k] == sources@[k]@);
                }
            }
        }
        r
    }

    /// Checks one text against every pattern in order.
    pub fn scan_text(&self, text: &String) -> (r: Vec<SensitiveMatch>)
        ensures
            r@.map_values(|m: SensitiveMatch| match_view(m)) == text_matches(self.sources(), text@),
    {
        let mut r: Vec<SensitiveMatch> = Vec::new();
        let mut i: usize = 0;
        while i < self.patterns.len()
            invariant
                i <= self.patterns@.len(),
                r@.map_values(|m: SensitiveMatch| match_view(m)) == text_matches(
                    self.sources().take(i as int),
                    text@,
                ),
            decreases self.patterns@.len() - i,
        {
            let p = &self.patterns[i];
            let ghost before = r@;
            assert(self.sources().take(i + 1).drop_last() =~= self.sources().take(i as int));
            assert(self.sources().take(i + 1).last() == p.source_view());
            match first_match(p, text.as_str()) {
                Some(m) => {
                    r.push(SensitiveMatch { pattern_type: p.source().clone(), matched_content: m });
                    assert(r@.map_values(|m: SensitiveMatch| match_view(m)) =~= before.map_values(
                        |m: SensitiveMatch| match_view(m),
                    ) + seq![(p.source_view(), r@.last().matched_content@)]);
                },
                None => {
                    assert(before.map_values(|m: SensitiveMatch| match_view(m)) + seq![] =~= before.map_values(|m: SensitiveMatch| match_view(m)));
                },
            }
            i = i + 1;
        }
        assert(self.sources().take(i as int) =~= self.sources());
        r
    }

    /// Checks each text in order against every pattern in order, as the
    /// file monitor does with the texts extracted from one file.
    pub fn scan_contents(&self, contents: &Vec<String>) -> (r: Vec<SensitiveMatch>)
        ensures
            r@.map_values(|m: SensitiveMatch| match_view(m)) == all_matches(
                self.sources(),
                contents@.map_values(|s: String| s@),
            ),
    {
        let mut r: Vec<SensitiveMatch> = Vec::new();
        let mut i: usize = 0;
        while i < contents.len()
            invariant
                i <= contents@.len(),
                r@.map_values(|m: SensitiveMatch| match_view(m)) == all_matches(
                    self.sources(),
                    contents@.map_values(|s: String| s@).take(i as int),
                ),
            decreases contents@.len() - i,
        {
            let ghost before = r@;
            let mut found = self.scan_text(&contents[i]);
            let ghost added = found@;
            r.append(&mut found);
            let ghost texts = contents@.map_values(|s: String| s@);
            assert(texts.take(i + 1).drop_last() =~= texts.take(i as int));
            assert(texts.take(i + 1).last() == contents@[i as int]@);
            assert(r@.map_values(|m: SensitiveMatch| match_view(m)) =~= before.map_values(
                |m: SensitiveMatch| match_view(m),
            ) + added.map_values(|m: SensitiveMatch| match_view(m)));
            i = i + 1;
        }
        assert(contents@.map_values(|s: String| s@).take(i as int) =~= contents@.map_values(
            |s: String| s@,
        ));
        r
    }
}

} // verus!
