use vstd::prelude::*;

use crate::schemas::{
    AnthropicResponse, Candidate, GeminiResponse, OllamaResponse, OpenAiResponse, Part,
};

verus! {

/// Why no text could be produced.
#[derive(Debug, Clone, Copy, PartialEq, Eq, Structural)]
pub enum ExtractionError {
    /// The payload does not have the shape of the selected provider's
    /// response.
    DecodeError,
    /// The payload decoded, but the collection the text is taken from is
    /// empty.
    EmptyResultError,
}

/// What an extraction result says, with the text taken as its characters.
pub open spec fn outcome(r: Result<String, ExtractionError>) -> Result<Seq<char>, ExtractionError> {
    match r {
        Ok(s) => Ok(s@),
        Err(e) => Err(e),
    }
}

impl OpenAiResponse {
    /// The content of the first choice's message, or `EmptyResultError`
    /// where there is no choice.
    pub open spec fn spec_text(self) -> Result<Seq<char>, ExtractionError> {
        if self.choices@.len() == 0 {
            Err(ExtractionError::EmptyResultError)
        } else {
            Ok(self.choices@[0].message.content@)
        }
    }

    /// The content of the first choice's message; later choices are ignored.
    pub fn text(&self) -> (r: Result<String, ExtractionError>)
        ensures
            outcome(r) == self.spec_text(),
    {
        if self.choices.len() == 0 {
            return Err(ExtractionError::EmptyResultError);
        }
        Ok(self.choices[0].message.content.clone())
    }
}


impl AnthropicResponse {
    /// The text of the first content block, or `EmptyResultError` where
    /// there is no block.
    pub open spec fn spec_text(self) -> Result<Seq<char>, ExtractionError> {
        if self.content@.len() == 0 {
            Err(ExtractionError::EmptyResultError)
        } else {
            Ok(self.content@[0].text@)
        }
    }

    /// The text of the first content block; later blocks are ignored.
    pub fn text(&self) -> (r: Result<String, ExtractionError>)
        ensures
            outcome(r) == self.spec_text(),
    {
        if self.content.len() == 0 {
            return Err(ExtractionError::EmptyResultError);
        }
        Ok(self.content[0].text.clone())
    }
}

impl OllamaResponse {
    /// The content of the single message.
    pub fn text(&self) -> (r: String)
        ensures
            r@ == self.message.content@,
    {
        self.message.content.clone()
    }
}

/// The items laid end to end, with `sep` between each two neighbours.
pub open spec fn join_with(items: Seq<Seq<char>>, sep: Seq<char>) -> Seq<char>
    decreases items.len(),
{
    if items.len() == 0 {
        Seq::empty()
    } else if items.len() == 1 {
        items[0]
    } else {
        join_with(items.drop_last(), sep) + sep + items.last()
    }
}

/// The separator between two parts of one candidate: a newline.
pub open spec fn part_sep() -> Seq<char> {
    seq!['\n']
}

/// The separator between two candidates: a blank line.
pub open spec fn candidate_sep() -> Seq<char> {
    seq!['\n', '\n']
}

/// The texts of the parts, in order.
pub open spec fn part_texts(parts: Seq<Part>) -> Seq<Seq<char>> {
    parts.map_values(|p: Part| p.text@)
}

/// The text of one candidate: its parts' texts joined by newlines.
pub open spec fn candidate_text(c: Candidate) -> Seq<char> {
    join_with(part_texts(c.content.parts@), part_sep())
}

/// The texts of the candidates, in order.
pub open spec fn candidate_texts(cs: Seq<Candidate>) -> Seq<Seq<char>> {
    cs.map_values(|c: Candidate| candidate_text(c))
}

/// The text of a list of candidates: their texts joined by blank lines.
pub open spec fn candidates_text(cs: Seq<Candidate>) -> Seq<char> {
    join_with(candidate_texts(cs), candidate_sep())
}

/// Joining the first `i + 1` items adds the separator and item `i` to the
/// join of the first `i`.
proof fn lemma_join_take_step(items: Seq<Seq<char>>, sep: Seq<char>, i: int)
    requires
        0 <= i < items.len(),
    ensures
        join_with(items.take(i + 1), sep) == if i == 0 {
            items[0]
        } else {
            join_with(items.take(i), sep) + sep + items[i]
        },
{
    assert(items.take(i + 1).drop_last() =~= items.take(i));
}

impl Candidate {
    /// The texts of this candidate's parts joined by single newlines.
    pub fn text(&self) -> (r: String)
        ensures
            r@ == candidate_text(*self),
    {
        let parts = &self.content.parts;
        let ghost texts = part_texts(parts@);
        let mut out = String::new();
        let mut i: usize = 0;
        while i < parts.len()
            invariant
                i <= parts@.len(),
                texts == part_texts(parts@),
                out@ == join_with(texts.take(i as int), part_sep()),
            decreases parts@.len() - i,
        {
            proof {
                lemma_join_take_step(texts, part_sep(), i as int);
                reveal_strlit("\n");
            }
            if i > 0 {
                out.append("\n");
            }
            out.append(parts[i].text.as_str());
            i = i + 1;
        }
        assert(texts.take(parts@.len() as int) =~= texts);
        out
    }
}

impl GeminiResponse {
    /// The candidates' texts joined by blank lines, or `EmptyResultError`
    /// where there is no candidate.
    pub open spec fn spec_text(self) -> Result<Seq<char>, ExtractionError> {
        if self.candidates@.len() == 0 {
            Err(ExtractionError::EmptyResultError)
        } else {
            Ok(candidates_text(self.candidates@))
        }
    }

    /// Each candidate's parts joined by single newlines, and the candidates
    /// joined by blank lines, all in the order received.
    pub fn text(&self) -> (r: Result<String, ExtractionError>)
        ensures
            outcome(r) == self.spec_text(),
    {
        let cs = &self.candidates;
        if cs.len() == 0 {
            return Err(ExtractionError::EmptyResultError);
        }
        let ghost texts = candidate_texts(cs@);
        let mut out = String::new();
        let mut i: usize = 0;
        while i < cs.len()
            invariant
                i <= cs@.len(),
                texts == candidate_texts(cs@),
                out@ == join_with(texts.take(i as int), candidate_sep()),
            decreases cs@.len() - i,
        {
            proof {
                lemma_join_take_step(texts, candidate_sep(), i as int);
                reveal_strlit("\n\n");
            }
            if i > 0 {
                out.append("\n\n");
            }
            let t = cs[i].text();
            out.append(t.as_str());
            i = i + 1;
        }
        assert(texts.take(cs@.len() as int) =~= texts);
        Ok(out)
    }
}


/// Which provider produced a payload. The set is closed: every provider the
/// library knows is one of these.
#[derive(Debug, Clone, Copy, PartialEq, Eq, Structural)]
pub enum ProviderKind {
    OpenAiLike,
    AnthropicLike,
    OllamaLike,
    GeminiLike,
}

/// A decoded response of any of the known providers.
#[derive(Debug, Clone)]
pub enum ProviderResponse {
    OpenAi(OpenAiResponse),
    Anthropic(AnthropicResponse),
    Ollama(OllamaResponse),
    Gemini(GeminiResponse),
}

impl ProviderResponse {
    /// The provider whose shape this response has.
    pub open spec fn spec_kind(self) -> ProviderKind {
        match self {
            ProviderResponse::OpenAi(_) => ProviderKind::OpenAiLike,
            ProviderResponse::Anthropic(_) => ProviderKind::AnthropicLike,
            ProviderResponse::Ollama(_) => ProviderKind::OllamaLike,
            ProviderResponse::Gemini(_) => ProviderKind::GeminiLike,
        }
    }

    /// Whether the collection the text is taken from (`choices`, `content`
    /// or `candidates`) is empty. A local-model-server response has none.
    pub open spec fn has_empty_collection(self) -> bool {
        match self {
            ProviderResponse::OpenAi(o) => o.choices@.len() == 0,
            ProviderResponse::Anthropic(a) => a.content@.len() == 0,
            ProviderResponse::Ollama(_) => false,
            ProviderResponse::Gemini(g) => g.candidates@.len() == 0,
        }
    }

    /// The canonical text of the response, by its provider's rule.
    pub open spec fn spec_text(self) -> Result<Seq<char>, ExtractionError> {
        match self {
            ProviderResponse::OpenAi(o) => o.spec_text(),
            ProviderResponse::Anthropic(a) => a.spec_text(),
            ProviderResponse::Ollama(l) => Ok(l.message.content@),
            ProviderResponse::Gemini(g) => g.spec_text(),
        }
    }

    /// The provider whose shape this response has.
    pub fn kind(&self) -> (k: ProviderKind)
        ensures
            k == self.spec_kind(),
    {
        match self {
            ProviderResponse::OpenAi(_) => ProviderKind::OpenAiLike,
            ProviderResponse::Anthropic(_) => ProviderKind::AnthropicLike,
            ProviderResponse::Ollama(_) => ProviderKind::OllamaLike,
            ProviderResponse::Gemini(_) => ProviderKind::GeminiLike,
        }
    }

    /// Reduces the response to its canonical text with the rule of its
    /// provider.
    pub fn text(&self) -> (r: Result<String, ExtractionError>)
        ensures
            outcome(r) == self.spec_text(),
    {
        match self {
            ProviderResponse::OpenAi(o) => o.text(),
            ProviderResponse::Anthropic(a) => a.text(),
            ProviderResponse::Ollama(l) => Ok(l.text()),
            ProviderResponse::Gemini(g) => g.text(),
        }
    }
}

/// Finishes an extraction from the outcome of decoding: `None` (the payload
/// did not decode) gives `DecodeError`, and a decoded response gives its
/// text. Extraction is tried only on a decoded response, so a decode failure
/// always wins.
pub fn extract_decoded(decoded: Option<ProviderResponse>) -> (r: Result<String, ExtractionError>)
    ensures
        outcome(r) == match decoded {
            None => Err(ExtractionError::DecodeError),
            Some(d) => d.spec_text(),
        },
{
    match decoded {
        None => Err(ExtractionError::DecodeError),
        Some(d) => d.text(),
    }
}

/// Joining two non-empty lists end to end is joining each, with one
/// separator between the two results.
pub proof fn lemma_join_concat(a: Seq<Seq<char>>, b: Seq<Seq<char>>, sep: Seq<char>)
    requires
        a.len() > 0,
        b.len() > 0,
    ensures
        join_with(a + b, sep) == join_with(a, sep) + sep + join_with(b, sep),
    decreases b.len(),
{
    if b.len() == 1 {
        assert((a + b).drop_last() =~= a);
    } else {
        assert((a + b).drop_last() =~= a + b.drop_last());
        lemma_join_concat(a, b.drop_last(), sep);
        assert(join_with(a + b, sep) =~= join_with(a, sep) + sep + join_with(b, sep));
    }
}

/// A response whose collection is empty yields `EmptyResultError`, never a
/// text; any other response yields a text.
pub proof fn law_empty_collection_is_error(r: ProviderResponse)
    ensures
        r.has_empty_collection() <==> r.spec_text() == Err::<Seq<char>, ExtractionError>(
            ExtractionError::EmptyResultError,
        ),
        !r.has_empty_collection() ==> r.spec_text() is Ok,
{
}

/// Candidates keep their order: a Gemini-style response whose candidates are
/// those of `a` followed by those of `b` reads as the text of `a`, a blank
/// line, then the text of `b`.
pub proof fn law_gemini_candidate_order(r: GeminiResponse, a: Seq<Candidate>, b: Seq<Candidate>)
    requires
        r.candidates@ == a + b,
        a.len() > 0,
        b.len() > 0,
    ensures
        r.spec_text() == Ok::<Seq<char>, ExtractionError>(
            candidates_text(a) + candidate_sep() + candidates_text(b),
        ),
{
    assert(candidate_texts(a + b) =~= candidate_texts(a) + candidate_texts(b));
    lemma_join_concat(candidate_texts(a), candidate_texts(b), candidate_sep());
}

/// Parts keep their order: a candidate whose parts are those of `p` followed
/// by those of `q` reads as the parts of `p` joined, a newline, then the
/// parts of `q` joined.
pub proof fn law_gemini_part_order(c: Candidate, p: Seq<Part>, q: Seq<Part>)
    requires
        c.content.parts@ == p + q,
        p.len() > 0,
        q.len() > 0,
    ensures
        candidate_text(c) == join_with(part_texts(p), part_sep()) + part_sep() + join_with(
            part_texts(q),
            part_sep(),
        ),
{
    assert(part_texts(p + q) =~= part_texts(p) + part_texts(q));
    lemma_join_concat(part_texts(p), part_texts(q), part_sep());
}

} // verus!
