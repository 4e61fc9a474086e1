//! Speech-to-text engine boundary.
//!
//! The inference itself is an opaque capability — given samples it returns
//! recognized segments or fails — and runs outside this library.  What the
//! library owns and proves is everything around that call: the refusal to
//! transcribe empty audio, the construction-time check that a model is
//! available, and the assembly of the final transcript from the recognized
//! segments (concatenated with single spaces, leading and trailing
//! whitespace trimmed).

use vstd::prelude::*;

use crate::errors::{AudioError, CoreResult};

verus! {

/// Whether a character has the Unicode `White_Space` property; what
/// `char::is_whitespace` decides.  A function of the character alone.
pub uninterp spec fn is_unicode_whitespace(c: char) -> bool;

/// Relies on char::is_whitespace: whether the character has the Unicode
/// `White_Space` property, a function of the character alone.
pub assume_specification[ char::is_whitespace ](c: char) -> (r: bool)
    ensures
        r == is_unicode_whitespace(c),
;

/// The recognized segments concatenated in order, each followed by a single
/// space — the raw transcript before trimming.
pub open spec fn joined_segments(segs: Seq<Seq<char>>) -> Seq<char>
    decreases segs.len(),
{
    if segs.len() == 0 {
        Seq::<char>::empty()
    } else {
        segs[0] + seq![' '] + joined_segments(segs.drop_first())
    }
}

/// `s` without its leading whitespace.
pub open spec fn trim_start_spec(s: Seq<char>) -> Seq<char>
    decreases s.len(),
{
    if s.len() == 0 {
        s
    } else if is_unicode_whitespace(s[0]) {
        trim_start_spec(s.drop_first())
    } else {
        s
    }
}

/// `s` without its trailing whitespace.
pub open spec fn trim_end_spec(s: Seq<char>) -> Seq<char>
    decreases s.len(),
{
    if s.len() == 0 {
        s
    } else if is_unicode_whitespace(s.last()) {
        trim_end_spec(s.drop_last())
    } else {
        s
    }
}

/// `s` without leading and trailing whitespace; what `str::trim` keeps.
pub open spec fn trimmed(s: Seq<char>) -> Seq<char> {
    trim_end_spec(trim_start_spec(s))
}

/// Appending a segment to the joined transcript appends the segment and one
/// space.
proof fn lemma_joined_segments_push(segs: Seq<Seq<char>>, x: Seq<char>)
    ensures
        joined_segments(segs.push(x)) == joined_segments(segs) + x + seq![' '],
    decreases segs.len(),
{
    if segs.len() == 0 {
        assert(segs.push(x)[0] == x);
        assert(segs.push(x).drop_first() =~= Seq::<Seq<char>>::empty());
        assert(joined_segments(segs.push(x)) == x + seq![' '] + joined_segments(
            Seq::<Seq<char>>::empty(),
        ));
        assert(x + seq![' '] + joined_segments(Seq::<Seq<char>>::empty()) =~= joined_segments(segs)
            + x + seq![' ']);
    } else {
        lemma_joined_segments_push(segs.drop_first(), x);
        assert(segs.push(x)[0] == segs[0]);
        assert(segs.push(x).drop_first() =~= segs.drop_first().push(x));
        assert(joined_segments(segs.push(x)) == segs[0] + seq![' '] + (joined_segments(
            segs.drop_first(),
        ) + x + seq![' ']));
        assert(segs[0] + seq![' '] + (joined_segments(segs.drop_first()) + x + seq![' '])
            =~= joined_segments(segs) + x + seq![' ']);
    }
}

/// If everything before `a` is whitespace and `s[a]` is not (or `a` is the
/// end), trimming the start keeps exactly the suffix from `a` on.
proof fn lemma_trim_start_at(s: Seq<char>, a: int)
    requires
        0 <= a <= s.len(),
        forall|j: int| 0 <= j < a ==> is_unicode_whitespace(s[j]),
        a < s.len() ==> !is_unicode_whitespace(s[a]),
    ensures
        trim_start_spec(s) == s.skip(a),
    decreases a,
{
    if a == 0 {
        assert(s.skip(0) =~= s);
    } else {
        lemma_trim_start_at(s.drop_first(), a - 1);
        assert(s.drop_first().skip(a - 1) =~= s.skip(a));
    }
}

/// If everything from `b` on is whitespace and `s[b - 1]` is not (or `b` is
/// the start), trimming the end keeps exactly the prefix up to `b`.
proof fn lemma_trim_end_at(s: Seq<char>, b: int)
    requires
        0 <= b <= s.len(),
        forall|j: int| b <= j < s.len() ==> is_unicode_whitespace(s[j]),
        b > 0 ==> !is_unicode_whitespace(s[b - 1]),
    ensures
        trim_end_spec(s) == s.take(b),
    decreases s.len(),
{
    if b == s.len() {
        if s.len() == 0 {
            assert(s.take(b) =~= s);
        } else {
            assert(s.take(b) =~= s);
        }
    } else {
        lemma_trim_end_at(s.drop_last(), b);
        assert(s.drop_last().take(b) =~= s.take(b));
    }
}

/// What the inference capability handed back for one run: the recognized
/// segments in order, or the engine's failure message.
#[derive(Debug, Clone)]
pub enum InferenceOutcome {
    /// Every recognized segment, in temporal order.
    Segments(Vec<String>),
    /// The engine failed internally; carries its message.
    Failed(String),
}

/// The transcription engine: configuration of the opaque inference
/// capability, plus the verified gating and transcript assembly around it.
#[derive(Debug)]
pub struct SttEngine {
    model_path: String,
    use_gpu: bool,
}

impl SttEngine {
    /// The configured model location.
    pub closed spec fn path(&self) -> Seq<char> {
        self.model_path@
    }

    /// Whether inference was asked to use a GPU backend.
    pub closed spec fn gpu(&self) -> bool {
        self.use_gpu
    }

    /// Sets the engine up for the model at `model_path`.  `model_exists`
    /// says whether the model artifact is present at that location (the
    /// caller checks the file system); construction fails with
    /// `ModelNotFound` — and nothing is initialized — exactly when it is
    /// not.
    pub fn new(model_path: String, model_exists: bool, use_gpu: bool) -> (r: CoreResult<SttEngine>)
        ensures
            r is Ok <==> model_exists,
            (r matches Ok(e) ==> e.path() == model_path@ && e.gpu() == use_gpu),
            (r matches Err(e) ==> e matches AudioError::ModelNotFound { path } && path@
                == model_path@),
    {
        if !model_exists {
            Err(AudioError::ModelNotFound { path: model_path })
        } else {
            Ok(SttEngine { model_path, use_gpu })
        }
    }

    /// Turns one inference run into the transcription result.
    ///
    /// Empty audio is never transcribed: it fails with `NoAudioCaptured`
    /// whatever the outcome argument holds, so the caller may skip the
    /// inference run entirely for empty input.  A failed run becomes
    /// `TranscriptionFailed` with the engine's message.  A successful run
    /// yields the segments joined by single spaces with the ends trimmed.
    pub fn transcribe(&self, samples: &Vec<u32>, outcome: &InferenceOutcome) -> (r: CoreResult<
        String,
    >)
        ensures
            samples@.len() == 0 ==> (r matches Err(e) && e is NoAudioCaptured),
            samples@.len() > 0 ==> (outcome matches InferenceOutcome::Failed(m) ==> r matches Err(
                e,
            ) && e matches AudioError::TranscriptionFailed { reason } && reason@ == m@),
            samples@.len() > 0 ==> (outcome matches InferenceOutcome::Segments(segs) ==> r
                matches Ok(t) && t@ == trimmed(joined_segments(segs.deep_view()))),
    {
        if samples.is_empty() {
            return Err(AudioError::NoAudioCaptured);
        }
        match outcome {
            InferenceOutcome::Failed(m) => Err(
                AudioError::TranscriptionFailed { reason: m.clone() },
            ),
            InferenceOutcome::Segments(segs) => Ok(assemble_transcript(segs)),
        }
    }
}

/// Joins the recognized segments with single spaces and trims leading and
/// trailing whitespace: the final transcript of a successful run.
pub fn assemble_transcript(segments: &Vec<String>) -> (r: String)
    ensures
        r@ == trimmed(joined_segments(segments.deep_view())),
{
    let ghost deep = segments.deep_view();
    let mut joined = String::new();
    let mut i: usize = 0;
    proof {
        reveal_strlit(" ");
    }
    while i < segments.len()
        invariant
            i <= segments@.len(),
            deep == segments.deep_view(),
            " "@ == seq![' '],
            joined@ == joined_segments(deep.take(i as int)),
        decreases segments@.len() - i,
    {
        let segment = &segments[i];
        joined.append(segment.as_str());
        joined.append(" ");
        proof {
            assert(deep.take(i + 1) =~= deep.take(i as int).push(deep[i as int]));
            lemma_joined_segments_push(deep.take(i as int), deep[i as int]);
            assert(deep[i as int] == segments@[i as int]@);
            assert(joined@ =~= joined_segments(deep.take(i + 1)));
        }
        i += 1;
    }
    proof {
        assert(deep.take(deep.len() as int) =~= deep);
    }
    trim_whitespace(&joined)
}

/// `s` with leading and trailing whitespace removed, as `str::trim` removes
/// it.
pub fn trim_whitespace(s: &String) -> (r: String)
    ensures
        r@ == trimmed(s@),
{
    let slice = s.as_str();
    let n = slice.unicode_len();
    let mut a: usize = 0;
    while a < n && slice.get_char(a).is_whitespace()
        invariant
            0 <= a <= n,
            n == slice@.len(),
            slice@ == s@,
            forall|j: int| 0 <= j < a ==> is_unicode_whitespace(s@[j]),
        decreases n - a,
    {
        a += 1;
    }
    let mut b: usize = n;
    while b > a && slice.get_char(b - 1).is_whitespace()
        invariant
            a <= b <= n,
            n == slice@.len(),
            slice@ == s@,
            forall|j: int| b <= j < n ==> is_unicode_whitespace(s@[j]),
        decreases b,
    {
        b -= 1;
    }
    proof {
        lemma_trim_start_at(s@, a as int);
        lemma_trim_end_at(s@.skip(a as int), b - a);
        assert(s@.skip(a as int).take(b - a) =~= s@.subrange(a as int, b as int));
    }
    let out = slice.substring_char(a, b);
    String::from_str(out)
}

} // verus!
