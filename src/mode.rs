use vstd::prelude::*;

verus! {

/// Which pattern analyses a request asks for.
#[derive(Clone, Copy, Debug, PartialEq, Eq, Structural)]
pub enum AnalysisMode {
    Stream,
    Jump,
    All,
}

/// One pattern analyzer.
#[derive(Clone, Copy, Debug, PartialEq, Eq, Structural)]
pub enum AnalysisKind {
    Stream,
    Jump,
}

/// A mode string that names none of the accepted modes.
#[derive(Clone, Copy, Debug, PartialEq, Eq, Structural)]
pub struct ModeError;

/// The code of `c` with an ASCII capital letter taken to its small letter.
pub open spec fn folded_code(c: char) -> u32 {
    if 65 <= c as u32 && c as u32 <= 90 {
        (c as u32 + 32) as u32
    } else {
        c as u32
    }
}

/// `s` spells the lower-case word `w`, ignoring the case of ASCII letters.
pub open spec fn spells(s: Seq<char>, w: Seq<char>) -> bool {
    &&& s.len() == w.len()
    &&& forall|i: int| 0 <= i < s.len() ==> folded_code(#[trigger] s[i]) == w[i] as u32
}

/// `a` and `b` differ at most in the case of ASCII letters.
pub open spec fn same_ignoring_ascii_case(a: Seq<char>, b: Seq<char>) -> bool {
    &&& a.len() == b.len()
    &&& forall|i: int| 0 <= i < a.len() ==> folded_code(#[trigger] a[i]) == folded_code(b[i])
}

pub open spec fn stream_word() -> Seq<char> {
    seq!['s', 't', 'r', 'e', 'a', 'm']
}

pub open spec fn jump_word() -> Seq<char> {
    seq!['j', 'u', 'm', 'p']
}

pub open spec fn all_word() -> Seq<char> {
    seq!['a', 'l', 'l']
}

/// The mode that a string names, if any.
pub open spec fn mode_of(s: Seq<char>) -> Option<AnalysisMode> {
    if spells(s, stream_word()) {
        Some(AnalysisMode::Stream)
    } else if spells(s, jump_word()) {
        Some(AnalysisMode::Jump)
    } else if spells(s, all_word()) {
        Some(AnalysisMode::All)
    } else {
        None
    }
}

/// The analyzers that a mode runs, in the order their results are listed.
pub open spec fn kinds_of(m: AnalysisMode) -> Seq<AnalysisKind> {
    match m {
        AnalysisMode::Stream => seq![AnalysisKind::Stream],
        AnalysisMode::Jump => seq![AnalysisKind::Jump],
        AnalysisMode::All => seq![AnalysisKind::Jump, AnalysisKind::Stream],
    }
}

/// Whether `s` spells `w` up to the case of ASCII letters.
fn spells_word(s: &str, w: &str) -> (r: bool)
    ensures
        r == spells(s@, w@),
{
    let n = s.unicode_len();
    if n != w.unicode_len() {
        return false;
    }
    let mut i: usize = 0;
    while i < n
        invariant
            n == s@.len(),
            n == w@.len(),
            i <= n,
            forall|j: int| 0 <= j < i ==> folded_code(#[trigger] s@[j]) == w@[j] as u32,
        decreases n - i,
    {
        let c = s.get_char(i);
        let code: u32 = c as u32;
        let folded: u32 = if 65 <= code && code <= 90 {
            code + 32
        } else {
            code
        };
        if folded != w.get_char(i) as u32 {
            return false;
        }
        i = i + 1;
    }
    true
}

impl AnalysisMode {
    /// Reads a mode name, ignoring the case of ASCII letters: "stream",
    /// "jump" or "all".
    pub fn parse(s: &str) -> (r: Result<AnalysisMode, ModeError>)
        ensures
            match mode_of(s@) {
                Some(m) => r == Ok::<AnalysisMode, ModeError>(m),
                None => r == Err::<AnalysisMode, ModeError>(ModeError),
            },
    {
        proof {
            reveal_strlit("stream");
            reveal_strlit("jump");
            reveal_strlit("all");
            assert("stream"@ =~= stream_word());
            assert("jump"@ =~= jump_word());
            assert("all"@ =~= all_word());
        }
        if spells_word(s, "stream") {
            Ok(AnalysisMode::Stream)
        } else if spells_word(s, "jump") {
            Ok(AnalysisMode::Jump)
        } else if spells_word(s, "all") {
            Ok(AnalysisMode::All)
        } else {
            Err(ModeError)
        }
    }

    /// The analyzers this mode runs: one for a single mode, the jump analyzer
    /// then the stream analyzer for `All`.
    pub fn kinds(&self) -> (r: Vec<AnalysisKind>)
        ensures
            r@ == kinds_of(*self),
    {
        match self {
            AnalysisMode::Stream => vec![AnalysisKind::Stream],
            AnalysisMode::Jump => vec![AnalysisKind::Jump],
            AnalysisMode::All => vec![AnalysisKind::Jump, AnalysisKind::Stream],
        }
    }
}

impl AnalysisKind {
    /// The tag under which this analyzer's result is reported.
    pub fn tag(&self) -> (r: &'static str)
        ensures
            *self == AnalysisKind::Stream ==> r@ == stream_word(),
            *self == AnalysisKind::Jump ==> r@ == jump_word(),
    {
        proof {
            reveal_strlit("stream");
            reveal_strlit("jump");
        }
        match self {
            AnalysisKind::Stream => "stream",
            AnalysisKind::Jump => "jump",
        }
    }
}

impl ModeError {
    /// The message reported to the caller, naming the accepted modes.
    pub fn message(&self) -> (r: &'static str)
        ensures
            r@ == mode_error_text(),
    {
        proof {
            reveal_strlit("Bad request: `analyze_type` must be either: `stream`, `jump`, `all`.");
        }
        "Bad request: `analyze_type` must be either: `stream`, `jump`, `all`."
    }
}

pub open spec fn mode_error_text() -> Seq<char> {
    "Bad request: `analyze_type` must be either: `stream`, `jump`, `all`."@
}

/// Two mode strings that differ only in the case of ASCII letters name the
/// same mode, or are both refused.
pub proof fn lemma_mode_ignores_ascii_case(a: Seq<char>, b: Seq<char>)
    requires
        same_ignoring_ascii_case(a, b),
    ensures
        mode_of(a) == mode_of(b),
{
    assert forall|w: Seq<char>| spells(a, w) <==> spells(b, w) by {
        if spells(a, w) {
            assert forall|i: int| 0 <= i < b.len() implies folded_code(#[trigger] b[i]) == w[i] as u32 by {
                assert(folded_code(a[i]) == folded_code(b[i]));
            }
        }
        if spells(b, w) {
            assert forall|i: int| 0 <= i < a.len() implies folded_code(#[trigger] a[i]) == w[i] as u32 by {
                assert(folded_code(a[i]) == folded_code(b[i]));
            }
        }
    }
}

/// `All` runs exactly two analyzers: the stream one and the jump one.
pub proof fn lemma_all_runs_both_analyzers()
    ensures
        kinds_of(AnalysisMode::All).len() == 2,
        kinds_of(AnalysisMode::All).contains(AnalysisKind::Stream),
        kinds_of(AnalysisMode::All).contains(AnalysisKind::Jump),
{
    assert(kinds_of(AnalysisMode::All)[1] == AnalysisKind::Stream);
    assert(kinds_of(AnalysisMode::All)[0] == AnalysisKind::Jump);
}

} // verus!
