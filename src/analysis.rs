use vstd::prelude::*;

use crate::details::ApiError;
use crate::mode::{kinds_of, mode_of, AnalysisKind, AnalysisMode, ModeError};
use crate::resolve::{begin, Action, Resolution};
use crate::status::PublicationStatus;
use osu_map_analyzer::analyze::{Jump, JumpAnalysis, Stream, StreamAnalysis};
use osu_map_analyzer::rosu_map;

verus! {

#[verifier::external_type_specification]
#[verifier::external_body]
pub struct ExAnalysisMap(rosu_map::Beatmap);

#[verifier::external_type_specification]
#[verifier::external_body]
pub struct ExStreamAnalysis(StreamAnalysis);

#[verifier::external_type_specification]
#[verifier::external_body]
pub struct ExJumpAnalysis(JumpAnalysis);

/// Whether the analysis parser reads `text` as a map.
pub uninterp spec fn analysis_parses(text: Seq<char>) -> bool;

/// Relies on rosu_map::from_str: it decodes a map from the text of a map
/// document, or fails with an io::Error; the outcome depends on the text alone.
#[verifier::external_body]
fn parse_analysis_map(text: &str) -> (r: Option<rosu_map::Beatmap>)
    ensures
        r is Some <==> analysis_parses(text@),
{
    rosu_map::from_str::<rosu_map::Beatmap>(text).ok()
}

/// Relies on rosu_map::Beatmap's Clone: a copy that an analyzer may work on
/// without touching the original.
#[verifier::external_body]
fn copy_map(map: &rosu_map::Beatmap) -> rosu_map::Beatmap {
    map.clone()
}

/// Relies on osu_map_analyzer's Stream::new and Stream::analyze.
#[verifier::external_body]
fn run_stream(map: rosu_map::Beatmap) -> StreamAnalysis {
    Stream::new(map).analyze()
}

/// Relies on osu_map_analyzer's Jump::new and Jump::analyze.
#[verifier::external_body]
fn run_jump(map: rosu_map::Beatmap) -> JumpAnalysis {
    Jump::new(map).analyze()
}

/// The result of one analyzer.
pub enum Analysis {
    Stream(StreamAnalysis),
    Jump(JumpAnalysis),
}

impl Analysis {
    pub open spec fn kind_spec(&self) -> AnalysisKind {
        match self {
            Analysis::Stream(_) => AnalysisKind::Stream,
            Analysis::Jump(_) => AnalysisKind::Jump,
        }
    }

    /// The analyzer that produced this result.
    pub fn kind(&self) -> (r: AnalysisKind)
        ensures
            r == self.kind_spec(),
    {
        match self {
            Analysis::Stream(_) => AnalysisKind::Stream,
            Analysis::Jump(_) => AnalysisKind::Jump,
        }
    }
}

/// The analyzers that produced a list of results, in order.
pub open spec fn kinds_in(results: Seq<Analysis>) -> Seq<AnalysisKind> {
    results.map_values(|a: Analysis| a.kind_spec())
}

/// Why an analysis request produced no result.
#[derive(Clone, Copy, Debug, PartialEq, Eq, Structural)]
pub enum AnalyzeError {
    /// The mode string names no accepted mode: the caller's mistake.
    BadMode(ModeError),
    /// The document is not a map the analysis parser reads.
    Parse,
}

/// Runs the analyzers of `mode` over `document`, each on its own copy of the
/// parsed map.
pub fn dispatch(document: &str, mode: AnalysisMode) -> (r: Result<Vec<Analysis>, AnalyzeError>)
    ensures
        r is Err <==> !analysis_parses(document@),
        r is Err ==> r->Err_0 == AnalyzeError::Parse,
        r is Ok ==> kinds_in(r->Ok_0@) == kinds_of(mode),
{
    let map = match parse_analysis_map(document) {
        Some(m) => m,
        None => return Err(AnalyzeError::Parse),
    };
    let kinds = mode.kinds();
    let mut out: Vec<Analysis> = Vec::new();
    let mut i: usize = 0;
    while i < kinds.len()
        invariant
            kinds@ == kinds_of(mode),
            i <= kinds@.len(),
            kinds_in(out@) == kinds@.subrange(0, i as int),
        decreases kinds@.len() - i,
    {
        let a = match kinds[i] {
            AnalysisKind::Stream => Analysis::Stream(run_stream(copy_map(&map))),
            AnalysisKind::Jump => Analysis::Jump(run_jump(copy_map(&map))),
        };
        assert(a.kind_spec() == kinds@[i as int]);
        let ghost prev = out@;
        out.push(a);
        assert(out@ == prev.push(a));
        assert(kinds_in(out@) =~= kinds_in(prev).push(a.kind_spec()));
        assert(kinds_in(out@) =~= kinds@.subrange(0, i + 1));
        i = i + 1;
    }
    assert(kinds@.subrange(0, i as int) =~= kinds@);
    Ok(out)
}

/// Reads the mode string, ignoring the case of ASCII letters, and runs its
/// analyzers over `document`, which is already resolved. A mode string that
/// names no mode is refused before the document is parsed. A request that
/// still has to resolve the document starts with `start_analysis`, which
/// refuses a bad mode before the cache or the origin is touched, and then
/// hands the delivered document to `dispatch`.
pub fn analyze_beatmap(document: &str, mode: &str) -> (r: Result<Vec<Analysis>, AnalyzeError>)
    ensures
        mode_of(mode@) is None ==> r is Err && r->Err_0 == AnalyzeError::BadMode(ModeError),
        mode_of(mode@) is Some ==> (r is Err <==> !analysis_parses(document@)),
        mode_of(mode@) is Some && r is Err ==> r->Err_0 == AnalyzeError::Parse,
        r is Ok ==> mode_of(mode@) is Some && kinds_in(r->Ok_0@) == kinds_of(mode_of(mode@)->Some_0),
{
    match AnalysisMode::parse(mode) {
        Ok(m) => dispatch(document, m),
        Err(e) => Err(AnalyzeError::BadMode(e)),
    }
}

/// Starts an analysis request for map `id`: the mode string is read first,
/// and a string that names no mode is refused before any resolution starts.
/// Otherwise the map's document is resolved as that of a stable map, which
/// trusts a cached copy; the catalog is not asked.
pub fn start_analysis(id: u32, mode: &str) -> (r: Result<(AnalysisMode, Resolution, Action), ApiError>)
    ensures
        mode_of(mode@) is None <==> r is Err,
        r is Err ==> r->Err_0 == ApiError::BadMode,
        r is Ok ==> ({
            let (m, res, first) = r->Ok_0;
            &&& Some(m) == mode_of(mode@)
            &&& res.id_spec() == id
            &&& res@ == (begin(PublicationStatus::Ranked).0, Seq::<u8>::empty())
            &&& first@ == begin(PublicationStatus::Ranked).1
        }),
{
    match AnalysisMode::parse(mode) {
        Ok(m) => {
            let (res, first) = Resolution::start(id, PublicationStatus::Ranked);
            Ok((m, res, first))
        },
        Err(_) => Err(ApiError::BadMode),
    }
}

} // verus!
