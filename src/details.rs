use vstd::prelude::*;
use vstd::string::StringSliceAdditionalSpecFns;

use crate::analysis::AnalyzeError;
use crate::curve::{curve_tails_are_safe, curve_tails_safe};
use crate::resolve::{begin, Action, ResolveError, Resolution};
use crate::status::PublicationStatus;

verus! {

#[verifier::external_type_specification]
#[verifier::external_body]
pub struct ExDifficultyMap(rosu_pp::Beatmap);

/// Whether the difficulty calculator's parser reads `text` as a map.
pub uninterp spec fn difficulty_parses(text: Seq<char>) -> bool;

/// Relies on rosu_pp::Beatmap's FromStr: it decodes a map from the text of a
/// map document, or fails with an io::Error; the outcome depends on the text
/// alone. It indexes an empty vertex list when the curve field of a slider
/// line ends in a piece of its own that starts with a path type letter, so
/// such text is never handed to it.
#[verifier::external_body]
fn parse_difficulty_map(text: &str) -> (r: Option<rosu_pp::Beatmap>)
    requires
        curve_tails_safe(text.spec_bytes()),
    ensures
        r is Some <==> difficulty_parses(text@),
{
    <rosu_pp::Beatmap as std::str::FromStr>::from_str(text).ok()
}

/// What the catalog tells of the set that holds a map.
pub struct MapsetInfo {
    pub title: String,
    pub artist: String,
    pub creator: String,
    pub set_id: u32,
}

/// What the catalog tells of a map.
pub struct CatalogEntry {
    pub version: String,
    pub status: PublicationStatus,
    pub mapset: Option<MapsetInfo>,
}

/// The summary of a map: the catalog's text fields and the parsed map that
/// its statistics are computed from.
pub struct Details {
    pub title: String,
    pub artist: String,
    pub creator: String,
    pub version: String,
    pub set_id: u32,
    pub map: rosu_pp::Beatmap,
}

/// Every failure that a request can meet, as the API reports it.
#[derive(Clone, Copy, Debug, PartialEq, Eq, Structural)]
pub enum ApiError {
    /// The catalog could not be asked.
    Catalog,
    /// The catalog named no set for the map.
    MissingMapset,
    Resolve(ResolveError),
    /// The document is not a map that the parser reads.
    Parse,
    /// The analysis mode names no accepted mode.
    BadMode,
}

impl ApiError {
    pub open spec fn is_user_error_spec(self) -> bool {
        self is BadMode
    }

    /// Whether the caller's input caused the failure.
    pub fn is_user_error(&self) -> (r: bool)
        ensures
            r == self.is_user_error_spec(),
    {
        matches!(self, ApiError::BadMode)
    }

    /// The HTTP status the failure is answered with: 400 for the caller's
    /// mistake, 500 for every internal failure.
    pub fn http_status(&self) -> (r: u16)
        ensures
            r == if self.is_user_error_spec() { 400u16 } else { 500u16 },
    {
        if self.is_user_error() {
            400
        } else {
            500
        }
    }

    /// The API failure for a failed analysis request.
    pub fn from_analysis(e: AnalyzeError) -> (r: ApiError)
        ensures
            r == match e {
                AnalyzeError::BadMode(_) => ApiError::BadMode,
                AnalyzeError::Parse => ApiError::Parse,
            },
    {
        match e {
            AnalyzeError::BadMode(_) => ApiError::BadMode,
            AnalyzeError::Parse => ApiError::Parse,
        }
    }
}

/// Starts a details request for map `id` from what the catalog answered
/// (`None` when it could not be asked). A catalog failure or an entry that
/// names no set ends the request before the cache or the origin is touched.
/// Otherwise the map's document is resolved according to the entry's status:
/// a mutable map is fetched, a stable one is served from its cache entry when
/// there is one.
pub fn start_details(id: u32, catalog: Option<CatalogEntry>) -> (r: Result<
    (CatalogEntry, Resolution, Action),
    ApiError,
>)
    ensures
        catalog is None ==> r == Err::<(CatalogEntry, Resolution, Action), ApiError>(ApiError::Catalog),
        catalog is Some && catalog->Some_0.mapset is None ==> r == Err::<
            (CatalogEntry, Resolution, Action),
            ApiError,
        >(ApiError::MissingMapset),
        catalog is Some && catalog->Some_0.mapset is Some ==> r is Ok,
        r is Ok ==> ({
            let (entry, res, first) = r->Ok_0;
            &&& catalog == Some(entry)
            &&& res.id_spec() == id
            &&& res@ == (begin(entry.status).0, Seq::<u8>::empty())
            &&& first@ == begin(entry.status).1
        }),
{
    let entry = match catalog {
        Some(e) => e,
        None => return Err(ApiError::Catalog),
    };
    if entry.mapset.is_none() {
        return Err(ApiError::MissingMapset);
    }
    let (res, first) = Resolution::start(id, entry.status);
    Ok((entry, res, first))
}

/// Combines the catalog entry of a map with its document, once the
/// resolution that `start_details` began has delivered it: fails when the
/// catalog names no set, or when the document is malformed (a slider curve
/// field the parser cannot take, or text it does not parse).
pub fn beatmap_details(entry: CatalogEntry, document: &str) -> (r: Result<Details, ApiError>)
    ensures
        entry.mapset is None ==> r is Err && r->Err_0 == ApiError::MissingMapset,
        entry.mapset is Some ==> (r is Err <==> !(curve_tails_safe(document.spec_bytes())
            && difficulty_parses(document@))),
        entry.mapset is Some && r is Err ==> r->Err_0 == ApiError::Parse,
        r is Ok ==> ({
            let d = r->Ok_0;
            let s = entry.mapset->Some_0;
            &&& d.title@ == s.title@
            &&& d.artist@ == s.artist@
            &&& d.creator@ == s.creator@
            &&& d.set_id == s.set_id
            &&& d.version@ == entry.version@
        }),
{
    let set = match entry.mapset {
        Some(s) => s,
        None => return Err(ApiError::MissingMapset),
    };
    if !curve_tails_are_safe(document) {
        return Err(ApiError::Parse);
    }
    match parse_difficulty_map(document) {
        Some(map) => Ok(
            Details {
                title: set.title,
                artist: set.artist,
                creator: set.creator,
                version: entry.version,
                set_id: set.set_id,
                map,
            },
        ),
        None => Err(ApiError::Parse),
    }
}

} // verus!
