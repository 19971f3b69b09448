use beatmap_resolver::analysis::AnalyzeError;
use beatmap_resolver::cache::{cache_path, download_url};
use beatmap_resolver::curve::curve_tails_are_safe;
use beatmap_resolver::details::{
    beatmap_details, start_details, ApiError, CatalogEntry, MapsetInfo,
};
use beatmap_resolver::mode::ModeError;
use beatmap_resolver::resolve::{Action, Event, FetchError, ResolveError, Stage};
use beatmap_resolver::status::PublicationStatus;

const DOC: &str = "osu file format v14

[General]
Mode: 0

[Difficulty]
HPDrainRate:5
CircleSize:4
OverallDifficulty:8
ApproachRate:9
SliderMultiplier:1.4
SliderTickRate:1

[TimingPoints]
0,500,4,2,0,100,1,0

[HitObjects]
256,192,1000,1,0,0:0:0:0:
300,192,1250,1,0,0:0:0:0:
100,100,1500,1,0,0:0:0:0:
400,300,1750,1,0,0:0:0:0:
";

fn entry(status: PublicationStatus, with_set: bool) -> CatalogEntry {
    CatalogEntry {
        version: "Normal".to_string(),
        status,
        mapset: if with_set {
            Some(MapsetInfo {
                title: "Title".to_string(),
                artist: "Artist".to_string(),
                creator: "Creator".to_string(),
                set_id: 77,
            })
        } else {
            None
        },
    }
}

#[test]
fn missing_mapset_is_reported() {
    assert_eq!(
        start_details(1, Some(entry(PublicationStatus::Ranked, false))).err(),
        Some(ApiError::MissingMapset)
    );
    assert_eq!(
        beatmap_details(entry(PublicationStatus::Ranked, false), DOC).err(),
        Some(ApiError::MissingMapset)
    );
}

#[test]
fn catalog_failure_starts_nothing() {
    assert_eq!(start_details(1, None).err(), Some(ApiError::Catalog));
}

#[test]
fn start_details_follows_the_status() {
    let (e, r, first) = match start_details(8, Some(entry(PublicationStatus::Loved, true))) {
        Ok(started) => started,
        Err(err) => panic!("unexpected {:?}", err),
    };
    assert_eq!(e.status, PublicationStatus::Loved);
    assert_eq!(r.id(), 8);
    assert!(matches!(first, Action::ReadCache));
    let (_, r, first) = match start_details(8, Some(entry(PublicationStatus::Pending, true))) {
        Ok(started) => started,
        Err(err) => panic!("unexpected {:?}", err),
    };
    assert_eq!(r.stage(), Stage::AwaitResponse);
    assert!(matches!(first, Action::Request));
}

#[test]
fn details_copy_catalog_fields() {
    let d = beatmap_details(entry(PublicationStatus::Ranked, true), DOC).ok().unwrap();
    assert_eq!(d.title, "Title");
    assert_eq!(d.artist, "Artist");
    assert_eq!(d.creator, "Creator");
    assert_eq!(d.version, "Normal");
    assert_eq!(d.set_id, 77);
    assert_eq!(d.map.ar, 9.0);
    assert_eq!(d.map.cs, 4.0);
}

#[test]
fn error_statuses() {
    assert_eq!(ApiError::BadMode.http_status(), 400);
    assert!(ApiError::BadMode.is_user_error());
    for e in [
        ApiError::Catalog,
        ApiError::MissingMapset,
        ApiError::Parse,
        ApiError::Resolve(ResolveError::CacheUnreadable),
        ApiError::Resolve(ResolveError::Fetch(FetchError::Transport)),
    ] {
        assert_eq!(e.http_status(), 500);
        assert!(!e.is_user_error());
    }
    assert_eq!(
        ApiError::from_analysis(AnalyzeError::BadMode(ModeError)),
        ApiError::BadMode
    );
    assert_eq!(ApiError::from_analysis(AnalyzeError::Parse), ApiError::Parse);
}

#[test]
fn ranked_map_without_cache_end_to_end() {
    let id: u32 = 123;
    let (e, mut r, first) = match start_details(id, Some(entry(PublicationStatus::Ranked, true))) {
        Ok(started) => started,
        Err(err) => panic!("unexpected {:?}", err),
    };
    assert!(matches!(first, Action::ReadCache));
    assert!(matches!(r.step(Event::CacheMissing), Action::Request));
    assert_eq!(download_url(r.id()), "https://osu.ppy.sh/osu/123");
    assert!(matches!(r.step(Event::Responded(200)), Action::ReadBody));
    match r.step(Event::Body(DOC.as_bytes().to_vec())) {
        Action::Persist(b) => {
            assert_eq!(cache_path(r.id()), "maps/123.osu");
            assert_eq!(b, DOC.as_bytes());
        }
        other => panic!("unexpected {:?}", other),
    }
    let doc = match r.step(Event::Persisted) {
        Action::Deliver(s) => s,
        other => panic!("unexpected {:?}", other),
    };
    let d = beatmap_details(e, &doc).ok().unwrap();
    let stars = rosu_pp::Difficulty::new().calculate(&d.map).stars();
    assert!(stars.is_finite());
    assert!(stars >= 0.0);
}

const LONE_TYPE_TAIL: &str = "osu file format v14

[HitObjects]
0,0,1000,2,0,B|1:1|B,1
";

const TAGS_WITH_PIPE: &str = "osu file format v14

[Metadata]
Tags:a|b,c

[Difficulty]
HPDrainRate:5
CircleSize:4
OverallDifficulty:8
ApproachRate:9
SliderMultiplier:1.4
SliderTickRate:1

[TimingPoints]
0,500,4,2,0,100,1,0

[HitObjects]
256,192,1000,1,0,0:0:0:0:
300,192,1250,2,0,B|350:192|400:192,1,140
";

#[test]
fn slider_curve_ending_in_lone_type_is_malformed() {
    assert!(!curve_tails_are_safe(LONE_TYPE_TAIL));
    assert!(!curve_tails_are_safe("[HitObjects]\n0,0,1000,2,0,L|5:5|Bx,1"));
    assert_eq!(
        beatmap_details(entry(PublicationStatus::Ranked, true), LONE_TYPE_TAIL).err(),
        Some(ApiError::Parse)
    );
}

#[test]
fn pipes_outside_slider_curves_are_accepted() {
    assert!(curve_tails_are_safe(TAGS_WITH_PIPE));
    let d = beatmap_details(entry(PublicationStatus::Ranked, true), TAGS_WITH_PIPE).ok().unwrap();
    assert_eq!(d.title, "Title");
    // Before the hit objects, or in another field, the same shape is no curve.
    assert!(curve_tails_are_safe("0,0,1000,2,0,B|1:1|B,1\n[HitObjects]\n"));
    assert!(curve_tails_are_safe("[HitObjects]\n0,0,1000,2,0,1,B|1:1|B,1"));
    assert!(curve_tails_are_safe("[HitObjects]\n0,0,1000,2,B|1:1|B,1"));
}

#[test]
fn ordinary_curve_fields_are_accepted() {
    assert!(curve_tails_are_safe(DOC));
    assert!(curve_tails_are_safe("[HitObjects]\n0,0,1000,2,0,B|1:1|2:2,1"));
    assert!(curve_tails_are_safe("[HitObjects]\n0,0,1000,2,0,B|1:1|B|2:2,1"));
    assert!(curve_tails_are_safe("[HitObjects]\n0,0,1000,2,0,B|1:1|B"));
    assert!(curve_tails_are_safe("[HitObjects]\n0,0,1000,2,0,B|1:1|B\n,1"));
    assert!(curve_tails_are_safe(""));
}
