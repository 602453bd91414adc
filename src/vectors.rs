//! The vector query service: projected points for the current vector
//! population, with the fixed anchor points and the projection mode.
use vstd::prelude::*;
use vstd::string::*;
use crate::metrics::{clamp_spec, clamp_unit, HALF, SCALE};
use crate::projection::{project_spec, ProjectionState};

verus! {

/// Most points that one query asks the vector store for.
pub const QUERY_LIMIT: u32 = 500;

/// Milliseconds since the epoch of an RFC 3339 date-and-time, when it parses.
pub uninterp spec fn rfc3339_millis(s: Seq<char>) -> Option<i64>;

/// Relies on chrono's `DateTime::parse_from_rfc3339`, whose result is read as
/// milliseconds since the epoch through `DateTime::timestamp_millis`.
#[verifier::external_body]
fn parse_rfc3339_millis(s: &str) -> (r: Option<i64>)
    ensures
        r == rfc3339_millis(s@),
{
    chrono::DateTime::parse_from_rfc3339(s).ok().map(|dt| dt.timestamp_millis())
}

/// A point in 3-D space standing for one stored vector; coordinates and
/// salience are in millionths.
#[derive(Debug, Clone)]
pub struct ManifoldPoint {
    pub x: i64,
    pub y: i64,
    pub z: i64,
    pub salience: i64,
    pub age_ms: u64,
    pub id: String,
}

/// A fixed anchor point; coordinates are in millionths.
#[derive(Debug, Clone)]
pub struct LawCrystal {
    pub name: String,
    pub law: u8,
    pub x: i64,
    pub y: i64,
    pub z: i64,
}

/// Answer of a vector query.
#[derive(Debug, Clone)]
pub struct ManifoldResponse {
    pub points: Vec<ManifoldPoint>,
    pub crystals: Vec<LawCrystal>,
    pub projection_type: String,
}

/// One stored vector as the vector store hands it over. A field that is
/// absent or of another kind is `None`.
pub struct VectorRecord {
    /// Point id (a UUID, or a number written in decimal).
    pub id: Option<String>,
    /// Dense vector, components in millionths.
    pub vector: Option<Vec<i32>>,
    /// Semantic salience, in millionths.
    pub salience: Option<i64>,
    /// Encoding instant, as RFC 3339 text.
    pub encoded_at: Option<String>,
}

/// Age of a point: now minus its creation instant, never below zero; a
/// point whose creation instant is unknown counts as created now.
pub open spec fn age_spec(now_ms: u64, created_ms: Option<i64>) -> u64 {
    match created_ms {
        Some(c) => if (c as u64) < now_ms {
            (now_ms - (c as u64)) as u64
        } else {
            0
        },
        None => 0,
    }
}

/// Age of a point from its creation instant, if known.
pub fn point_age(now_ms: u64, created_ms: Option<i64>) -> (r: u64)
    ensures
        r == age_spec(now_ms, created_ms),
{
    match created_ms {
        Some(c) => now_ms.saturating_sub(#[verifier::truncate] (c as u64)),
        None => 0,
    }
}

/// Creation instant of a record, when its timestamp is present and parses.
pub open spec fn created_spec(encoded_at: Option<String>) -> Option<i64> {
    match encoded_at {
        Some(s) => rfc3339_millis(s@),
        None => None,
    }
}

pub open spec fn id_spec(id: Option<String>) -> Seq<char> {
    match id {
        Some(s) => s@,
        None => "unknown"@,
    }
}

/// `p` is the point of record `rec`, which holds a vector.
pub open spec fn point_of(p: ManifoldPoint, rec: VectorRecord, m: Seq<i64>, now_ms: u64) -> bool {
    let xyz = project_spec(m, rec.vector->0@);
    &&& p.x == xyz.0
    &&& p.y == xyz.1
    &&& p.z == xyz.2
    &&& p.salience == clamp_spec(
        match rec.salience {
            Some(s) => s as int,
            None => HALF as int,
        },
        0,
        SCALE as int,
    )
    &&& p.age_ms == age_spec(now_ms, created_spec(rec.encoded_at))
    &&& p.id@ == id_spec(rec.id)
}

/// The point of one record; `None` for a record without a dense vector.
pub fn point_from_record(projection: &ProjectionState, rec: &VectorRecord, now_ms: u64) -> (r:
    Option<ManifoldPoint>)
    requires
        projection.wf(),
    ensures
        rec.vector is None <==> r is None,
        r matches Some(p) ==> point_of(p, *rec, projection.matrix@, now_ms),
{
    match &rec.vector {
        None => None,
        Some(v) => {
            let (x, y, z) = projection.project(v.as_slice());
            let salience = match rec.salience {
                Some(s) => s,
                None => HALF,
            };
            let created = match &rec.encoded_at {
                Some(s) => parse_rfc3339_millis(s.as_str()),
                None => None,
            };
            let id = match &rec.id {
                Some(s) => s.clone(),
                None => String::from_str("unknown"),
            };
            Some(
                ManifoldPoint {
                    x,
                    y,
                    z,
                    salience: clamp_unit(salience),
                    age_ms: point_age(now_ms, created),
                    id,
                },
            )
        },
    }
}

/// Indices of the first `n` records that hold a vector, in order.
pub open spec fn kept_indices(recs: Seq<VectorRecord>, n: int) -> Seq<int>
    decreases n,
{
    if n <= 0 {
        Seq::empty()
    } else if recs[n - 1].vector is Some {
        kept_indices(recs, n - 1).push(n - 1)
    } else {
        kept_indices(recs, n - 1)
    }
}

/// The points of all records that hold a vector, in the order of the
/// records; records without one are skipped.
pub fn manifold_points(projection: &ProjectionState, recs: &Vec<VectorRecord>, now_ms: u64) -> (r:
    Vec<ManifoldPoint>)
    requires
        projection.wf(),
    ensures
        r@.len() == kept_indices(recs@, recs@.len() as int).len(),
        forall|k: int|
            0 <= k < r@.len() ==> point_of(
                #[trigger] r@[k],
                recs@[kept_indices(recs@, recs@.len() as int)[k]],
                projection.matrix@,
                now_ms,
            ),
{
    let mut r: Vec<ManifoldPoint> = Vec::new();
    let mut i: usize = 0;
    while i < recs.len()
        invariant
            projection.wf(),
            i <= recs@.len(),
            r@.len() == kept_indices(recs@, i as int).len(),
            forall|k: int|
                0 <= k < r@.len() ==> point_of(
                    #[trigger] r@[k],
                    recs@[kept_indices(recs@, i as int)[k]],
                    projection.matrix@,
                    now_ms,
                ),
        decreases recs@.len() - i,
    {
        let p = point_from_record(projection, &recs[i], now_ms);
        match p {
            Some(p) => {
                r.push(p);
            },
            None => {},
        }
        i = i + 1;
    }
    r
}

/// `c` is the anchor with the given label, law number and coordinates.
pub open spec fn crystal_is(c: LawCrystal, name: Seq<char>, law: u8, x: int, y: int, z: int) -> bool {
    c.name@ == name && c.law == law && c.x == x && c.y == y && c.z == z
}

/// The four fixed anchors, at the corners of a tetrahedron around the origin.
pub open spec fn fixed_crystals(cs: Seq<LawCrystal>) -> bool {
    &&& cs.len() == 4
    &&& crystal_is(cs[0], "Law 0: Humanity"@, 0, 0, 1_500_000, 0)
    &&& crystal_is(cs[1], "Law 1: No Harm"@, 1, 1_400_000, -500_000, 0)
    &&& crystal_is(cs[2], "Law 2: Obey"@, 2, -700_000, -500_000, 1_200_000)
    &&& crystal_is(cs[3], "Law 3: Self"@, 3, -700_000, -500_000, -1_200_000)
}

fn crystal(name: &str, law: u8, x: i64, y: i64, z: i64) -> (r: LawCrystal)
    ensures
        crystal_is(r, name@, law, x as int, y as int, z as int),
{
    LawCrystal { name: String::from_str(name), law, x, y, z }
}

/// The anchor points shown beside the projected points. They are fixed and
/// do not depend on the matrix.
pub fn get_law_crystals(projection: &ProjectionState) -> (r: Vec<LawCrystal>)
    ensures
        fixed_crystals(r@),
{
    let mut r: Vec<LawCrystal> = Vec::new();
    r.push(crystal("Law 0: Humanity", 0, 0, 1_500_000, 0));
    r.push(crystal("Law 1: No Harm", 1, 1_400_000, -500_000, 0));
    r.push(crystal("Law 2: Obey", 2, -700_000, -500_000, 1_200_000));
    r.push(crystal("Law 3: Self", 3, -700_000, -500_000, -1_200_000));
    r
}

/// Answers a vector query from what the vector store returned (`None` when
/// the store could not be read): the points of the records that hold a
/// vector, the fixed anchors, and the projection mode.
pub fn manifold_response(
    projection: &ProjectionState,
    fetched: Option<Vec<VectorRecord>>,
    now_ms: u64,
) -> (r: ManifoldResponse)
    requires
        projection.wf(),
    ensures
        fixed_crystals(r.crystals@),
        r.projection_type@ == if projection.is_trained {
            "pca"@
        } else {
            "random"@
        },
        fetched is None ==> r.points@.len() == 0,
        fetched matches Some(recs) ==> {
            let kept = kept_indices(recs@, recs@.len() as int);
            &&& r.points@.len() == kept.len()
            &&& forall|k: int|
                0 <= k < r.points@.len() ==> point_of(
                    #[trigger] r.points@[k],
                    recs@[kept[k]],
                    projection.matrix@,
                    now_ms,
                )
        },
{
    let points = match fetched {
        Some(recs) => manifold_points(projection, &recs, now_ms),
        None => Vec::new(),
    };
    ManifoldResponse {
        points,
        crystals: get_law_crystals(projection),
        projection_type: projection.projection_type(),
    }
}

} // verus!
