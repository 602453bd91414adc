//! Decisions of the stream/identity collector: turning the entries of the
//! awake stream, the identity record and the store counts of one poll into a
//! fully-formed snapshot, and the bounded random walk of the connection drive.
use vstd::prelude::*;
use vstd::string::*;
use crate::lcg::{lcg_next, lcg_step};
use crate::metrics::{
    default_actors, default_actors_spec, host_name, CognitiveMetrics, DashboardMetrics, EmotionalMetrics,
    IdentityMetrics, clamp_signed, clamp_spec, clamp_unit, is_signed_score, is_unit_score, ThoughtSummary, HALF, SCALE,
};

verus! {

/// Number of stream entries that a poll keeps, newest first.
pub const RECENT_LIMIT: usize = 20;

/// Number of characters of raw content shown when it holds no symbol id.
pub const PREVIEW_CHARS: usize = 80;

/// One entry of the awake stream as the stream client hands it over.
/// A payload field that is absent or of the wrong type is `None`.
pub struct StreamEntry {
    pub id: String,
    /// Raw content field, empty when absent.
    pub content: String,
    /// The symbol id found inside the content document, if any.
    pub symbol_id: Option<String>,
    /// Salience payload fields, in millionths.
    pub importance: Option<i64>,
    pub valence: Option<i64>,
    pub arousal: Option<i64>,
}

/// Preview of an entry: its symbol id, else the first characters of the raw content.
pub open spec fn preview_spec(content: Seq<char>, symbol_id: Option<Seq<char>>) -> Seq<char> {
    match symbol_id {
        Some(id) => id,
        None => if content.len() <= PREVIEW_CHARS {
            content
        } else {
            content.subrange(0, PREVIEW_CHARS as int)
        },
    }
}

pub open spec fn salience_of(e: StreamEntry) -> i64 {
    clamp_spec(
        match e.importance {
            Some(x) => x as int,
            None => HALF as int,
        },
        0,
        SCALE as int,
    ) as i64
}

pub open spec fn valence_of(e: StreamEntry) -> i64 {
    clamp_spec(
        match e.valence {
            Some(x) => x as int,
            None => 0,
        },
        -SCALE as int,
        SCALE as int,
    ) as i64
}

pub open spec fn arousal_of(e: StreamEntry) -> i64 {
    clamp_spec(
        match e.arousal {
            Some(x) => x as int,
            None => HALF as int,
        },
        0,
        SCALE as int,
    ) as i64
}

/// `t` summarises entry `e`, read at `now_ms`.
pub open spec fn summarises(t: ThoughtSummary, e: StreamEntry, now_ms: i64) -> bool {
    &&& t.id@ == e.id@
    &&& t.content_preview@ == preview_spec(
        e.content@,
        match e.symbol_id {
            Some(s) => Some(s@),
            None => None,
        },
    )
    &&& t.salience == salience_of(e)
    &&& t.timestamp_ms == now_ms
}

/// The text shown for an entry.
pub fn content_preview(content: &String, symbol_id: &Option<String>) -> (r: String)
    ensures
        r@ == preview_spec(
            content@,
            match symbol_id {
                Some(s) => Some(s@),
                None => None,
            },
        ),
{
    match symbol_id {
        Some(id) => id.clone(),
        None => {
            let text = content.as_str();
            let n = text.unicode_len();
            let end = if n <= PREVIEW_CHARS {
                n
            } else {
                PREVIEW_CHARS
            };
            let head = text.substring_char(0, end);
            proof {
                if n <= PREVIEW_CHARS {
                    assert(content@.subrange(0, n as int) =~= content@);
                }
            }
            String::from_str(head)
        },
    }
}

/// Summarises one stream entry.
pub fn summarize_entry(e: &StreamEntry, now_ms: i64) -> (r: ThoughtSummary)
    ensures
        summarises(r, *e, now_ms),
{
    let importance = match e.importance {
        Some(x) => x,
        None => HALF,
    };
    ThoughtSummary {
        id: e.id.clone(),
        content_preview: content_preview(&e.content, &e.symbol_id),
        salience: clamp_unit(importance),
        timestamp_ms: now_ms,
    }
}

pub open spec fn kept_count(n: int) -> int {
    if n <= RECENT_LIMIT {
        n
    } else {
        RECENT_LIMIT as int
    }
}

/// Summaries of the newest entries, in the order given (newest first).
pub fn recent_thoughts(entries: &Vec<StreamEntry>, now_ms: i64) -> (r: Vec<ThoughtSummary>)
    ensures
        r@.len() == kept_count(entries@.len() as int),
        forall|i: int| 0 <= i < r@.len() ==> summarises(#[trigger] r@[i], entries@[i], now_ms),
{
    let n = if entries.len() <= RECENT_LIMIT {
        entries.len()
    } else {
        RECENT_LIMIT
    };
    let mut r: Vec<ThoughtSummary> = Vec::new();
    let mut i: usize = 0;
    while i < n
        invariant
            n == kept_count(entries@.len() as int),
            n <= entries@.len(),
            i <= n,
            r@.len() == i,
            forall|k: int| 0 <= k < i ==> summarises(#[trigger] r@[k], entries@[k], now_ms),
        decreases n - i,
    {
        r.push(summarize_entry(&entries[i], now_ms));
        i = i + 1;
    }
    r
}

/// Emotional intensity in millionths: |valence| * arousal.
pub open spec fn intensity_spec(valence: int, arousal: int) -> int {
    (if valence < 0 {
        -valence
    } else {
        valence
    }) * arousal / (SCALE as int)
}

/// Emotional intensity, |valence| * arousal, from a signed valence and a unit arousal.
pub fn emotional_intensity(valence: i64, arousal: i64) -> (r: i64)
    requires
        is_signed_score(valence),
        is_unit_score(arousal),
    ensures
        r == intensity_spec(valence as int, arousal as int),
        is_unit_score(r),
{
    let magnitude: i64 = if valence < 0 {
        -valence
    } else {
        valence
    };
    assert(0 <= magnitude * arousal <= SCALE * SCALE) by (nonlinear_arith)
        requires
            0 <= magnitude <= SCALE,
            0 <= arousal <= SCALE,
    ;
    let product: i64 = magnitude * arousal;
    assert(product / SCALE <= SCALE) by (nonlinear_arith)
        requires
            0 <= product <= SCALE * SCALE,
    ;
    product / SCALE
}

/// Valence and arousal of the newest entry, or the neutral state (0, 0.5)
/// when the stream is empty.
pub open spec fn latest_emotion_spec(entries: Seq<StreamEntry>) -> (i64, i64) {
    if entries.len() > 0 {
        (valence_of(entries[0]), arousal_of(entries[0]))
    } else {
        (0, HALF)
    }
}

/// Reads the emotional state from the newest entry only.
pub fn latest_emotion(entries: &Vec<StreamEntry>) -> (r: (i64, i64))
    ensures
        r == latest_emotion_spec(entries@),
        is_signed_score(r.0),
        is_unit_score(r.1),
{
    if entries.len() > 0 {
        let e = &entries[0];
        let v = match e.valence {
            Some(x) => x,
            None => 0,
        };
        let a = match e.arousal {
            Some(x) => x,
            None => HALF,
        };
        (clamp_signed(v), clamp_unit(a))
    } else {
        (0, HALF)
    }
}


/// Centre that the connection drive reverts to (0.85).
pub const DRIVE_CENTER: i64 = 850_000;

/// Lower bound of the connection drive (0.5).
pub const DRIVE_MIN: i64 = 500_000;

/// Upper bound of the connection drive (1.0).
pub const DRIVE_MAX: i64 = 1_000_000;

/// Random step of the walk, in millionths, over [-0.02, +0.02): the raw
/// seed (the clock's nanoseconds) is scrambled by one LCG step first.
pub open spec fn drive_delta(seed: u64) -> int {
    ((lcg_next(seed) % 1000) as int - 500) * 40
}

/// Integer division rounding toward zero.
pub open spec fn div_toward_zero(x: int, d: int) -> int {
    if x >= 0 {
        x / d
    } else {
        -((-x) / d)
    }
}

/// Pull toward the centre: 5% of the distance to it.
pub open spec fn drive_reversion(drive: int) -> int {
    div_toward_zero(DRIVE_CENTER - drive, 20)
}

/// One tick of the mean-reverting walk, clamped to [0.5, 1.0].
pub open spec fn next_drive(drive: int, seed: u64) -> int {
    clamp_spec(drive + drive_delta(seed) + drive_reversion(drive), DRIVE_MIN as int, DRIVE_MAX as int)
}

/// The drive after one tick per seed, starting from `start`.
pub open spec fn drive_after(start: int, seeds: Seq<u64>) -> int
    decreases seeds.len(),
{
    if seeds.len() == 0 {
        start
    } else {
        next_drive(drive_after(start, seeds.drop_last()), seeds.last())
    }
}

/// However many ticks pass and whatever the random steps, the drive stays in
/// [0.5, 1.0] (from any start once a tick has passed, and from the start on
/// when it already lies in that range).
pub proof fn lemma_drive_stays_bounded(start: int, seeds: Seq<u64>)
    requires
        seeds.len() > 0 || DRIVE_MIN <= start <= DRIVE_MAX,
    ensures
        DRIVE_MIN <= drive_after(start, seeds) <= DRIVE_MAX,
{
}

/// Advances the connection drive by one tick of its random walk.
pub fn connection_drive_step(drive: i64, seed: u64) -> (r: i64)
    ensures
        r == next_drive(drive as int, seed),
        DRIVE_MIN <= r <= DRIVE_MAX,
{
    let mixed = lcg_step(seed);
    let delta: i128 = ((mixed % 1000) as i128 - 500) * 40;
    let gap: i128 = DRIVE_CENTER as i128 - drive as i128;
    let reversion: i128 = if gap >= 0 {
        gap / 20
    } else {
        -((-gap) / 20)
    };
    let next: i128 = drive as i128 + delta + reversion;
    if next < DRIVE_MIN as i128 {
        DRIVE_MIN
    } else if next > DRIVE_MAX as i128 {
        DRIVE_MAX
    } else {
        next as i64
    }
}

/// Fields of the identity record; a field that is absent or not an integer is `None`.
pub struct IdentityPayload {
    pub lifetime_thought_count: Option<i64>,
    pub restart_count: Option<i64>,
    pub lifetime_dream_count: Option<i64>,
}

/// Identity counters of the observed process.
#[derive(Debug, Clone, Copy, PartialEq, Eq)]
pub struct IdentityCounters {
    pub lifetime_thoughts: u64,
    pub restart_count: u32,
    pub lifetime_dreams: u64,
}

pub open spec fn or_zero(x: Option<i64>) -> i64 {
    match x {
        Some(v) => v,
        None => 0,
    }
}

/// Counters read from the identity record: each integer is taken as stored
/// (cast to the counter's width), a missing field or a missing record counts 0.
pub open spec fn identity_counters_spec(p: Option<IdentityPayload>) -> IdentityCounters {
    match p {
        Some(q) => IdentityCounters {
            lifetime_thoughts: or_zero(q.lifetime_thought_count) as u64,
            restart_count: or_zero(q.restart_count) as u32,
            lifetime_dreams: or_zero(q.lifetime_dream_count) as u64,
        },
        None => IdentityCounters { lifetime_thoughts: 0, restart_count: 0, lifetime_dreams: 0 },
    }
}

/// Reads the identity counters, defaulting each missing field to 0.
pub fn identity_counters(p: &Option<IdentityPayload>) -> (r: IdentityCounters)
    ensures
        r == identity_counters_spec(*p),
{
    match p {
        Some(q) => {
            let lifetime = match q.lifetime_thought_count {
                Some(v) => v,
                None => 0,
            };
            let restarts = match q.restart_count {
                Some(v) => v,
                None => 0,
            };
            let dreams = match q.lifetime_dream_count {
                Some(v) => v,
                None => 0,
            };
            IdentityCounters {
                lifetime_thoughts: #[verifier::truncate] (lifetime as u64),
                restart_count: #[verifier::truncate] (restarts as u32),
                lifetime_dreams: #[verifier::truncate] (dreams as u64),
            }
        },
        None => IdentityCounters { lifetime_thoughts: 0, restart_count: 0, lifetime_dreams: 0 },
    }
}


/// What one poll of the stream, the identity record and the store counts
/// brought back, as plain values.
pub struct StreamPoll {
    /// Instant of the poll.
    pub now_ms: i64,
    pub uptime_seconds: u64,
    pub identity: IdentityCounters,
    /// Length of the awake stream.
    pub session_thoughts: u64,
    /// Newest entries of the awake stream, newest first.
    pub entries: Vec<StreamEntry>,
    pub conscious_memories: u64,
    pub unconscious_memories: u64,
    /// Raw seed for this tick of the connection-drive walk.
    pub drive_seed: u64,
}

/// `m` is the snapshot that poll `p` yields, with connection drive `drive`.
pub open spec fn built_from_poll(m: DashboardMetrics, p: StreamPoll, drive: i64) -> bool {
    let emotion = latest_emotion_spec(p.entries@);
    &&& m.timestamp_ms == p.now_ms
    &&& m.identity.name@ == host_name()
    &&& m.identity.uptime_seconds == p.uptime_seconds
    &&& m.identity.lifetime_thoughts == p.identity.lifetime_thoughts
    &&& m.identity.session_thoughts == p.session_thoughts
    &&& m.identity.restart_count == p.identity.restart_count
    &&& m.cognitive == (CognitiveMetrics {
        conscious_memories: p.conscious_memories,
        unconscious_memories: p.unconscious_memories,
        lifetime_dreams: p.identity.lifetime_dreams,
        current_cycle: p.session_thoughts,
    })
    &&& m.emotional == (EmotionalMetrics {
        valence: emotion.0,
        arousal: emotion.1,
        dominance: HALF,
        connection_drive: drive,
        emotional_intensity: intensity_spec(emotion.0 as int, emotion.1 as int) as i64,
    })
    &&& default_actors_spec(m.actors)
    &&& m.recent_thoughts@.len() == kept_count(p.entries@.len() as int)
    &&& forall|i: int|
        0 <= i < m.recent_thoughts@.len() ==> summarises(
            #[trigger] m.recent_thoughts@[i],
            p.entries@[i],
            p.now_ms,
        )
}

/// Builds the whole snapshot of one poll; `drive` is the connection drive
/// after this tick of its walk.
pub fn assemble_metrics(p: &StreamPoll, drive: i64) -> (r: DashboardMetrics)
    requires
        DRIVE_MIN <= drive <= DRIVE_MAX,
    ensures
        built_from_poll(r, *p, drive),
        r.wf(),
{
    let (valence, arousal) = latest_emotion(&p.entries);
    let intensity = emotional_intensity(valence, arousal);
    let thoughts = recent_thoughts(&p.entries, p.now_ms);
    assert forall|i: int| 0 <= i < thoughts@.len() implies is_unit_score(
        #[trigger] thoughts@[i].salience,
    ) by {
        assert(summarises(thoughts@[i], p.entries@[i], p.now_ms));
    }
    DashboardMetrics {
        timestamp_ms: p.now_ms,
        identity: IdentityMetrics {
            name: String::from_str("Timmy"),
            uptime_seconds: p.uptime_seconds,
            lifetime_thoughts: p.identity.lifetime_thoughts,
            session_thoughts: p.session_thoughts,
            restart_count: p.identity.restart_count,
        },
        cognitive: CognitiveMetrics {
            conscious_memories: p.conscious_memories,
            unconscious_memories: p.unconscious_memories,
            lifetime_dreams: p.identity.lifetime_dreams,
            current_cycle: p.session_thoughts,
        },
        emotional: EmotionalMetrics {
            valence,
            arousal,
            dominance: HALF,
            connection_drive: drive,
            emotional_intensity: intensity,
        },
        actors: default_actors(),
        recent_thoughts: thoughts,
    }
}

} // verus!
