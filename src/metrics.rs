//! Snapshot data model.
//!
//! Scores that are fractional by nature (salience, valence, arousal, drive,
//! entropy, ...) are held as fixed-point integers in millionths: the value
//! `0.25` is stored as `250_000`. Instants are milliseconds since the Unix epoch.
use vstd::prelude::*;
use vstd::string::*;

verus! {

/// One whole unit in the fixed-point representation.
pub const SCALE: i64 = 1_000_000;

/// The neutral midpoint of a unit score (0.5).
pub const HALF: i64 = 500_000;

/// A score restricted to the unit interval [0, 1].
pub open spec fn is_unit_score(x: i64) -> bool {
    0 <= x <= SCALE
}

/// A score restricted to the signed unit interval [-1, 1].
pub open spec fn is_signed_score(x: i64) -> bool {
    -SCALE <= x <= SCALE
}

/// Clamps `x` into [lo, hi].
pub open spec fn clamp_spec(x: int, lo: int, hi: int) -> int {
    if x < lo {
        lo
    } else if x > hi {
        hi
    } else {
        x
    }
}

/// Clamps a score into the unit interval.
pub fn clamp_unit(x: i64) -> (r: i64)
    ensures
        r == clamp_spec(x as int, 0, SCALE as int),
        is_unit_score(r),
{
    if x < 0 {
        0
    } else if x > SCALE {
        SCALE
    } else {
        x
    }
}

/// Clamps a score into the signed unit interval.
pub fn clamp_signed(x: i64) -> (r: i64)
    ensures
        r == clamp_spec(x as int, -SCALE as int, SCALE as int),
        is_signed_score(r),
{
    if x < -SCALE {
        -SCALE
    } else if x > SCALE {
        SCALE
    } else {
        x
    }
}

#[derive(Debug, Clone)]
pub struct IdentityMetrics {
    pub name: String,
    pub uptime_seconds: u64,
    pub lifetime_thoughts: u64,
    pub session_thoughts: u64,
    pub restart_count: u32,
}

#[derive(Debug, Clone, Copy, PartialEq, Eq)]
pub struct CognitiveMetrics {
    pub conscious_memories: u64,
    pub unconscious_memories: u64,
    pub lifetime_dreams: u64,
    pub current_cycle: u64,
}

/// Emotional state; every field is in millionths.
#[derive(Debug, Clone, Copy, PartialEq, Eq)]
pub struct EmotionalMetrics {
    pub valence: i64,
    pub arousal: i64,
    pub dominance: i64,
    pub connection_drive: i64,
    pub emotional_intensity: i64,
}

#[derive(Debug, Clone)]
pub struct ActorStatus {
    pub name: String,
    pub alive: bool,
    pub restart_count: u32,
}

#[derive(Debug, Clone)]
pub struct ActorMetrics {
    pub memory_actor: ActorStatus,
    pub attention_actor: ActorStatus,
    pub salience_actor: ActorStatus,
    pub volition_actor: ActorStatus,
}

/// A recent thought; `salience` is in millionths.
#[derive(Debug, Clone)]
pub struct ThoughtSummary {
    pub id: String,
    pub content_preview: String,
    pub salience: i64,
    pub timestamp_ms: i64,
}

/// The latest fully-formed dashboard state.
#[derive(Debug, Clone)]
pub struct DashboardMetrics {
    pub timestamp_ms: i64,
    pub identity: IdentityMetrics,
    pub cognitive: CognitiveMetrics,
    pub emotional: EmotionalMetrics,
    pub actors: ActorMetrics,
    pub recent_thoughts: Vec<ThoughtSummary>,
}

/// One competing stage; `activity` and `history` are in millionths.
#[derive(Debug, Clone)]
pub struct StageMetrics {
    pub name: String,
    pub activity: i64,
    pub history: Vec<i64>,
}

#[derive(Debug, Clone)]
pub struct StreamCompetitionMetrics {
    pub stages: Vec<StageMetrics>,
    pub dominant_stream: usize,
    pub active_count: usize,
    pub competition_level: String,
}

/// Entropy reading; numbers are in millionths.
#[derive(Debug, Clone)]
pub struct EntropyMetrics {
    pub current: i64,
    pub history: Vec<i64>,
    pub description: String,
    pub normalized: i64,
}

/// Fractality reading; numbers are in millionths.
#[derive(Debug, Clone)]
pub struct FractalityMetrics {
    pub score: i64,
    pub inter_arrival_sigma: i64,
    pub boot_sigma: i64,
    pub burst_ratio: i64,
    pub description: String,
    pub history: Vec<i64>,
}

#[derive(Debug, Clone, Copy, PartialEq, Eq)]
pub struct MemorySlot {
    pub id: u8,
    pub active: bool,
}

#[derive(Debug, Clone)]
pub struct MemoryWindowsMetrics {
    pub slots: Vec<MemorySlot>,
    pub active_count: usize,
    pub conscious_count: u64,
    pub unconscious_count: u64,
}

#[derive(Debug, Clone)]
pub struct PhilosophyMetrics {
    pub quote: String,
    pub quote_index: usize,
}

/// System-level metrics; `thoughts_per_hour` is in millionths.
#[derive(Debug, Clone, Copy, PartialEq, Eq)]
pub struct SystemMetrics {
    pub uptime_seconds: u64,
    pub session_thoughts: u64,
    pub lifetime_thoughts: u64,
    pub thoughts_per_hour: i64,
    pub dream_cycles: u64,
    pub veto_count: u64,
}

/// Richer diagnostic state from the upstream metrics source.
#[derive(Debug, Clone)]
pub struct ExtendedMetrics {
    pub timestamp_ms: i64,
    pub stream_competition: StreamCompetitionMetrics,
    pub entropy: EntropyMetrics,
    pub fractality: FractalityMetrics,
    pub memory_windows: MemoryWindowsMetrics,
    pub philosophy: PhilosophyMetrics,
    pub system: SystemMetrics,
}

/// The combined document sent to observers.
#[derive(Debug, Clone)]
pub struct ObservatoryMetrics {
    pub dashboard: DashboardMetrics,
    pub extended: Option<ExtendedMetrics>,
}


/// The fixed actor table: name of each logical subsystem.
pub open spec fn actor_is(a: ActorStatus, name: Seq<char>) -> bool {
    a.name@ == name && a.alive && a.restart_count == 0
}

/// Every actor of the table is alive with no restarts, under its fixed name.
pub open spec fn default_actors_spec(a: ActorMetrics) -> bool {
    &&& actor_is(a.memory_actor, "MemoryActor"@)
    &&& actor_is(a.attention_actor, "AttentionActor"@)
    &&& actor_is(a.salience_actor, "SalienceActor"@)
    &&& actor_is(a.volition_actor, "VolitionActor"@)
}

fn actor(name: &str) -> (r: ActorStatus)
    ensures
        actor_is(r, name@),
{
    ActorStatus { name: String::from_str(name), alive: true, restart_count: 0 }
}

/// The actor table reported while the host exposes no actor health.
pub fn default_actors() -> (r: ActorMetrics)
    ensures
        default_actors_spec(r),
{
    ActorMetrics {
        memory_actor: actor("MemoryActor"),
        attention_actor: actor("AttentionActor"),
        salience_actor: actor("SalienceActor"),
        volition_actor: actor("VolitionActor"),
    }
}

/// Name under which the observed process reports.
pub open spec fn host_name() -> Seq<char> {
    "Timmy"@
}

/// The snapshot held before the first successful poll.
pub open spec fn is_default_metrics(m: DashboardMetrics, timestamp_ms: i64) -> bool {
    &&& m.timestamp_ms == timestamp_ms
    &&& m.identity.name@ == host_name()
    &&& m.identity.uptime_seconds == 0
    &&& m.identity.lifetime_thoughts == 0
    &&& m.identity.session_thoughts == 0
    &&& m.identity.restart_count == 0
    &&& m.cognitive == (CognitiveMetrics {
        conscious_memories: 0,
        unconscious_memories: 0,
        lifetime_dreams: 0,
        current_cycle: 0,
    })
    &&& m.emotional == (EmotionalMetrics {
        valence: 0,
        arousal: HALF,
        dominance: HALF,
        connection_drive: HALF,
        emotional_intensity: 0,
    })
    &&& default_actors_spec(m.actors)
    &&& m.recent_thoughts@.len() == 0
}

/// Builds the snapshot that stands before any poll has succeeded.
pub fn default_metrics(timestamp_ms: i64) -> (r: DashboardMetrics)
    ensures
        is_default_metrics(r, timestamp_ms),
        r.wf(),
{
    DashboardMetrics {
        timestamp_ms,
        identity: IdentityMetrics {
            name: String::from_str("Timmy"),
            uptime_seconds: 0,
            lifetime_thoughts: 0,
            session_thoughts: 0,
            restart_count: 0,
        },
        cognitive: CognitiveMetrics {
            conscious_memories: 0,
            unconscious_memories: 0,
            lifetime_dreams: 0,
            current_cycle: 0,
        },
        emotional: EmotionalMetrics {
            valence: 0,
            arousal: HALF,
            dominance: HALF,
            connection_drive: HALF,
            emotional_intensity: 0,
        },
        actors: default_actors(),
        recent_thoughts: Vec::new(),
    }
}

impl EmotionalMetrics {
    /// Valence is signed, every other field a unit score.
    pub open spec fn wf(&self) -> bool {
        &&& is_signed_score(self.valence)
        &&& is_unit_score(self.arousal)
        &&& is_unit_score(self.dominance)
        &&& is_unit_score(self.connection_drive)
        &&& is_unit_score(self.emotional_intensity)
    }
}

impl DashboardMetrics {
    /// Scores lie in their intervals.
    pub open spec fn wf(&self) -> bool {
        &&& self.emotional.wf()
        &&& forall|i: int|
            0 <= i < self.recent_thoughts@.len() ==> is_unit_score(
                #[trigger] self.recent_thoughts@[i].salience,
            )
    }
}

impl StreamCompetitionMetrics {
    /// The dominant index and the active count agree with the stage list.
    pub open spec fn wf(&self) -> bool {
        &&& self.active_count <= self.stages@.len()
        &&& (self.stages@.len() == 0 ==> self.dominant_stream == 0)
        &&& (self.stages@.len() > 0 ==> self.dominant_stream < self.stages@.len())
    }
}

impl ExtendedMetrics {
    /// Counts agree with their lists and normalized scores are unit scores.
    pub open spec fn wf(&self) -> bool {
        &&& self.stream_competition.wf()
        &&& is_unit_score(self.entropy.normalized)
        &&& self.memory_windows.active_count <= self.memory_windows.slots@.len()
    }

    /// The reading brought into the invariant: an out-of-range dominant index
    /// falls back to the first stage, counts are capped by their lists, and the
    /// normalized entropy is clamped to [0, 1]. Nothing else changes.
    pub open spec fn sanitize_spec(self) -> Self {
        let sc = self.stream_competition;
        let n_stages = sc.stages@.len() as int;
        let mw = self.memory_windows;
        ExtendedMetrics {
            stream_competition: StreamCompetitionMetrics {
                dominant_stream: if sc.dominant_stream < n_stages {
                    sc.dominant_stream
                } else {
                    0
                },
                active_count: clamp_spec(sc.active_count as int, 0, n_stages) as usize,
                ..sc
            },
            entropy: EntropyMetrics {
                normalized: clamp_spec(self.entropy.normalized as int, 0, SCALE as int) as i64,
                ..self.entropy
            },
            memory_windows: MemoryWindowsMetrics {
                active_count: clamp_spec(mw.active_count as int, 0, mw.slots@.len() as int) as usize,
                ..mw
            },
            ..self
        }
    }

    /// Brings a reading from upstream into the invariant.
    pub fn sanitized(self) -> (r: Self)
        ensures
            r == self.sanitize_spec(),
            r.wf(),
            self.wf() ==> r == self,
    {
        let mut r = self;
        let n_stages = r.stream_competition.stages.len();
        if r.stream_competition.dominant_stream >= n_stages {
            r.stream_competition.dominant_stream = 0;
        }
        if r.stream_competition.active_count > n_stages {
            r.stream_competition.active_count = n_stages;
        }
        let n_slots = r.memory_windows.slots.len();
        if r.memory_windows.active_count > n_slots {
            r.memory_windows.active_count = n_slots;
        }
        r.entropy.normalized = clamp_unit(r.entropy.normalized);
        r
    }
}

} // verus!
