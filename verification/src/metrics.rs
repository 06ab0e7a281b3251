//! The metrics registry: three live gauges, their updates and their export.
//!
//! The registry is a plain value that is changed through `&mut`. Whoever
//! shares it between callers puts it behind one lock, so that every update
//! and every snapshot sees the gauges as some earlier update left them.

use vstd::prelude::*;
use vstd::string::*;
use crate::text::decimal_text;

verus! {

/// One integer gauge of the `prometheus` crate. The crate's own type cannot be
/// declared to the verifier, so the gauge is kept behind this handle and is
/// reached only through the functions below.
#[verifier::external_body]
pub struct Gauge {
    inner: prometheus::IntGauge,
}

/// What a gauge holds: the name and the help text it was made with, and its
/// current value.
pub struct GaugeState {
    pub name: Seq<char>,
    pub help: Seq<char>,
    pub value: i64,
}

impl GaugeState {
    /// A gauge as it is made: with its name, its help text and the value zero.
    pub open spec fn fresh(name: Seq<char>, help: Seq<char>) -> GaugeState {
        GaugeState { name, help, value: 0 }
    }

    /// The same gauge with another value.
    pub open spec fn with_value(self, value: i64) -> GaugeState {
        GaugeState { name: self.name, help: self.help, value }
    }
}

/// What `gauge` holds.
pub uninterp spec fn gauge_state(gauge: Gauge) -> GaugeState;

/// The number that the text encoder of `prometheus` writes for a gauge value.
/// The encoder converts the value to a double and writes the shortest digits
/// that read back as that double, so beyond 2^53 in either direction the
/// number is rounded.
pub uninterp spec fn sample_text(value: i64) -> Seq<char>;

/// `prometheus::Error`: why a gauge could not be made or encoded. Nothing is
/// read from it.
#[verifier::external_type_specification]
#[verifier::external_body]
pub struct ExMetricsError(prometheus::Error);

/// The letters, the underscore and the colon: what a metric name may begin
/// with.
pub open spec fn is_name_start(c: char) -> bool {
    ||| 'a' <= c <= 'z'
    ||| 'A' <= c <= 'Z'
    ||| c == '_'
    ||| c == ':'
}

/// What a metric name may continue with: the above and the digits.
pub open spec fn is_name_part(c: char) -> bool {
    is_name_start(c) || '0' <= c <= '9'
}

/// The names `prometheus` accepts for a metric.
pub open spec fn is_metric_name(name: Seq<char>) -> bool {
    &&& name.len() > 0
    &&& is_name_start(name[0])
    &&& forall|i: int| 1 <= i < name.len() ==> is_name_part(#[trigger] name[i])
}

/// A help text that the text encoder writes as it stands: it is not empty
/// and holds neither a backslash nor a line break.
pub open spec fn is_plain_help(help: Seq<char>) -> bool {
    &&& help.len() > 0
    &&& forall|i: int| 0 <= i < help.len() ==> #[trigger] help[i] != '\\' && help[i] != '\n'
}

/// The values that the text encoder writes digit for digit: up to 2^53 in
/// either direction, where a double tells every integer from its neighbours.
pub open spec fn is_exact_sample(value: i64) -> bool {
    -0x20_0000_0000_0000 <= value <= 0x20_0000_0000_0000
}

/// The three lines of one gauge in the text exposition format: its help, its
/// type, and its name with the sample.
pub open spec fn metric_lines(name: Seq<char>, help: Seq<char>, sample: Seq<char>) -> Seq<char> {
    "# HELP "@ + name + " "@ + help + "\n# TYPE "@ + name + " gauge\n"@ + name + " "@ + sample + "\n"@
}

/// The value after one increment: the gauge wraps around at the end of the
/// `i64` range.
pub open spec fn wrapping_succ(value: i64) -> i64 {
    if value == i64::MAX {
        i64::MIN
    } else {
        (value + 1) as i64
    }
}

/// The value after one decrement: the gauge wraps around at the start of the
/// `i64` range.
pub open spec fn wrapping_pred(value: i64) -> i64 {
    if value == i64::MIN {
        i64::MAX
    } else {
        (value - 1) as i64
    }
}

/// `prometheus::IntGauge::new`. It succeeds exactly when the name is a valid
/// metric name and the help text is not empty, and the gauge it makes holds
/// that name, that help text and the value zero.
#[verifier::external_body]
fn gauge_new(name: &str, help: &str) -> (made: Result<Gauge, prometheus::Error>)
    ensures
        made is Ok <==> (is_metric_name(name@) && help@.len() > 0),
        made matches Ok(gauge) ==> gauge_state(gauge) == GaugeState::fresh(name@, help@),
{
    match prometheus::IntGauge::new(name, help) {
        Ok(inner) => Ok(Gauge { inner }),
        Err(error) => Err(error),
    }
}

/// `prometheus::IntGauge::set`: an atomic store. The gauge holds the given
/// value afterwards; the call cannot panic.
#[verifier::external_body]
fn gauge_set(gauge: &mut Gauge, value: i64)
    ensures
        gauge_state(*final(gauge)) == gauge_state(*old(gauge)).with_value(value),
    no_unwind
{
    gauge.inner.set(value)
}

/// `prometheus::IntGauge::inc`: an atomic add of one, which wraps around and
/// cannot panic.
#[verifier::external_body]
fn gauge_inc(gauge: &mut Gauge)
    ensures
        gauge_state(*final(gauge)) == gauge_state(*old(gauge)).with_value(
            wrapping_succ(gauge_state(*old(gauge)).value),
        ),
    no_unwind
{
    gauge.inner.inc()
}

/// `prometheus::IntGauge::dec`: an atomic subtraction of one, which wraps
/// around and cannot panic.
#[verifier::external_body]
fn gauge_dec(gauge: &mut Gauge)
    ensures
        gauge_state(*final(gauge)) == gauge_state(*old(gauge)).with_value(
            wrapping_pred(gauge_state(*old(gauge)).value),
        ),
    no_unwind
{
    gauge.inner.dec()
}

/// `prometheus::IntGauge::get`: the value the gauge holds.
#[verifier::external_body]
fn gauge_get(gauge: &Gauge) -> (value: i64)
    ensures
        value == gauge_state(*gauge).value,
{
    gauge.inner.get()
}

/// `prometheus::TextEncoder::encode_to_string` on what `collect` returns for
/// the gauge: one metric family with one sample and no labels. The encoder
/// fails only on a family without a name or without samples, so it succeeds
/// here. For a plain help text it writes the help line, the type line and the
/// sample line; the sample is the value converted to a double and written by
/// `f64`'s `Display`, which for a value of at most 2^53 in either direction
/// is its decimal notation.
#[verifier::external_body]
fn gauge_encode(gauge: &Gauge) -> (encoded: Result<String, prometheus::Error>)
    ensures
        encoded is Ok,
        encoded matches Ok(text) ==> (is_plain_help(gauge_state(*gauge).help) ==> text@
            == metric_lines(
            gauge_state(*gauge).name,
            gauge_state(*gauge).help,
            sample_text(gauge_state(*gauge).value),
        )),
        encoded matches Ok(text) ==> (is_plain_help(gauge_state(*gauge).help)
            && is_exact_sample(gauge_state(*gauge).value) ==> text@ == metric_lines(
            gauge_state(*gauge).name,
            gauge_state(*gauge).help,
            decimal_text(gauge_state(*gauge).value as int),
        )),
{
    let families = prometheus::core::Collector::collect(&gauge.inner);
    prometheus::TextEncoder::new().encode_to_string(&families)
}

/// The three gauges as they stand at one instant.
#[derive(Clone, Copy, Debug, PartialEq, Eq, Structural)]
pub struct Snapshot {
    /// Players online: joins seen minus leaves seen.
    pub player_count: i64,
    /// Ticks per second, as last reported.
    pub tps: i64,
    /// Latency, as last reported.
    pub latency: i64,
}

impl Snapshot {
    /// The gauges of a registry that has seen nothing yet.
    pub open spec fn zero() -> Snapshot {
        Snapshot { player_count: 0, tps: 0, latency: 0 }
    }

    /// The gauges after one more player has joined.
    pub open spec fn joined(self) -> Snapshot {
        Snapshot { player_count: wrapping_succ(self.player_count), ..self }
    }

    /// The gauges after one player has left.
    pub open spec fn left(self) -> Snapshot {
        Snapshot { player_count: wrapping_pred(self.player_count), ..self }
    }

    /// The gauges after a new ticks-per-second reading.
    pub open spec fn with_tps(self, value: i64) -> Snapshot {
        Snapshot { tps: value, ..self }
    }

    /// The gauges after a new latency reading.
    pub open spec fn with_latency(self, value: i64) -> Snapshot {
        Snapshot { latency: value, ..self }
    }

    /// Every gauge holds a value that the exporter writes digit for digit.
    pub open spec fn is_exact(self) -> bool {
        &&& is_exact_sample(self.player_count)
        &&& is_exact_sample(self.tps)
        &&& is_exact_sample(self.latency)
    }
}

/// A sample that was just set is the sample that is read: setting one gauge
/// makes it hold the given value and leaves the other two as they were.
pub proof fn lemma_sample_is_read_back(gauges: Snapshot, value: i64)
    ensures
        gauges.with_tps(value).tps == value,
        gauges.with_tps(value).player_count == gauges.player_count,
        gauges.with_tps(value).latency == gauges.latency,
        gauges.with_latency(value).latency == value,
        gauges.with_latency(value).player_count == gauges.player_count,
        gauges.with_latency(value).tps == gauges.tps,
{
}

/// The exporter's text for the gauges: one block of three lines for each
/// gauge, the gauges in the order of their names.
pub open spec fn exposition(gauges: Snapshot) -> Seq<char> {
    metric_lines("minecraft_latency"@, "Bot latency"@, sample_text(gauges.latency))
        + metric_lines(
        "minecraft_player_count"@,
        "Number of players online"@,
        sample_text(gauges.player_count),
    ) + metric_lines("minecraft_tps"@, "Server TPS"@, sample_text(gauges.tps))
}

/// The exporter's text with every sample in plain decimal notation.
pub open spec fn decimal_exposition(gauges: Snapshot) -> Seq<char> {
    metric_lines("minecraft_latency"@, "Bot latency"@, decimal_text(gauges.latency as int))
        + metric_lines(
        "minecraft_player_count"@,
        "Number of players online"@,
        decimal_text(gauges.player_count as int),
    ) + metric_lines("minecraft_tps"@, "Server TPS"@, decimal_text(gauges.tps as int))
}

/// The registry: the single source of truth for the three gauges.
pub struct Metrics {
    player_count: Gauge,
    tps: Gauge,
    latency: Gauge,
}

impl View for Metrics {
    type V = Snapshot;

    closed spec fn view(&self) -> Snapshot {
        Snapshot {
            player_count: gauge_state(self.player_count).value,
            tps: gauge_state(self.tps).value,
            latency: gauge_state(self.latency).value,
        }
    }
}

impl Metrics {
    /// Each gauge carries the name and the help text it is exported under.
    #[verifier::type_invariant]
    spec fn described(self) -> bool {
        &&& gauge_state(self.player_count).name == "minecraft_player_count"@
        &&& gauge_state(self.player_count).help == "Number of players online"@
        &&& gauge_state(self.tps).name == "minecraft_tps"@
        &&& gauge_state(self.tps).help == "Server TPS"@
        &&& gauge_state(self.latency).name == "minecraft_latency"@
        &&& gauge_state(self.latency).help == "Bot latency"@
    }

    /// Makes a registry whose gauges are all zero.
    pub fn new() -> (metrics: Metrics)
        ensures
            metrics@ == Snapshot::zero(),
    {
        proof {
            reveal_strlit("minecraft_player_count");
            reveal_strlit("Number of players online");
            reveal_strlit("minecraft_tps");
            reveal_strlit("Server TPS");
            reveal_strlit("minecraft_latency");
            reveal_strlit("Bot latency");
        }
        let player_count = match gauge_new("minecraft_player_count", "Number of players online") {
            Ok(gauge) => gauge,
            Err(_) => unreached(),
        };
        let tps = match gauge_new("minecraft_tps", "Server TPS") {
            Ok(gauge) => gauge,
            Err(_) => unreached(),
        };
        let latency = match gauge_new("minecraft_latency", "Bot latency") {
            Ok(gauge) => gauge,
            Err(_) => unreached(),
        };
        Metrics { player_count, tps, latency }
    }

    /// Overwrites all three gauges.
    pub fn update(&mut self, player_count: i64, tps: i64, latency: i64)
        ensures
            final(self)@ == (Snapshot { player_count, tps, latency }),
    {
        proof {
            use_type_invariant(&*self);
        }
        gauge_set(&mut self.player_count, player_count);
        gauge_set(&mut self.tps, tps);
        gauge_set(&mut self.latency, latency);
    }

    /// Counts one more player.
    pub fn increment_player_count(&mut self)
        ensures
            final(self)@ == old(self)@.joined(),
    {
        proof {
            use_type_invariant(&*self);
        }
        gauge_inc(&mut self.player_count);
    }

    /// Counts one player less. There is no floor: a leave without a join
    /// takes the count below zero.
    pub fn decrement_player_count(&mut self)
        ensures
            final(self)@ == old(self)@.left(),
    {
        proof {
            use_type_invariant(&*self);
        }
        gauge_dec(&mut self.player_count);
    }

    /// Overwrites the ticks-per-second gauge.
    pub fn set_tps(&mut self, value: i64)
        ensures
            final(self)@ == old(self)@.with_tps(value),
    {
        proof {
            use_type_invariant(&*self);
        }
        gauge_set(&mut self.tps, value);
    }

    /// Overwrites the latency gauge.
    pub fn set_latency(&mut self, value: i64)
        ensures
            final(self)@ == old(self)@.with_latency(value),
    {
        proof {
            use_type_invariant(&*self);
        }
        gauge_set(&mut self.latency, value);
    }

    /// Reads all three gauges.
    pub fn snapshot(&self) -> (gauges: Snapshot)
        ensures
            gauges == self@,
    {
        Snapshot {
            player_count: gauge_get(&self.player_count),
            tps: gauge_get(&self.tps),
            latency: gauge_get(&self.latency),
        }
    }

    /// Renders the gauges in the text exposition format, for one scrape.
    pub fn render(&self) -> (text: String)
        ensures
            text@ == exposition(self@),
            self@.is_exact() ==> text@ == decimal_exposition(self@),
    {
        proof {
            use_type_invariant(self);
            reveal_strlit("Number of players online");
            reveal_strlit("Server TPS");
            reveal_strlit("Bot latency");
        }
        let latency = match gauge_encode(&self.latency) {
            Ok(lines) => lines,
            Err(_) => unreached(),
        };
        let player_count = match gauge_encode(&self.player_count) {
            Ok(lines) => lines,
            Err(_) => unreached(),
        };
        let tps = match gauge_encode(&self.tps) {
            Ok(lines) => lines,
            Err(_) => unreached(),
        };
        latency.concat(player_count.as_str()).concat(tps.as_str())
    }
}

} // verus!
