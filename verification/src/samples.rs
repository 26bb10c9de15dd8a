//! GPS and sensor samples, and the bounded chart series produced from the
//! sensor series by uniform stride decimation.

use vstd::prelude::*;

use vstd::arithmetic::div_mod::{lemma_fundamental_div_mod, lemma_fundamental_div_mod_converse};

verus! {

/// Largest latitude magnitude a stored GPS sample may carry, in
/// micro-degrees.
pub const MAX_LAT_MICRO: i64 = 90_000_000;

/// Largest longitude magnitude a stored GPS sample may carry, in
/// micro-degrees.
pub const MAX_LON_MICRO: i64 = 180_000_000;

/// Cap on the number of chart samples: inputs longer than this are thinned
/// by stride decimation.
pub const CHART_MAX_POINTS: usize = 1000;

/// Mathematical model of a [`GpsPoint`].
#[verifier::ext_equal]
pub struct GpsPointV {
    pub timestamp: Option<Seq<char>>,
    pub lat: i64,
    pub lon: i64,
    pub altitude: Option<i64>,
}

/// One validated GPS sample: latitude and longitude in micro-degrees, an
/// optional RFC 3339 timestamp and an optional altitude in micro-meters.
#[derive(Debug, Clone, PartialEq)]
pub struct GpsPoint {
    pub timestamp: Option<String>,
    pub lat: i64,
    pub lon: i64,
    pub altitude: Option<i64>,
}

impl View for GpsPoint {
    type V = GpsPointV;

    open spec fn view(&self) -> GpsPointV {
        GpsPointV {
            timestamp: self.timestamp.deep_view(),
            lat: self.lat,
            lon: self.lon,
            altitude: self.altitude,
        }
    }
}

impl DeepView for GpsPoint {
    type V = GpsPointV;

    open spec fn deep_view(&self) -> GpsPointV {
        self.view()
    }
}

/// Whether a GPS sample's coordinates lie in the valid ranges.
pub open spec fn spec_gps_valid(lat: i64, lon: i64) -> bool {
    -MAX_LAT_MICRO <= lat <= MAX_LAT_MICRO && -MAX_LON_MICRO <= lon <= MAX_LON_MICRO
}

/// Mathematical model of a [`SensorPoint`].
#[verifier::ext_equal]
pub struct SensorPointV {
    pub timestamp: Option<Seq<char>>,
    pub heart_rate: Option<i64>,
    pub power: Option<i64>,
    pub cadence: Option<i64>,
    pub speed: Option<i64>,
    pub distance: Option<i64>,
    pub altitude: Option<i64>,
}

/// One per-record sensor sample; every field is independently optional.
/// Speed is in micro-meters per second, distance and altitude in
/// micro-meters.
#[derive(Debug, Clone, PartialEq)]
pub struct SensorPoint {
    pub timestamp: Option<String>,
    pub heart_rate: Option<i64>,
    pub power: Option<i64>,
    pub cadence: Option<i64>,
    pub speed: Option<i64>,
    pub distance: Option<i64>,
    pub altitude: Option<i64>,
}

impl View for SensorPoint {
    type V = SensorPointV;

    open spec fn view(&self) -> SensorPointV {
        SensorPointV {
            timestamp: self.timestamp.deep_view(),
            heart_rate: self.heart_rate,
            power: self.power,
            cadence: self.cadence,
            speed: self.speed,
            distance: self.distance,
            altitude: self.altitude,
        }
    }
}

impl DeepView for SensorPoint {
    type V = SensorPointV;

    open spec fn deep_view(&self) -> SensorPointV {
        self.view()
    }
}

/// Mathematical model of [`ChartData`].
#[verifier::ext_equal]
pub struct ChartDataV {
    pub timestamps: Seq<Seq<char>>,
    pub heart_rate: Seq<Option<i64>>,
    pub power: Seq<Option<i64>>,
    pub cadence: Seq<Option<i64>>,
    pub speed: Seq<Option<i64>>,
    pub altitude: Seq<Option<i64>>,
}

/// The chart series: six parallel sequences of equal length, one entry per
/// kept sensor sample. A sample without a timestamp contributes an empty
/// timestamp string.
#[derive(Debug, Clone, PartialEq)]
pub struct ChartData {
    pub timestamps: Vec<String>,
    pub heart_rate: Vec<Option<i64>>,
    pub power: Vec<Option<i64>>,
    pub cadence: Vec<Option<i64>>,
    pub speed: Vec<Option<i64>>,
    pub altitude: Vec<Option<i64>>,
}

impl View for ChartData {
    type V = ChartDataV;

    open spec fn view(&self) -> ChartDataV {
        ChartDataV {
            timestamps: self.timestamps.deep_view(),
            heart_rate: self.heart_rate@,
            power: self.power@,
            cadence: self.cadence@,
            speed: self.speed@,
            altitude: self.altitude@,
        }
    }
}

/// The stride of the chart decimation for `n` sensor samples: with more than
/// the cap, every `stride`-th sample is kept.
pub open spec fn spec_chart_stride(n: int) -> int {
    if n > CHART_MAX_POINTS {
        n / (CHART_MAX_POINTS as int)
    } else {
        1
    }
}

/// Number of kept chart samples for `n` sensor samples: the number of
/// multiples of the stride below `n`.
pub open spec fn spec_chart_len(n: int) -> int {
    (n + spec_chart_stride(n) - 1) / spec_chart_stride(n)
}

/// The chart timestamp entry of a sensor sample: its timestamp, or the empty
/// string when absent.
pub open spec fn spec_ts_entry(t: Option<Seq<char>>) -> Seq<char> {
    match t {
        Some(s) => s,
        None => Seq::empty(),
    }
}

/// The chart series of a sensor series: every sample whose index is a
/// multiple of the stride, in order, split into six parallel sequences.
pub open spec fn spec_chart_data(sensors: Seq<SensorPointV>) -> ChartDataV {
    let st = spec_chart_stride(sensors.len() as int);
    let m = spec_chart_len(sensors.len() as int);
    ChartDataV {
        timestamps: Seq::new(m as nat, |j: int| spec_ts_entry(sensors[j * st].timestamp)),
        heart_rate: Seq::new(m as nat, |j: int| sensors[j * st].heart_rate),
        power: Seq::new(m as nat, |j: int| sensors[j * st].power),
        cadence: Seq::new(m as nat, |j: int| sensors[j * st].cadence),
        speed: Seq::new(m as nat, |j: int| sensors[j * st].speed),
        altitude: Seq::new(m as nat, |j: int| sensors[j * st].altitude),
    }
}

/// The stride is positive and the chart length well defined for every
/// series length.
pub proof fn lemma_chart_stride_pos(n: int)
    requires
        n >= 0,
    ensures
        spec_chart_stride(n) >= 1,
        spec_chart_len(n) >= 0,
{
    if n > CHART_MAX_POINTS {
        lemma_fundamental_div_mod(n, CHART_MAX_POINTS as int);
    }
    vstd::arithmetic::div_mod::lemma_div_pos_is_pos(
        n + spec_chart_stride(n) - 1,
        spec_chart_stride(n),
    );
}

/// The six chart series always have equal length.
pub proof fn lemma_chart_series_parallel(sensors: Seq<SensorPointV>)
    ensures
        spec_chart_data(sensors).timestamps.len() == spec_chart_len(sensors.len() as int),
        spec_chart_data(sensors).heart_rate.len() == spec_chart_len(sensors.len() as int),
        spec_chart_data(sensors).power.len() == spec_chart_len(sensors.len() as int),
        spec_chart_data(sensors).cadence.len() == spec_chart_len(sensors.len() as int),
        spec_chart_data(sensors).speed.len() == spec_chart_len(sensors.len() as int),
        spec_chart_data(sensors).altitude.len() == spec_chart_len(sensors.len() as int),
{
    lemma_chart_stride_pos(sensors.len() as int);
}

/// With at most the cap of sensor samples, or a sample count that is an
/// exact multiple of the cap, the chart length stays within the cap. (In
/// between those shapes the stride decimation can overshoot the cap.)
pub proof fn lemma_chart_len_cap(sensors: Seq<SensorPointV>)
    requires
        sensors.len() <= CHART_MAX_POINTS || sensors.len() as int % (CHART_MAX_POINTS as int)
            == 0,
    ensures
        spec_chart_data(sensors).timestamps.len() <= CHART_MAX_POINTS,
{
    let n = sensors.len() as int;
    let st = spec_chart_stride(n);
    lemma_chart_stride_pos(n);
    if n <= CHART_MAX_POINTS {
        lemma_fundamental_div_mod_converse(n, 1, n, 0);
    } else {
        lemma_fundamental_div_mod(n, CHART_MAX_POINTS as int);
        assert(n == (CHART_MAX_POINTS as int) * st);
        lemma_fundamental_div_mod_converse(n + st - 1, st, CHART_MAX_POINTS as int, st - 1);
    }
}

/// Downsampling is the identity on series within the cap; beyond it, the
/// kept samples are exactly those whose index is a multiple of the stride
/// `floor(n / cap)`, in original order.
pub proof fn lemma_chart_downsample(sensors: Seq<SensorPointV>)
    ensures
        sensors.len() <= CHART_MAX_POINTS ==> {
            &&& spec_chart_data(sensors).timestamps.len() == sensors.len()
            &&& forall|j: int|
                0 <= j < sensors.len() ==> spec_chart_data(sensors).timestamps[j]
                    == spec_ts_entry(#[trigger] sensors[j].timestamp)
            &&& forall|j: int|
                0 <= j < sensors.len() ==> spec_chart_data(sensors).heart_rate[j] == (
                #[trigger] sensors[j]).heart_rate
            &&& forall|j: int|
                0 <= j < sensors.len() ==> spec_chart_data(sensors).power[j] == (
                #[trigger] sensors[j]).power
            &&& forall|j: int|
                0 <= j < sensors.len() ==> spec_chart_data(sensors).cadence[j] == (
                #[trigger] sensors[j]).cadence
            &&& forall|j: int|
                0 <= j < sensors.len() ==> spec_chart_data(sensors).speed[j] == (
                #[trigger] sensors[j]).speed
            &&& forall|j: int|
                0 <= j < sensors.len() ==> spec_chart_data(sensors).altitude[j] == (
                #[trigger] sensors[j]).altitude
        },
        sensors.len() > CHART_MAX_POINTS ==> {
            let st = sensors.len() as int / (CHART_MAX_POINTS as int);
            let m = spec_chart_data(sensors).timestamps.len();
            &&& st == spec_chart_stride(sensors.len() as int)
            &&& m == spec_chart_len(sensors.len() as int)
            &&& forall|j: int|
                0 <= j < m ==> #[trigger] spec_chart_data(sensors).timestamps[j] == spec_ts_entry(
                    sensors[j * st].timestamp,
                )
            &&& forall|j: int|
                0 <= j < m ==> #[trigger] spec_chart_data(sensors).heart_rate[j] == sensors[j
                    * st].heart_rate
            &&& forall|j: int|
                0 <= j < m ==> #[trigger] spec_chart_data(sensors).power[j] == sensors[j
                    * st].power
            &&& forall|j: int|
                0 <= j < m ==> #[trigger] spec_chart_data(sensors).cadence[j] == sensors[j
                    * st].cadence
            &&& forall|j: int|
                0 <= j < m ==> #[trigger] spec_chart_data(sensors).speed[j] == sensors[j
                    * st].speed
            &&& forall|j: int|
                0 <= j < m ==> #[trigger] spec_chart_data(sensors).altitude[j] == sensors[j
                    * st].altitude
        },
{
    let n = sensors.len() as int;
    lemma_chart_stride_pos(n);
    if n <= CHART_MAX_POINTS {
        lemma_fundamental_div_mod_converse(n, 1, n, 0);
        assert forall|j: int| 0 <= j < n implies #[trigger] sensors[j * 1] == sensors[j] by {
            assert(j * 1 == j);
        }
    }
}

/// Build the chart series from the sensor series by uniform stride
/// decimation: with at most the cap of samples every sample is kept, and
/// beyond it every `floor(n / cap)`-th sample is kept.
pub fn build_chart_data(sensor_data: &Vec<SensorPoint>) -> (r: ChartData)
    ensures
        r@ == spec_chart_data(sensor_data.deep_view()),
{
    let n = sensor_data.len();
    let step: usize = if n > CHART_MAX_POINTS {
        n / CHART_MAX_POINTS
    } else {
        1
    };
    let ghost sensors = sensor_data.deep_view();
    let ghost st = spec_chart_stride(n as int);
    proof {
        assert(sensors.len() == n);
        assert(st == step as int);
        assert(st >= 1);
    }
    let mut timestamps: Vec<String> = Vec::new();
    let mut heart_rate: Vec<Option<i64>> = Vec::new();
    let mut power: Vec<Option<i64>> = Vec::new();
    let mut cadence: Vec<Option<i64>> = Vec::new();
    let mut speed: Vec<Option<i64>> = Vec::new();
    let mut altitude: Vec<Option<i64>> = Vec::new();

    proof {
        lemma_fundamental_div_mod_converse(st - 1, st, 0, st - 1);
    }
    let mut i: usize = 0;
    while i < n
        invariant
            i <= n,
            n == sensor_data.len(),
            sensors == sensor_data.deep_view(),
            st == step as int,
            st >= 1,
            st == spec_chart_stride(n as int),
            timestamps@.len() == (i + st - 1) / st,
            heart_rate@.len() == timestamps@.len(),
            power@.len() == timestamps@.len(),
            cadence@.len() == timestamps@.len(),
            speed@.len() == timestamps@.len(),
            altitude@.len() == timestamps@.len(),
            forall|j: int|
                0 <= j < timestamps@.len() ==> {
                    &&& timestamps.deep_view()[j] == spec_ts_entry(sensors[j * st].timestamp)
                    &&& heart_rate@[j] == sensors[j * st].heart_rate
                    &&& power@[j] == sensors[j * st].power
                    &&& cadence@[j] == sensors[j * st].cadence
                    &&& speed@[j] == sensors[j * st].speed
                    &&& altitude@[j] == sensors[j * st].altitude
                },
        decreases n - i,
    {
        let ghost q = i as int / st;
        let ghost r = i as int % st;
        proof {
            lemma_fundamental_div_mod(i as int, st);
        }
        if i % step == 0 {
            proof {
                // i = q * st, so the element pushed at position q is sensors[q * st].
                assert((q + 1) * st == q * st + st) by (nonlinear_arith);
                lemma_fundamental_div_mod_converse(i as int + st - 1, st, q, st - 1);
                lemma_fundamental_div_mod_converse(i as int + st, st, q + 1, 0);
            }
            let ghost old_ts = timestamps.deep_view();
            let ghost old_len = timestamps@.len() as int;
            let point = &sensor_data[i];
            match &point.timestamp {
                Some(t) => timestamps.push(t.clone()),
                None => timestamps.push(String::new()),
            }
            heart_rate.push(point.heart_rate);
            power.push(point.power);
            cadence.push(point.cadence);
            speed.push(point.speed);
            altitude.push(point.altitude);
            proof {
                assert(old_len == q);
                assert(i as int == q * st);
                assert(sensors[q * st] == sensor_data[i as int].deep_view());
                assert(timestamps.deep_view()[q] == spec_ts_entry(sensors[q * st].timestamp));
                assert forall|j: int|
                    0 <= j < timestamps@.len() implies {
                        &&& timestamps.deep_view()[j] == spec_ts_entry(sensors[j * st].timestamp)
                        &&& heart_rate@[j] == sensors[j * st].heart_rate
                        &&& power@[j] == sensors[j * st].power
                        &&& cadence@[j] == sensors[j * st].cadence
                        &&& speed@[j] == sensors[j * st].speed
                        &&& altitude@[j] == sensors[j * st].altitude
                    } by {
                    if j < q {
                        assert(old_ts[j] == spec_ts_entry(sensors[j * st].timestamp));
                        assert(timestamps@[j] == timestamps@.subrange(0, old_len)[j]);
                        assert(timestamps.deep_view()[j] == old_ts[j]);
                    } else {
                        assert(j == q);
                    }
                }
            }
        } else {
            proof {
                assert((q + 1) * st == q * st + st) by (nonlinear_arith);
                lemma_fundamental_div_mod_converse(i as int + st - 1, st, q + 1, r - 1);
                lemma_fundamental_div_mod_converse(i as int + st, st, q + 1, r);
            }
        }
        i = i + 1;
    }
    proof {
        let m = spec_chart_len(n as int);
        assert(timestamps.deep_view() =~= Seq::new(
            m as nat,
            |j: int| spec_ts_entry(sensors[j * st].timestamp),
        ));
        assert(heart_rate@ =~= Seq::new(m as nat, |j: int| sensors[j * st].heart_rate));
        assert(power@ =~= Seq::new(m as nat, |j: int| sensors[j * st].power));
        assert(cadence@ =~= Seq::new(m as nat, |j: int| sensors[j * st].cadence));
        assert(speed@ =~= Seq::new(m as nat, |j: int| sensors[j * st].speed));
        assert(altitude@ =~= Seq::new(m as nat, |j: int| sensors[j * st].altitude));
    }
    ChartData { timestamps, heart_rate, power, cadence, speed, altitude }
}

} // verus!
