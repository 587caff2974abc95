//! What is measured for each event, and under which names: the instruments,
//! the samples that an event adds to them, and the collector's address.
//! Exporting the samples is left to the caller.

use crate::text::{has_prefix, starts_with};
use vstd::prelude::*;
use vstd::string::*;

verus! {

/// Address of the collector where none is configured.
pub const DEFAULT_OTLP_ENDPOINT: &'static str =
    "http://honeybeepf-otel-collector-opentelemetry-collector.monitoring.svc.cluster.local:4317";

/// Seconds between two exports.
pub const METRIC_EXPORT_INTERVAL_SECS: u64 = 30;

/// The collector's address: the configured one, or the default, with
/// `http://` put in front where it names no scheme.
pub open spec fn spec_otlp_endpoint(configured: Option<Seq<char>>) -> Seq<char> {
    let endpoint = match configured {
        Some(e) => e,
        None => DEFAULT_OTLP_ENDPOINT@,
    };
    if has_prefix(endpoint, "http://"@) || has_prefix(endpoint, "https://"@) {
        endpoint
    } else {
        "http://"@ + endpoint
    }
}

/// Settles the collector's address.
pub fn get_otlp_endpoint(configured: Option<&str>) -> (endpoint: String)
    ensures
        endpoint@ == spec_otlp_endpoint(
            match configured {
                Some(e) => Some(e@),
                None => None,
            },
        ),
{
    let chosen: &str = match configured {
        Some(e) => e,
        None => DEFAULT_OTLP_ENDPOINT,
    };
    if starts_with(chosen, "http://") || starts_with(chosen, "https://") {
        String::from_str(chosen)
    } else {
        String::from_str("http://").concat(chosen)
    }
}

/// The instruments.
#[derive(Clone, Copy, Debug, PartialEq, Eq)]
pub enum Instrument {
    BlockIoEvents,
    BlockIoBytes,
    BlockIoLatencyNs,
    NetworkLatencyNs,
    GpuOpenEvents,
    ActiveProbes,
}

/// How an instrument aggregates.
#[derive(Clone, Copy, Debug, PartialEq, Eq)]
pub enum InstrumentKind {
    Counter,
    Histogram,
    Gauge,
}

impl Instrument {
    pub open spec fn spec_kind(self) -> InstrumentKind {
        match self {
            Instrument::BlockIoEvents => InstrumentKind::Counter,
            Instrument::BlockIoBytes => InstrumentKind::Counter,
            Instrument::BlockIoLatencyNs => InstrumentKind::Histogram,
            Instrument::NetworkLatencyNs => InstrumentKind::Histogram,
            Instrument::GpuOpenEvents => InstrumentKind::Counter,
            Instrument::ActiveProbes => InstrumentKind::Gauge,
        }
    }

    /// The exported name. Counters carry no `_total` suffix: the backend
    /// adds it.
    pub open spec fn spec_name(self) -> Seq<char> {
        match self {
            Instrument::BlockIoEvents => "hbpf_block_io_events"@,
            Instrument::BlockIoBytes => "hbpf_block_io_bytes"@,
            Instrument::BlockIoLatencyNs => "hbpf_block_io_latency_ns"@,
            Instrument::NetworkLatencyNs => "hbpf_network_latency_ns"@,
            Instrument::GpuOpenEvents => "hbpf_gpu_open_events"@,
            Instrument::ActiveProbes => "hbpf_active_probes"@,
        }
    }

    pub open spec fn spec_description(self) -> Seq<char> {
        match self {
            Instrument::BlockIoEvents => "Number of block I/O events"@,
            Instrument::BlockIoBytes => "Total bytes of block I/O operations"@,
            Instrument::BlockIoLatencyNs => "Block I/O operation latency in nanoseconds"@,
            Instrument::NetworkLatencyNs => "Network operation latency in nanoseconds"@,
            Instrument::GpuOpenEvents => "Number of GPU device open events"@,
            Instrument::ActiveProbes => "Number of currently active eBPF probes"@,
        }
    }

    pub open spec fn spec_unit(self) -> Seq<char> {
        match self {
            Instrument::BlockIoEvents => "events"@,
            Instrument::BlockIoBytes => "bytes"@,
            Instrument::BlockIoLatencyNs => "ns"@,
            Instrument::NetworkLatencyNs => "ns"@,
            Instrument::GpuOpenEvents => "events"@,
            Instrument::ActiveProbes => "probes"@,
        }
    }

    pub fn kind(self) -> (k: InstrumentKind)
        ensures
            k == self.spec_kind(),
    {
        match self {
            Instrument::BlockIoEvents => InstrumentKind::Counter,
            Instrument::BlockIoBytes => InstrumentKind::Counter,
            Instrument::BlockIoLatencyNs => InstrumentKind::Histogram,
            Instrument::NetworkLatencyNs => InstrumentKind::Histogram,
            Instrument::GpuOpenEvents => InstrumentKind::Counter,
            Instrument::ActiveProbes => InstrumentKind::Gauge,
        }
    }

    pub fn name(self) -> (s: &'static str)
        ensures
            s@ == self.spec_name(),
    {
        match self {
            Instrument::BlockIoEvents => "hbpf_block_io_events",
            Instrument::BlockIoBytes => "hbpf_block_io_bytes",
            Instrument::BlockIoLatencyNs => "hbpf_block_io_latency_ns",
            Instrument::NetworkLatencyNs => "hbpf_network_latency_ns",
            Instrument::GpuOpenEvents => "hbpf_gpu_open_events",
            Instrument::ActiveProbes => "hbpf_active_probes",
        }
    }

    pub fn description(self) -> (s: &'static str)
        ensures
            s@ == self.spec_description(),
    {
        match self {
            Instrument::BlockIoEvents => "Number of block I/O events",
            Instrument::BlockIoBytes => "Total bytes of block I/O operations",
            Instrument::BlockIoLatencyNs => "Block I/O operation latency in nanoseconds",
            Instrument::NetworkLatencyNs => "Network operation latency in nanoseconds",
            Instrument::GpuOpenEvents => "Number of GPU device open events",
            Instrument::ActiveProbes => "Number of currently active eBPF probes",
        }
    }

    pub fn unit(self) -> (s: &'static str)
        ensures
            s@ == self.spec_unit(),
    {
        match self {
            Instrument::BlockIoEvents => "events",
            Instrument::BlockIoBytes => "bytes",
            Instrument::BlockIoLatencyNs => "ns",
            Instrument::NetworkLatencyNs => "ns",
            Instrument::GpuOpenEvents => "events",
            Instrument::ActiveProbes => "probes",
        }
    }
}

/// One value for one instrument, with the attributes it is filed under.
#[derive(Clone, Debug, PartialEq, Eq)]
pub struct Sample {
    pub instrument: Instrument,
    pub value: u64,
    pub attributes: Vec<(String, String)>,
}

/// What a sample says.
pub struct SampleView {
    pub instrument: Instrument,
    pub value: u64,
    pub attributes: Seq<(Seq<char>, Seq<char>)>,
}

impl View for Sample {
    type V = SampleView;

    open spec fn view(&self) -> SampleView {
        SampleView {
            instrument: self.instrument,
            value: self.value,
            attributes: self.attributes@.map_values(|p: (String, String)| (p.0@, p.1@)),
        }
    }
}

/// The samples of a list.
pub open spec fn spec_samples(list: Seq<Sample>) -> Seq<SampleView> {
    list.map_values(|s: Sample| s@)
}

/// The attributes of a block I/O event: its phase and its device.
pub open spec fn spec_block_io_attributes(event_type: Seq<char>, device: Seq<char>) -> Seq<
    (Seq<char>, Seq<char>),
> {
    seq![("event_type"@, event_type), ("device"@, device)]
}

/// The samples of one block I/O event: one event, its bytes, and its
/// latency where it is known.
pub open spec fn spec_block_io_samples(
    event_type: Seq<char>,
    bytes: u64,
    latency_ns: Option<u64>,
    device: Seq<char>,
) -> Seq<SampleView> {
    let attributes = spec_block_io_attributes(event_type, device);
    let counted = seq![
        SampleView { instrument: Instrument::BlockIoEvents, value: 1, attributes },
        SampleView { instrument: Instrument::BlockIoBytes, value: bytes, attributes },
    ];
    match latency_ns {
        Some(latency) => counted.push(
            SampleView { instrument: Instrument::BlockIoLatencyNs, value: latency, attributes },
        ),
        None => counted,
    }
}

fn sample(instrument: Instrument, value: u64, pairs: &[(&str, &str)]) -> (s: Sample)
    ensures
        s@ == (SampleView {
            instrument,
            value,
            attributes: pairs@.map_values(|p: (&str, &str)| (p.0@, p.1@)),
        }),
{
    let mut attributes: Vec<(String, String)> = Vec::new();
    let mut i: usize = 0;
    while i < pairs.len()
        invariant
            i <= pairs@.len(),
            attributes@.len() == i,
            forall|j: int|
                0 <= j < i ==> (#[trigger] attributes@[j]).0@ == pairs@[j].0@ && attributes@[j].1@
                    == pairs@[j].1@,
        decreases pairs@.len() - i,
    {
        let key = String::from_str(pairs[i].0);
        let value = String::from_str(pairs[i].1);
        attributes.push((key, value));
        i = i + 1;
    }
    assert(attributes@.map_values(|p: (String, String)| (p.0@, p.1@)) =~= pairs@.map_values(
        |p: (&str, &str)| (p.0@, p.1@),
    ));
    Sample { instrument, value, attributes }
}

/// Measures one block I/O event.
pub fn record_block_io_event(
    event_type: &str,
    bytes: u64,
    latency_ns: Option<u64>,
    device: &str,
) -> (samples: Vec<Sample>)
    ensures
        spec_samples(samples@) == spec_block_io_samples(event_type@, bytes, latency_ns, device@),
{
    let pairs = [("event_type", event_type), ("device", device)];
    assert(pairs@.map_values(|p: (&str, &str)| (p.0@, p.1@)) =~= spec_block_io_attributes(
        event_type@,
        device@,
    ));
    let mut samples: Vec<Sample> = Vec::new();
    samples.push(sample(Instrument::BlockIoEvents, 1, pairs.as_slice()));
    samples.push(sample(Instrument::BlockIoBytes, bytes, pairs.as_slice()));
    if let Some(latency) = latency_ns {
        samples.push(sample(Instrument::BlockIoLatencyNs, latency, pairs.as_slice()));
    }
    assert(spec_samples(samples@) =~= spec_block_io_samples(
        event_type@,
        bytes,
        latency_ns,
        device@,
    ));
    samples
}

/// Measures one network latency.
pub fn record_network_latency(latency_ns: u64, protocol: &str) -> (s: Sample)
    ensures
        s@ == (SampleView {
            instrument: Instrument::NetworkLatencyNs,
            value: latency_ns,
            attributes: seq![("protocol"@, protocol@)],
        }),
{
    let pairs = [("protocol", protocol)];
    assert(pairs@.map_values(|p: (&str, &str)| (p.0@, p.1@)) =~= seq![("protocol"@, protocol@)]);
    sample(Instrument::NetworkLatencyNs, latency_ns, pairs.as_slice())
}

/// Measures one open of a GPU device.
pub fn record_gpu_open_event(device_path: &str) -> (s: Sample)
    ensures
        s@ == (SampleView {
            instrument: Instrument::GpuOpenEvents,
            value: 1,
            attributes: seq![("device"@, device_path@)],
        }),
{
    let pairs = [("device", device_path)];
    assert(pairs@.map_values(|p: (&str, &str)| (p.0@, p.1@)) =~= seq![("device"@, device_path@)]);
    sample(Instrument::GpuOpenEvents, 1, pairs.as_slice())
}

/// How many probes of each name are active: what the gauge of active
/// probes reports. A name is held once.
pub struct ActiveProbes {
    entries: Vec<(String, u64)>,
}

impl ActiveProbes {
    /// No name is held twice.
    pub closed spec fn wf(&self) -> bool {
        forall|i: int, j: int|
            0 <= i < j < self.entries@.len() ==> (#[trigger] self.entries@[i]).0@ != (
            #[trigger] self.entries@[j]).0@
    }

    spec fn holds_at(&self, name: Seq<char>, i: int) -> bool {
        0 <= i < self.entries@.len() && self.entries@[i].0@ == name
    }

    spec fn place_of(&self, name: Seq<char>) -> int {
        choose|i: int| self.holds_at(name, i)
    }

    /// An empty registry: it holds no name and no count.
    pub fn new() -> (r: ActiveProbes)
        ensures
            r.wf(),
            r@ == Map::<Seq<char>, u64>::empty(),
            r.spec_names() == Seq::<Seq<char>>::empty(),
    {
        let r = ActiveProbes { entries: Vec::new() };
        assert(r@ =~= Map::<Seq<char>, u64>::empty());
        assert(r.spec_names() =~= Seq::<Seq<char>>::empty());
        r
    }

    /// Number of names held.
    pub fn len(&self) -> (n: usize)
        ensures
            n == self.spec_names().len(),
    {
        self.entries.len()
    }

    /// The names held, in the order in which they were first recorded.
    pub closed spec fn spec_names(&self) -> Seq<Seq<char>> {
        self.entries@.map_values(|e: (String, u64)| e.0@)
    }

    /// The name and count at position `i`.
    pub fn entry(&self, i: usize) -> (e: (&str, u64))
        requires
            self.wf(),
            i < self.spec_names().len(),
        ensures
            e.0@ == self.spec_names()[i as int],
            self@.dom().contains(e.0@),
            self@[e.0@] == e.1,
    {
        let e = (self.entries[i].0.as_str(), self.entries[i].1);
        proof {
            assert(self.holds_at(e.0@, i as int));
            let p = self.place_of(e.0@);
            assert(self.holds_at(e.0@, p));
            if p != i as int {
                let a = self.entries@[p];
                let b = self.entries@[i as int];
                assert(a.0@ != b.0@);
            }
        }
        e
    }

    /// The count recorded for `probe_name`, if one was.
    pub fn get(&self, probe_name: &str) -> (r: Option<u64>)
        requires
            self.wf(),
        ensures
            r == if self@.dom().contains(probe_name@) {
                Some(self@[probe_name@])
            } else {
                None
            },
    {
        let name = String::from_str(probe_name);
        let mut i: usize = 0;
        while i < self.entries.len()
            invariant
                i <= self.entries@.len(),
                self.wf(),
                name@ == probe_name@,
                forall|j: int| 0 <= j < i ==> !self.holds_at(probe_name@, j),
            decreases self.entries@.len() - i,
        {
            if self.entries[i].0 == name {
                let e = self.entry(i);
                return Some(e.1);
            }
            i = i + 1;
        }
        None
    }
}

impl View for ActiveProbes {
    type V = Map<Seq<char>, u64>;

    closed spec fn view(&self) -> Map<Seq<char>, u64> {
        Map::new(
            |name: Seq<char>| exists|i: int| self.holds_at(name, i),
            |name: Seq<char>| self.entries@[self.place_of(name)].1,
        )
    }
}

/// Records that `count` probes named `probe_name` are active. A count
/// recorded earlier under that name is replaced; every other name keeps its
/// count.
pub fn record_active_probe(registry: &mut ActiveProbes, probe_name: &str, count: u64)
    requires
        old(registry).wf(),
    ensures
        final(registry).wf(),
        final(registry)@ == old(registry)@.insert(probe_name@, count),
        final(registry).spec_names() == if old(registry)@.dom().contains(probe_name@) {
            old(registry).spec_names()
        } else {
            old(registry).spec_names().push(probe_name@)
        },
{
    let name = String::from_str(probe_name);
    let mut i: usize = 0;
    while i < registry.entries.len()
        invariant
            i <= registry.entries@.len(),
            *registry == *old(registry),
            old(registry).wf(),
            name@ == probe_name@,
            forall|j: int| 0 <= j < i ==> !registry.holds_at(probe_name@, j),
        decreases registry.entries@.len() - i,
    {
        if registry.entries[i].0 == name {
            registry.entries.set(i, (name, count));
            proof {
                let before = *old(registry);
                let after = *registry;
                assert forall|k: Seq<char>, j: int| after.holds_at(k, j) == before.holds_at(
                    k,
                    j,
                ) by {}
                assert forall|a: int, b: int| 0 <= a < b < after.entries@.len() implies (
                #[trigger] after.entries@[a]).0@ != (#[trigger] after.entries@[b]).0@ by {
                    let x = before.entries@[a];
                    let y = before.entries@[b];
                    assert(x.0@ != y.0@);
                }
                assert forall|k: Seq<char>| #[trigger]
                    after@.dom().contains(k) == before@.insert(probe_name@, count).dom().contains(
                        k,
                    ) by {
                    if k == probe_name@ {
                        assert(after.holds_at(k, i as int));
                    }
                    if before@.dom().contains(k) {
                        let j = choose|j: int| before.holds_at(k, j);
                        assert(after.holds_at(k, j));
                    }
                }
                assert forall|k: Seq<char>| #[trigger] after@.dom().contains(k) implies after@[k]
                    == before@.insert(probe_name@, count)[k] by {
                    let p = after.place_of(k);
                    assert(after.holds_at(k, p));
                    if k == probe_name@ {
                        assert(after.holds_at(k, i as int));
                        if p != i as int {
                            let a = after.entries@[p];
                            let b = after.entries@[i as int];
                            assert(a.0@ != b.0@);
                        }
                    } else {
                        let q = before.place_of(k);
                        assert(before.holds_at(k, p));
                        assert(before.holds_at(k, q));
                        if p != q {
                            let a = before.entries@[p];
                            let b = before.entries@[q];
                            assert(a.0@ != b.0@);
                        }
                    }
                }
                assert(after@ =~= before@.insert(probe_name@, count));
                assert(before.holds_at(probe_name@, i as int));
                assert(after.spec_names() =~= before.spec_names());
            }
            return ;
        }
        i = i + 1;
    }
    registry.entries.push((name, count));
    proof {
        let before = *old(registry);
        let after = *registry;
        let n = before.entries@.len() as int;
        assert forall|k: Seq<char>, j: int| 0 <= j < n implies after.holds_at(k, j)
            == before.holds_at(k, j) by {}
        assert(after.holds_at(probe_name@, n));
        assert forall|a: int, b: int| 0 <= a < b < after.entries@.len() implies (
        #[trigger] after.entries@[a]).0@ != (#[trigger] after.entries@[b]).0@ by {
            if b == n {
                assert(!before.holds_at(probe_name@, a));
            } else {
                let x = before.entries@[a];
                let y = before.entries@[b];
                assert(x.0@ != y.0@);
            }
        }
        assert forall|k: Seq<char>| #[trigger]
            after@.dom().contains(k) == before@.insert(probe_name@, count).dom().contains(k) by {
            if before@.dom().contains(k) {
                let j = choose|j: int| before.holds_at(k, j);
                assert(after.holds_at(k, j));
            }
            if after@.dom().contains(k) && k != probe_name@ {
                let j = choose|j: int| after.holds_at(k, j);
                assert(before.holds_at(k, j));
            }
        }
        assert forall|k: Seq<char>| #[trigger] after@.dom().contains(k) implies after@[k]
            == before@.insert(probe_name@, count)[k] by {
            let p = after.place_of(k);
            assert(after.holds_at(k, p));
            if k == probe_name@ {
                if p != n {
                    assert(before.holds_at(k, p));
                }
            } else {
                let q = before.place_of(k);
                assert(before.holds_at(k, p));
                assert(before.holds_at(k, q));
                if p != q {
                    let a = before.entries@[p];
                    let b = before.entries@[q];
                    assert(a.0@ != b.0@);
                }
            }
        }
        assert(after@ =~= before@.insert(probe_name@, count));
        assert(after.spec_names() =~= before.spec_names().push(probe_name@));
        if before@.dom().contains(probe_name@) {
            let j = choose|j: int| before.holds_at(probe_name@, j);
            assert(before.holds_at(probe_name@, j));
        }
    }
}

} // verus!
