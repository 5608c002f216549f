//! The description of the traffic to generate, as far as a benchmark reads
//! and changes it, and the names under which its variants are kept.

use vstd::prelude::*;
use vstd::string::*;

verus! {

/// How the frames of a stream are encapsulated.
#[derive(Clone, Copy, Debug, PartialEq, Eq)]
pub enum Encapsulation {
    /// No encapsulation.
    Plain,
    Vlan,
    QinQ,
    Mpls,
}

/// One stream of generated traffic.
#[derive(Clone, Copy, Debug, PartialEq, Eq)]
pub struct Stream {
    pub stream_id: u8,
    /// Frame length in bytes.
    pub frame_size: u32,
    pub encapsulation: Encapsulation,
    /// Number of MPLS label stack entries; set for MPLS streams.
    pub number_of_lse: Option<u8>,
    /// Offered rate in bits per second.
    pub traffic_rate: u64,
    pub vxlan: bool,
}

/// A set of streams, with the name it is kept under.
#[derive(Clone, Debug, PartialEq, Eq)]
pub struct TrafficGenData {
    /// At least one stream; the first is the one a benchmark drives.
    pub streams: Vec<Stream>,
    pub name: Option<String>,
}

/// Bytes that the encapsulation of a stream adds to each frame.
pub open spec fn overhead(stream: Stream) -> nat {
    let encapsulation: nat = match stream.encapsulation {
        Encapsulation::Plain => 0,
        Encapsulation::Vlan => 4,
        Encapsulation::QinQ => 8,
        Encapsulation::Mpls => match stream.number_of_lse {
            Some(n) => (4 * n) as nat,
            None => 0,
        },
    };
    if stream.vxlan {
        encapsulation + 50
    } else {
        encapsulation
    }
}

/// Bytes of encapsulation per frame: 4 for a VLAN tag, 8 for QinQ, 4 for
/// each MPLS label, and 50 more inside a VxLAN tunnel.
pub fn calculate_overhead(stream: &Stream) -> (bytes: u32)
    requires
        stream.encapsulation == Encapsulation::Mpls ==> stream.number_of_lse is Some,
    ensures
        bytes == overhead(*stream),
{
    let mut encapsulation_overhead: u32 = match stream.encapsulation {
        Encapsulation::Plain => 0,
        Encapsulation::Vlan => 4,
        Encapsulation::QinQ => 8,
        Encapsulation::Mpls => match stream.number_of_lse {
            Some(n) => n as u32 * 4,
            None => 0,
        },
    };
    if stream.vxlan {
        encapsulation_overhead += 50;
    }
    encapsulation_overhead
}

/// The streams of a benchmark run: the first stream at the given frame size
/// and rate, the others as they are.
pub open spec fn driven(streams: Seq<Stream>, frame_size: u32, rate: u64) -> Seq<Stream>
    recommends
        streams.len() > 0,
{
    streams.update(0, Stream { frame_size, traffic_rate: rate, ..streams[0] })
}

/// Copies a list of streams.
pub fn copy_streams(streams: &Vec<Stream>) -> (copy: Vec<Stream>)
    ensures
        copy@ == streams@,
{
    let mut copy: Vec<Stream> = Vec::new();
    let mut i: usize = 0;
    while i < streams.len()
        invariant
            0 <= i <= streams.len(),
            copy@ == streams@.take(i as int),
        decreases streams.len() - i,
    {
        copy.push(streams[i]);
        proof {
            assert(streams@.take(i + 1) =~= streams@.take(i as int).push(streams@[i as int]));
        }
        i = i + 1;
    }
    proof {
        assert(streams@.take(i as int) =~= streams@);
    }
    copy
}

/// The streams to generate for one run: a copy in which the first stream has
/// the given frame size and rate.
pub fn drive(streams: &Vec<Stream>, frame_size: u32, rate: u64) -> (copy: Vec<Stream>)
    requires
        streams@.len() > 0,
    ensures
        copy@ == driven(streams@, frame_size, rate),
{
    let mut copy = copy_streams(streams);
    let first = Stream {
        stream_id: streams[0].stream_id,
        frame_size,
        encapsulation: streams[0].encapsulation,
        number_of_lse: streams[0].number_of_lse,
        traffic_rate: rate,
        vxlan: streams[0].vxlan,
    };
    copy.set(0, first);
    copy
}

/// The decimal digit `d` as text.
pub open spec fn digit(d: nat) -> Seq<char>
    recommends
        d < 10,
{
    if d == 0 {
        "0"@
    } else if d == 1 {
        "1"@
    } else if d == 2 {
        "2"@
    } else if d == 3 {
        "3"@
    } else if d == 4 {
        "4"@
    } else if d == 5 {
        "5"@
    } else if d == 6 {
        "6"@
    } else if d == 7 {
        "7"@
    } else if d == 8 {
        "8"@
    } else {
        "9"@
    }
}

/// The number `n` written in decimal, without leading zeros.
pub open spec fn decimal(n: nat) -> Seq<char>
    decreases n,
{
    if n < 10 {
        digit(n)
    } else {
        decimal(n / 10) + digit(n % 10)
    }
}

/// The benchmarks.
#[derive(Clone, Copy, Debug, PartialEq, Eq)]
pub enum TestKind {
    Throughput,
    Latency,
    FrameLoss,
    Reset,
}

impl TestKind {
    /// The name of the benchmark as it stands in a label.
    pub open spec fn title(self) -> Seq<char> {
        match self {
            TestKind::Throughput => "Throughput"@,
            TestKind::Latency => "Latency"@,
            TestKind::FrameLoss => "Frame Loss Rate"@,
            TestKind::Reset => "Reset"@,
        }
    }

    /// The name of the benchmark as it stands in a label.
    pub fn name(&self) -> (s: &'static str)
        ensures
            s@ == self.title(),
    {
        match self {
            TestKind::Throughput => "Throughput",
            TestKind::Latency => "Latency",
            TestKind::FrameLoss => "Frame Loss Rate",
            TestKind::Reset => "Reset",
        }
    }
}

/// The label of a sub-test: the benchmark's name, a dash and the frame size,
/// as in `Latency - 512 Bytes`.
pub open spec fn label(kind: TestKind, frame_size: u32) -> Seq<char> {
    kind.title() + " - "@ + decimal(frame_size as nat) + " Bytes"@
}

fn digit_text(d: u32) -> (s: &'static str)
    requires
        d < 10,
    ensures
        s@ == digit(d as nat),
{
    if d == 0 {
        "0"
    } else if d == 1 {
        "1"
    } else if d == 2 {
        "2"
    } else if d == 3 {
        "3"
    } else if d == 4 {
        "4"
    } else if d == 5 {
        "5"
    } else if d == 6 {
        "6"
    } else if d == 7 {
        "7"
    } else if d == 8 {
        "8"
    } else {
        "9"
    }
}

fn append_decimal(text: &mut String, n: u32)
    ensures
        final(text)@ == old(text)@ + decimal(n as nat),
    decreases n,
{
    if n >= 10 {
        append_decimal(text, n / 10);
    }
    text.append(digit_text(n % 10));
    proof {
        if n >= 10 {
            assert(old(text)@ + decimal((n / 10) as nat) + digit((n % 10) as nat) =~= old(text)@
                + (decimal((n / 10) as nat) + digit((n % 10) as nat)));
        }
    }
}

/// Writes the label of a sub-test.
pub fn test_label(kind: TestKind, frame_size: u32) -> (text: String)
    ensures
        text@ == label(kind, frame_size),
{
    let mut text = String::from_str(kind.name());
    text.append(" - ");
    append_decimal(&mut text, frame_size);
    text.append(" Bytes");
    text
}

/// Files a set of streams under a name, at the end of a list.
pub fn save_tg(log: &mut Vec<TrafficGenData>, streams: Vec<Stream>, name: String)
    ensures
        final(log)@.len() == old(log)@.len() + 1,
        final(log)@.take(old(log)@.len() as int) == old(log)@,
        final(log)@.last().streams == streams,
        final(log)@.last().name == Some(name),
{
    let named_payload = TrafficGenData { streams, name: Some(name) };
    log.push(named_payload);
    proof {
        assert(log@.take(old(log)@.len() as int) =~= old(log)@);
    }
}

} // verus!
