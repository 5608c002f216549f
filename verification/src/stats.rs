//! Counter snapshots of the switch and the loss figures derived from them.
//!
//! Packet counts are 64-bit counters. Loss is expressed in thousandths of a
//! percent, so that every value rounded to three decimals is an integer.

use vstd::prelude::*;

verus! {

/// Thousandths of a percent in one hundred percent.
pub const FULL_LOSS: u32 = 100_000;

/// Packets counted in one frame-size range `[low, high]` of a port.
#[derive(Clone, Copy, Debug, PartialEq, Eq)]
pub struct FrameSizeCount {
    pub low: u32,
    pub high: u32,
    pub packets: u64,
}

/// The frame-size counters of one port, per direction.
#[derive(Clone, Debug, PartialEq, Eq)]
pub struct PortFrameSizes {
    pub port: u32,
    pub tx: Vec<FrameSizeCount>,
    pub rx: Vec<FrameSizeCount>,
}

/// Packets lost on one port since the experiment began.
#[derive(Clone, Copy, Debug, PartialEq, Eq)]
pub struct PortLoss {
    pub port: u32,
    pub lost: u64,
}

/// Summary of the round-trip times seen on one flow; `mean` is in nanoseconds.
#[derive(Clone, Copy, Debug, PartialEq, Eq)]
pub struct RttSummary {
    pub flow: u32,
    pub mean: u64,
}

/// The counters of the switch at one instant.
#[derive(Clone, Debug, PartialEq, Eq)]
pub struct StatsSnapshot {
    pub frame_size: Vec<PortFrameSizes>,
    pub packet_loss: Vec<PortLoss>,
    pub rtts: Vec<RttSummary>,
}

/// Sum of the packets of a list of buckets.
pub open spec fn bucket_packets(buckets: Seq<FrameSizeCount>) -> nat
    decreases buckets.len(),
{
    if buckets.len() == 0 {
        0
    } else {
        bucket_packets(buckets.drop_last()) + buckets.last().packets as nat
    }
}

/// Sum of the transmitted packets over all ports and all their buckets.
pub open spec fn transmitted(ports: Seq<PortFrameSizes>) -> nat
    decreases ports.len(),
{
    if ports.len() == 0 {
        0
    } else {
        transmitted(ports.drop_last()) + bucket_packets(ports.last().tx@)
    }
}

/// Sum of the lost packets over all ports.
pub open spec fn lost(entries: Seq<PortLoss>) -> nat
    decreases entries.len(),
{
    if entries.len() == 0 {
        0
    } else {
        lost(entries.drop_last()) + entries.last().lost as nat
    }
}

/// `100 * lost / sent` rounded to the nearest thousandth of a percent (halves
/// round up), in thousandths of a percent; zero when nothing was sent.
pub open spec fn loss_ratio(lost: nat, sent: nat) -> nat {
    if sent == 0 {
        0
    } else {
        (200_000 * lost + sent) / (2 * sent)
    }
}

/// A sum in 64 bits, or nothing when it does not fit.
pub open spec fn fit64(total: nat) -> Option<u64> {
    if total <= u64::MAX {
        Some(total as u64)
    } else {
        None
    }
}

/// `loss_ratio` is the integer nearest to the exact ratio: it differs from
/// `100_000 * lost / sent` by at most one half, and a tie goes up.
pub proof fn lemma_loss_ratio_is_nearest(lost: nat, sent: nat)
    requires
        sent > 0,
    ensures
        2 * loss_ratio(lost, sent) * sent <= 200_000 * lost + sent,
        200_000 * lost + sent < 2 * (loss_ratio(lost, sent) + 1) * sent,
{
    let n = (200_000 * lost + sent) as int;
    let d = (2 * sent) as int;
    let q = n / d;
    assert(n == d * q + n % d) by {
        vstd::arithmetic::div_mod::lemma_fundamental_div_mod(n, d);
    }
    assert(0 <= n % d < d) by {
        vstd::arithmetic::div_mod::lemma_mod_bound(n, d);
    }
    assert(q >= 0) by {
        vstd::arithmetic::div_mod::lemma_div_pos_is_pos(n, d);
    }
    assert(d * q == 2 * q * sent) by (nonlinear_arith)
        requires
            d == 2 * sent,
    ;
    assert(2 * (q + 1) * sent == 2 * q * sent + d) by (nonlinear_arith)
        requires
            d == 2 * sent,
    ;
}

/// A run is free of loss exactly when fewer than one packet in 200 000 was lost.
pub proof fn lemma_loss_ratio_zero(lost: nat, sent: nat)
    ensures
        loss_ratio(lost, sent) == 0 <==> (sent == 0 || 200_000 * lost < sent),
{
    if sent > 0 {
        lemma_loss_ratio_is_nearest(lost, sent);
        let q = loss_ratio(lost, sent);
        if q == 0 {
            assert(2 * (q + 1) * sent == 2 * sent) by (nonlinear_arith)
                requires
                    q == 0,
            ;
        } else {
            assert(2 * q * sent >= 2 * sent) by (nonlinear_arith)
                requires
                    q >= 1,
                    sent > 0,
            ;
        }
    }
}

proof fn lemma_transmitted_prefix(ports: Seq<PortFrameSizes>, i: int)
    requires
        0 <= i <= ports.len(),
    ensures
        transmitted(ports.take(i)) <= transmitted(ports),
    decreases ports.len() - i,
{
    if i < ports.len() {
        lemma_transmitted_prefix(ports, i + 1);
        assert(ports.take(i + 1).drop_last() =~= ports.take(i));
    } else {
        assert(ports.take(i) =~= ports);
    }
}

proof fn lemma_lost_prefix(entries: Seq<PortLoss>, i: int)
    requires
        0 <= i <= entries.len(),
    ensures
        lost(entries.take(i)) <= lost(entries),
    decreases entries.len() - i,
{
    if i < entries.len() {
        lemma_lost_prefix(entries, i + 1);
        assert(entries.take(i + 1).drop_last() =~= entries.take(i));
    } else {
        assert(entries.take(i) =~= entries);
    }
}

/// Sums the packets of a list of buckets.
pub fn count_packets(buckets: &Vec<FrameSizeCount>) -> (total: u128)
    ensures
        total == bucket_packets(buckets@),
{
    let mut total: u128 = 0;
    let mut i: usize = 0;
    while i < buckets.len()
        invariant
            0 <= i <= buckets.len(),
            total == bucket_packets(buckets@.take(i as int)),
            total <= i * u64::MAX,
        decreases buckets.len() - i,
    {
        proof {
            assert(buckets@.take(i + 1).drop_last() =~= buckets@.take(i as int));
            assert(i * u64::MAX + u64::MAX == (i + 1) * u64::MAX) by (nonlinear_arith);
            assert((i + 1) * u64::MAX <= usize::MAX * u64::MAX) by (nonlinear_arith)
                requires
                    i + 1 <= usize::MAX,
            ;
            assert(usize::MAX * u64::MAX <= u64::MAX * u64::MAX) by (nonlinear_arith)
                requires
                    usize::MAX <= u64::MAX,
            ;
        }
        total = total + buckets[i].packets as u128;
        i = i + 1;
    }
    proof {
        assert(buckets@.take(i as int) =~= buckets@);
    }
    total
}

impl StatsSnapshot {
    /// Packets sent over all ports and frame sizes.
    pub open spec fn sent(&self) -> nat {
        transmitted(self.frame_size@)
    }

    /// Packets lost over all ports.
    pub open spec fn dropped(&self) -> nat {
        lost(self.packet_loss@)
    }

    /// The loss of the run that the snapshot closes, in thousandths of a
    /// percent; nothing when a total exceeds 64 bits.
    pub open spec fn loss(&self) -> Option<u128> {
        if self.sent() <= u64::MAX && self.dropped() <= u64::MAX {
            Some(loss_ratio(self.dropped(), self.sent()) as u128)
        } else {
            None
        }
    }

    /// Mean round-trip time of the first flow, in nanoseconds.
    pub open spec fn rtt(&self) -> Option<u64> {
        if self.rtts@.len() > 0 {
            Some(self.rtts@[0].mean)
        } else {
            None
        }
    }

    /// Total of the packets sent, over every port and every frame-size bucket.
    pub fn total_sent(&self) -> (total: Option<u64>)
        ensures
            total == fit64(self.sent()),
    {
        let mut total: u64 = 0;
        let mut i: usize = 0;
        while i < self.frame_size.len()
            invariant
                0 <= i <= self.frame_size.len(),
                total == transmitted(self.frame_size@.take(i as int)),
            decreases self.frame_size.len() - i,
        {
            let port: u128 = count_packets(&self.frame_size[i].tx);
            proof {
                assert(self.frame_size@.take(i + 1).drop_last() =~= self.frame_size@.take(
                    i as int,
                ));
                lemma_transmitted_prefix(self.frame_size@, i + 1);
            }
            if port > (u64::MAX - total) as u128 {
                return None;
            }
            total = total + port as u64;
            i = i + 1;
        }
        proof {
            assert(self.frame_size@.take(i as int) =~= self.frame_size@);
        }
        Some(total)
    }

    /// Total of the packets lost, over every port.
    pub fn total_lost(&self) -> (total: Option<u64>)
        ensures
            total == fit64(self.dropped()),
    {
        let mut total: u64 = 0;
        let mut i: usize = 0;
        while i < self.packet_loss.len()
            invariant
                0 <= i <= self.packet_loss.len(),
                total == lost(self.packet_loss@.take(i as int)),
            decreases self.packet_loss.len() - i,
        {
            let port: u64 = self.packet_loss[i].lost;
            proof {
                assert(self.packet_loss@.take(i + 1).drop_last() =~= self.packet_loss@.take(
                    i as int,
                ));
                lemma_lost_prefix(self.packet_loss@, i + 1);
            }
            if port > u64::MAX - total {
                return None;
            }
            total = total + port;
            i = i + 1;
        }
        proof {
            assert(self.packet_loss@.take(i as int) =~= self.packet_loss@);
        }
        Some(total)
    }

    /// Loss of the run in thousandths of a percent: `100 * lost / sent`
    /// rounded to three decimals, zero when nothing was sent.
    pub fn loss_percent(&self) -> (loss: Option<u128>)
        ensures
            loss == self.loss(),
    {
        match (self.total_sent(), self.total_lost()) {
            (Some(sent), Some(lost)) => Some(loss_percent(lost, sent)),
            _ => None,
        }
    }

    /// Mean round-trip time of the first flow in the snapshot, if it has one.
    pub fn first_rtt(&self) -> (mean: Option<u64>)
        ensures
            mean == self.rtt(),
    {
        if self.rtts.len() > 0 {
            Some(self.rtts[0].mean)
        } else {
            None
        }
    }
}

/// Loss in thousandths of a percent for `lost` packets out of `sent`.
pub fn loss_percent(lost: u64, sent: u64) -> (loss: u128)
    ensures
        loss == loss_ratio(lost as nat, sent as nat),
{
    if sent == 0 {
        0
    } else {
        (200_000 * (lost as u128) + sent as u128) / (2 * (sent as u128))
    }
}

/// Caps a loss figure at one hundred percent.
pub fn clamp_loss(loss: u128) -> (capped: u32)
    ensures
        capped as int == if loss > FULL_LOSS { FULL_LOSS as int } else { loss as int },
{
    if loss > FULL_LOSS as u128 {
        FULL_LOSS
    } else {
        loss as u32
    }
}

} // verus!
