//! Port speeds and the line rate of the traffic generator.

use vstd::prelude::*;

verus! {

/// Bits per second in one Gbit/s.
pub const GBIT: u64 = 1_000_000_000;

/// The speeds a port can be configured with.
#[derive(Clone, Copy, Debug, PartialEq, Eq)]
pub enum PortSpeed {
    Gbit1,
    Gbit10,
    Gbit20,
    Gbit40,
    Gbit50,
    Gbit100,
}

impl PortSpeed {
    /// The speed in Gbit/s.
    pub open spec fn gbit(self) -> nat {
        match self {
            PortSpeed::Gbit1 => 1,
            PortSpeed::Gbit10 => 10,
            PortSpeed::Gbit20 => 20,
            PortSpeed::Gbit40 => 40,
            PortSpeed::Gbit50 => 50,
            PortSpeed::Gbit100 => 100,
        }
    }

    /// The speed in Gbit/s.
    pub fn gbps(&self) -> (g: u64)
        ensures
            g == self.gbit(),
            1 <= g <= 100,
    {
        match self {
            PortSpeed::Gbit1 => 1,
            PortSpeed::Gbit10 => 10,
            PortSpeed::Gbit20 => 20,
            PortSpeed::Gbit40 => 40,
            PortSpeed::Gbit50 => 50,
            PortSpeed::Gbit100 => 100,
        }
    }

    /// The speed of that many Gbit/s, if there is one.
    pub fn from_gbps(g: u32) -> (speed: Option<PortSpeed>)
        ensures
            speed matches Some(s) ==> s.gbit() == g,
            speed is None <==> !(g == 1 || g == 10 || g == 20 || g == 40 || g == 50 || g
                == 100),
    {
        if g == 1 {
            Some(PortSpeed::Gbit1)
        } else if g == 10 {
            Some(PortSpeed::Gbit10)
        } else if g == 20 {
            Some(PortSpeed::Gbit20)
        } else if g == 40 {
            Some(PortSpeed::Gbit40)
        } else if g == 50 {
            Some(PortSpeed::Gbit50)
        } else if g == 100 {
            Some(PortSpeed::Gbit100)
        } else {
            None
        }
    }
}

/// The greatest speed in a list of ports in Gbit/s; 1 when the list is empty.
pub open spec fn fastest(ports: Seq<PortSpeed>) -> nat
    decreases ports.len(),
{
    if ports.len() == 0 {
        1
    } else {
        let rest = fastest(ports.drop_last());
        if ports.last().gbit() > rest {
            ports.last().gbit()
        } else {
            rest
        }
    }
}

/// `fastest` is an upper bound of the list and, unless the list is empty,
/// one of its members.
pub proof fn lemma_fastest(ports: Seq<PortSpeed>)
    ensures
        forall|i: int| 0 <= i < ports.len() ==> (#[trigger] ports[i]).gbit() <= fastest(ports),
        ports.len() > 0 ==> exists|i: int|
            0 <= i < ports.len() && (#[trigger] ports[i]).gbit() == fastest(ports),
        1 <= fastest(ports) <= 100,
    decreases ports.len(),
{
    if ports.len() > 0 {
        let front = ports.drop_last();
        lemma_fastest(front);
        assert forall|i: int| 0 <= i < ports.len() implies (#[trigger] ports[i]).gbit()
            <= fastest(ports) by {
            if i < front.len() {
                assert(front[i] == ports[i]);
            }
        }
        if ports.last().gbit() > fastest(front) || front.len() == 0 {
            assert(ports[ports.len() - 1].gbit() == fastest(ports));
        } else {
            let i = choose|i: int| 0 <= i < front.len() && (#[trigger] front[i]).gbit() == fastest(
                front,
            );
            assert(ports[i] == front[i]);
        }
    }
}

/// Line rate of the generator in bits per second: the greatest speed among
/// its ports, 1 Gbit/s when it has none.
pub fn max_speed(ports: &Vec<PortSpeed>) -> (rate: u64)
    ensures
        rate == fastest(ports@) * GBIT,
        GBIT <= rate <= 100 * GBIT,
{
    let mut best: u64 = 1;
    let mut i: usize = 0;
    while i < ports.len()
        invariant
            0 <= i <= ports.len(),
            best == fastest(ports@.take(i as int)),
            1 <= best <= 100,
        decreases ports.len() - i,
    {
        proof {
            assert(ports@.take(i + 1).drop_last() =~= ports@.take(i as int));
        }
        let g: u64 = ports[i].gbps();
        if g > best {
            best = g;
        }
        i = i + 1;
    }
    proof {
        assert(ports@.take(i as int) =~= ports@);
    }
    best * GBIT
}

} // verus!
