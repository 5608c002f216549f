//! The ports of the traffic generator: which front-panel ports generate
//! traffic, which ones are left to loop it back, and how the two are paired.

use vstd::prelude::*;
use macaddr::MacAddr;

verus! {

/// At most this many ports generate traffic.
pub const MAX_TG_PORTS: usize = 10;

/// The front-panel ports are numbered from 1 to this.
pub const FRONT_PANEL_PORTS: u32 = 32;

/// A MAC address of 48 or of 64 bits.
#[derive(Clone, Copy, Debug, PartialEq, Eq)]
pub enum Mac {
    V6([u8; 6]),
    V8([u8; 8]),
}

/// A port that generates traffic, as configured.
#[derive(Clone, Debug, PartialEq, Eq)]
pub struct TgPort {
    /// Front-panel port number.
    pub port: u32,
    /// MAC address in text form.
    pub mac: String,
}

/// The configuration of the generator.
#[derive(Clone, Debug, PartialEq, Eq)]
pub struct Config {
    pub tg_ports: Vec<TgPort>,
}

/// The two recirculation ports that serve a generating port, and the
/// address of that port.
#[derive(Clone, Copy, Debug, PartialEq, Eq)]
pub struct PortMapping {
    pub tx_recirculation: u32,
    pub rx_recirculation: u32,
    pub mac: Mac,
}

/// A generating port with what serves it, by front-panel number.
#[derive(Clone, Copy, Debug, PartialEq, Eq)]
pub struct PortAssignment {
    pub port: u32,
    pub mapping: PortMapping,
}

/// The address that `macaddr::MacAddr::from_str` reads from a text, or
/// nothing where it rejects the text.
pub uninterp spec fn mac_address(text: Seq<char>) -> Option<Mac>;

/// Parses a MAC address with `macaddr::MacAddr::from_str`.
///
/// Not proved: that the result is the one named `mac_address`, that is, that
/// the parser gives the same answer whenever it is given the same text.
#[verifier::external_body]
fn parse_mac(text: &str) -> (mac: Option<Mac>)
    ensures
        mac == mac_address(text@),
{
    match text.parse::<MacAddr>() {
        Ok(MacAddr::V6(addr)) => Some(Mac::V6(addr.into_array())),
        Ok(MacAddr::V8(addr)) => Some(Mac::V8(addr.into_array())),
        Err(_) => None,
    }
}

/// Whether `port` is among the configured ports.
pub open spec fn uses(ports: Seq<TgPort>, port: u32) -> bool {
    exists|i: int| 0 <= i < ports.len() && (#[trigger] ports[i]).port == port
}

/// Whether each of the first `n` addresses reads as a MAC address.
pub open spec fn addresses_read(ports: Seq<TgPort>, n: int) -> bool {
    forall|i: int| 0 <= i < n ==> mac_address((#[trigger] ports[i]).mac@) is Some
}

/// Whether each of the first `n` ports is a front-panel port number.
pub open spec fn ports_in_range(ports: Seq<TgPort>, n: int) -> bool {
    forall|i: int| 0 <= i < n ==> (#[trigger] ports[i]).port <= FRONT_PANEL_PORTS
}

/// The front-panel ports from 1 to `upto` that are not among the configured
/// ports, in increasing order.
pub open spec fn free_ports(ports: Seq<TgPort>, upto: nat) -> Seq<u32>
    decreases upto,
{
    if upto == 0 {
        Seq::empty()
    } else {
        let below = free_ports(ports, (upto - 1) as nat);
        if uses(ports, upto as u32) {
            below
        } else {
            below.push(upto as u32)
        }
    }
}

impl Config {
    /// A configuration is valid when it names at most ten ports, none above
    /// 32, and every address reads as a MAC address.
    pub open spec fn valid(&self) -> bool {
        &&& self.tg_ports@.len() <= MAX_TG_PORTS
        &&& ports_in_range(self.tg_ports@, self.tg_ports@.len() as int)
        &&& addresses_read(self.tg_ports@, self.tg_ports@.len() as int)
    }

    /// Whether the configuration is valid.
    pub fn validate(&self) -> (ok: bool)
        ensures
            ok == self.valid(),
    {
        if self.tg_ports.len() > MAX_TG_PORTS {
            return false;
        }
        let mut i: usize = 0;
        while i < self.tg_ports.len()
            invariant
                0 <= i <= self.tg_ports.len(),
                ports_in_range(self.tg_ports@, i as int),
                addresses_read(self.tg_ports@, i as int),
            decreases self.tg_ports.len() - i,
        {
            if self.tg_ports[i].port > FRONT_PANEL_PORTS {
                return false;
            }
            if parse_mac(self.tg_ports[i].mac.as_str()).is_none() {
                return false;
            }
            i = i + 1;
        }
        true
    }

    /// Whether `port` generates traffic.
    pub fn contains(&self, port: u32) -> (found: bool)
        ensures
            found == uses(self.tg_ports@, port),
    {
        let mut i: usize = 0;
        while i < self.tg_ports.len()
            invariant
                0 <= i <= self.tg_ports.len(),
                forall|j: int| 0 <= j < i ==> (#[trigger] self.tg_ports@[j]).port != port,
            decreases self.tg_ports.len() - i,
        {
            if self.tg_ports[i].port == port {
                return true;
            }
            i = i + 1;
        }
        false
    }

    /// The front-panel numbers of the generating ports, in configured order.
    pub fn port_numbers(&self) -> (ports: Vec<u32>)
        ensures
            ports@.len() == self.tg_ports@.len(),
            forall|i: int| 0 <= i < ports@.len() ==> ports@[i] == (#[trigger] self.tg_ports@[i]).port,
    {
        let mut ports: Vec<u32> = Vec::new();
        let mut i: usize = 0;
        while i < self.tg_ports.len()
            invariant
                0 <= i <= self.tg_ports.len(),
                ports@.len() == i,
                forall|j: int| 0 <= j < i ==> ports@[j] == (#[trigger] self.tg_ports@[j]).port,
            decreases self.tg_ports.len() - i,
        {
            ports.push(self.tg_ports[i].port);
            i = i + 1;
        }
        ports
    }

    /// The addresses of the generating ports, in configured order; nothing
    /// unless every one of them reads as a MAC address.
    pub fn addresses(&self) -> (macs: Option<Vec<Mac>>)
        ensures
            macs is Some <==> addresses_read(self.tg_ports@, self.tg_ports@.len() as int),
            macs matches Some(m) ==> {
                &&& m@.len() == self.tg_ports@.len()
                &&& forall|i: int|
                    0 <= i < m@.len() ==> Some(m@[i]) == mac_address(
                        (#[trigger] self.tg_ports@[i]).mac@,
                    )
            },
    {
        let mut macs: Vec<Mac> = Vec::new();
        let mut i: usize = 0;
        while i < self.tg_ports.len()
            invariant
                0 <= i <= self.tg_ports.len(),
                macs@.len() == i,
                addresses_read(self.tg_ports@, i as int),
                forall|j: int|
                    0 <= j < i ==> Some(macs@[j]) == mac_address(
                        (#[trigger] self.tg_ports@[j]).mac@,
                    ),
            decreases self.tg_ports.len() - i,
        {
            match parse_mac(self.tg_ports[i].mac.as_str()) {
                Some(mac) => {
                    macs.push(mac);
                },
                None => {
                    return None;
                },
            }
            i = i + 1;
        }
        Some(macs)
    }

    /// The front-panel ports that do not generate traffic, in increasing
    /// order; they loop the traffic back for measurement.
    pub fn recirculation_ports(&self) -> (ports: Vec<u32>)
        ensures
            ports@ == free_ports(self.tg_ports@, FRONT_PANEL_PORTS as nat),
            ports@.len() + self.tg_ports@.len() >= FRONT_PANEL_PORTS,
            forall|i: int, j: int| 0 <= i < j < ports@.len() ==> ports@[i] < ports@[j],
            forall|i: int|
                0 <= i < ports@.len() ==> 1 <= (#[trigger] ports@[i]) <= FRONT_PANEL_PORTS && !uses(
                    self.tg_ports@,
                    ports@[i],
                ),
            forall|p: u32|
                1 <= p <= FRONT_PANEL_PORTS && !uses(self.tg_ports@, p) ==> ports@.contains(p),
    {
        let mut ports: Vec<u32> = Vec::new();
        let mut p: u32 = 1;
        // for each port passed over, the place of one entry that names it
        let ghost mut named: Set<int> = Set::empty();
        while p <= FRONT_PANEL_PORTS
            invariant
                1 <= p <= FRONT_PANEL_PORTS + 1,
                ports@ == free_ports(self.tg_ports@, (p - 1) as nat),
                named.finite(),
                ports@.len() + named.len() == p - 1,
                forall|i: int|
                    #[trigger] named.contains(i) ==> 0 <= i < self.tg_ports@.len()
                        && self.tg_ports@[i].port < p,
                forall|i: int, j: int| 0 <= i < j < ports@.len() ==> ports@[i] < ports@[j],
                forall|i: int|
                    0 <= i < ports@.len() ==> 1 <= (#[trigger] ports@[i]) < p && !uses(
                        self.tg_ports@,
                        ports@[i],
                    ),
                forall|q: u32| 1 <= q < p && !uses(self.tg_ports@, q) ==> ports@.contains(q),
            decreases FRONT_PANEL_PORTS + 1 - p,
        {
            if self.contains(p) {
                proof {
                    let i = choose|i: int|
                        0 <= i < self.tg_ports@.len() && (#[trigger] self.tg_ports@[i]).port == p;
                    assert(!named.contains(i));
                    named = named.insert(i);
                }
            } else {
                let ghost before = ports@;
                ports.push(p);
                proof {
                    assert(ports@[before.len() as int] == p);
                    assert forall|q: u32|
                        1 <= q < p + 1 && !uses(self.tg_ports@, q) implies ports@.contains(q) by {
                        if q < p {
                            assert(before.contains(q));
                            let i = choose|i: int| 0 <= i < before.len() && before[i] == q;
                            assert(ports@[i] == q);
                        }
                    }
                }
            }
            p = p + 1;
        }
        proof {
            let places = vstd::set_lib::set_int_range(0, self.tg_ports@.len() as int);
            vstd::set_lib::lemma_int_range(0, self.tg_ports@.len() as int);
            assert(named.subset_of(places));
            vstd::set_lib::lemma_len_subset(named, places);
        }
        ports
    }

    /// The generating ports of a valid configuration, each with its two
    /// recirculation ports and its address; nothing when the configuration
    /// is not valid. A valid configuration always leaves enough ports to
    /// loop the traffic back.
    pub fn plan(&self) -> (plan: Option<Vec<PortAssignment>>)
        ensures
            plan is Some <==> self.valid(),
            plan matches Some(p) ==> {
                &&& p@.len() == self.tg_ports@.len()
                &&& forall|i: int|
                    0 <= i < p@.len() ==> {
                        &&& (#[trigger] p@[i]).port == self.tg_ports@[i].port
                        &&& Some(p@[i].mapping.mac) == mac_address(self.tg_ports@[i].mac@)
                        &&& p@[i].mapping.tx_recirculation == free_ports(
                            self.tg_ports@,
                            FRONT_PANEL_PORTS as nat,
                        )[2 * i]
                        &&& p@[i].mapping.rx_recirculation == free_ports(
                            self.tg_ports@,
                            FRONT_PANEL_PORTS as nat,
                        )[2 * i + 1]
                        &&& 1 <= p@[i].mapping.tx_recirculation < p@[i].mapping.rx_recirculation
                            <= FRONT_PANEL_PORTS
                        &&& !uses(self.tg_ports@, p@[i].mapping.tx_recirculation)
                        &&& !uses(self.tg_ports@, p@[i].mapping.rx_recirculation)
                    }
            },
    {
        if !self.validate() {
            return None;
        }
        let numbers = self.port_numbers();
        let recirculation = self.recirculation_ports();
        match self.addresses() {
            None => None,
            Some(macs) => {
                let plan = assign_ports(&numbers, &macs, &recirculation);
                proof {
                    let p = plan->0;
                    assert forall|i: int| 0 <= i < p@.len() implies {
                        &&& (#[trigger] p@[i]).port == self.tg_ports@[i].port
                        &&& Some(p@[i].mapping.mac) == mac_address(self.tg_ports@[i].mac@)
                        &&& p@[i].mapping.tx_recirculation == free_ports(
                            self.tg_ports@,
                            FRONT_PANEL_PORTS as nat,
                        )[2 * i]
                        &&& p@[i].mapping.rx_recirculation == free_ports(
                            self.tg_ports@,
                            FRONT_PANEL_PORTS as nat,
                        )[2 * i + 1]
                        &&& 1 <= p@[i].mapping.tx_recirculation < p@[i].mapping.rx_recirculation
                            <= FRONT_PANEL_PORTS
                        &&& !uses(self.tg_ports@, p@[i].mapping.tx_recirculation)
                        &&& !uses(self.tg_ports@, p@[i].mapping.rx_recirculation)
                    } by {
                        assert(p@[i] == assignment(numbers@, macs@, recirculation@, i));
                        assert(recirculation@[2 * i] < recirculation@[2 * i + 1]);
                    }
                }
                plan
            },
        }
    }
}

/// The assignment of recirculation ports: the generating port at place `i`
/// gets the recirculation ports at places `2i` and `2i + 1`, for sending and
/// for receiving.
pub open spec fn assignment(
    ports: Seq<u32>,
    macs: Seq<Mac>,
    recirculation: Seq<u32>,
    i: int,
) -> PortAssignment {
    PortAssignment {
        port: ports[i],
        mapping: PortMapping {
            tx_recirculation: recirculation[2 * i],
            rx_recirculation: recirculation[2 * i + 1],
            mac: macs[i],
        },
    }
}

/// Pairs each generating port with its two recirculation ports and its
/// address. Nothing when the addresses are not one per port, or the
/// recirculation ports are fewer than two per port.
pub fn assign_ports(ports: &Vec<u32>, macs: &Vec<Mac>, recirculation: &Vec<u32>) -> (plan: Option<
    Vec<PortAssignment>,
>)
    ensures
        plan is Some <==> ports@.len() == macs@.len() && 2 * ports@.len()
            <= recirculation@.len(),
        plan matches Some(p) ==> {
            &&& p@.len() == ports@.len()
            &&& forall|i: int|
                0 <= i < p@.len() ==> (#[trigger] p@[i]) == assignment(
                    ports@,
                    macs@,
                    recirculation@,
                    i,
                )
        },
{
    if ports.len() != macs.len() || recirculation.len() / 2 < ports.len() {
        return None;
    }
    let mut plan: Vec<PortAssignment> = Vec::new();
    let mut i: usize = 0;
    while i < ports.len()
        invariant
            0 <= i <= ports.len(),
            ports@.len() == macs@.len(),
            2 * ports@.len() <= recirculation@.len() <= usize::MAX,
            plan@.len() == i,
            forall|j: int|
                0 <= j < i ==> (#[trigger] plan@[j]) == assignment(
                    ports@,
                    macs@,
                    recirculation@,
                    j,
                ),
        decreases ports.len() - i,
    {
        assert(2 * i + 1 < recirculation@.len() <= usize::MAX);
        plan.push(
            PortAssignment {
                port: ports[i],
                mapping: PortMapping {
                    tx_recirculation: recirculation[2 * i],
                    rx_recirculation: recirculation[2 * i + 1],
                    mac: macs[i],
                },
            },
        );
        i = i + 1;
    }
    Some(plan)
}

} // verus!
