//! Protocol-version bounds and the engine's protocol list they select.

use vstd::prelude::*;

verus! {

/// A protocol version a configuration may name as a bound.
#[derive(Clone, Copy, Debug, PartialEq, Eq, Structural)]
pub enum Protocol {
    Sslv3,
    Tlsv10,
    Tlsv11,
    Tlsv12,
}

/// A protocol version as the native engine names it.
#[derive(Clone, Copy, Debug, PartialEq, Eq, Structural)]
pub enum NativeProtocol {
    Ssl3,
    Tls10,
    Tls11,
    Tls12,
}

impl NativeProtocol {
    /// Position of the version among the supported versions, oldest first.
    pub open spec fn rank(self) -> int {
        match self {
            NativeProtocol::Ssl3 => 0,
            NativeProtocol::Tls10 => 1,
            NativeProtocol::Tls11 => 2,
            NativeProtocol::Tls12 => 3,
        }
    }
}

impl Protocol {
    /// Position of the version among the supported versions, oldest first.
    pub open spec fn rank(self) -> int {
        match self {
            Protocol::Sslv3 => 0,
            Protocol::Tlsv10 => 1,
            Protocol::Tlsv11 => 2,
            Protocol::Tlsv12 => 3,
        }
    }

    /// Returns the position of the version among the supported versions,
    /// oldest first.
    pub fn index(self) -> (i: usize)
        ensures
            i == self.rank(),
    {
        match self {
            Protocol::Sslv3 => 0,
            Protocol::Tlsv10 => 1,
            Protocol::Tlsv11 => 2,
            Protocol::Tlsv12 => 3,
        }
    }
}

/// Every version the engine is ever asked to enable, oldest first.
pub open spec fn supported_protocols() -> Seq<NativeProtocol> {
    seq![NativeProtocol::Ssl3, NativeProtocol::Tls10, NativeProtocol::Tls11, NativeProtocol::Tls12]
}

/// Whether the bounds admit the version `p`: it is no older than the minimum
/// and no newer than the maximum, each where it is set.
pub open spec fn admits(min: Option<Protocol>, max: Option<Protocol>, p: NativeProtocol) -> bool {
    &&& match min {
        Some(m) => m.rank() <= p.rank(),
        None => true,
    }
    &&& match max {
        Some(m) => p.rank() <= m.rank(),
        None => true,
    }
}

/// Position of the oldest version that the lower bound admits.
pub open spec fn first_admitted(min: Option<Protocol>) -> int {
    match min {
        Some(m) => m.rank(),
        None => 0,
    }
}

/// Position just behind the newest version that the upper bound admits.
pub open spec fn end_admitted(max: Option<Protocol>) -> int {
    match max {
        Some(m) => m.rank() + 1,
        None => 4,
    }
}

/// The versions that a pair of bounds enables: the supported versions from
/// the minimum to the maximum, both included, oldest first. A minimum above
/// the maximum enables nothing.
pub open spec fn protocol_range(min: Option<Protocol>, max: Option<Protocol>) -> Seq<
    NativeProtocol,
> {
    if first_admitted(min) < end_admitted(max) {
        supported_protocols().subrange(first_admitted(min), end_admitted(max))
    } else {
        Seq::empty()
    }
}

/// Maps a pair of version bounds onto the engine's protocol list.
pub fn convert_protocols(min: Option<Protocol>, max: Option<Protocol>) -> (protocols: Vec<
    NativeProtocol,
>)
    ensures
        protocols@ == protocol_range(min, max),
{
    let all: Vec<NativeProtocol> = vec![
        NativeProtocol::Ssl3,
        NativeProtocol::Tls10,
        NativeProtocol::Tls11,
        NativeProtocol::Tls12,
    ];
    assert(all@ == supported_protocols());
    let start: usize = match min {
        Some(m) => m.index(),
        None => 0,
    };
    let end: usize = match max {
        Some(m) => m.index() + 1,
        None => 4,
    };
    let mut protocols: Vec<NativeProtocol> = Vec::new();
    if start >= end {
        return protocols;
    }
    let mut i: usize = start;
    while i < end
        invariant
            start <= i <= end <= 4,
            all@.len() == 4,
            protocols@ == all@.subrange(start as int, i as int),
        decreases end - i,
    {
        protocols.push(all[i]);
        i += 1;
    }
    protocols
}

/// The bounds enable exactly the versions they admit: a supported version is
/// in the range if and only if it lies between the minimum and the maximum,
/// both included.
pub proof fn lemma_range_is_exact(min: Option<Protocol>, max: Option<Protocol>, p: NativeProtocol)
    ensures
        protocol_range(min, max).contains(p) <==> admits(min, max, p),
{
    let all = supported_protocols();
    let range = protocol_range(min, max);
    let lo = first_admitted(min);
    let hi = end_admitted(max);
    assert(all[0].rank() == 0 && all[1].rank() == 1 && all[2].rank() == 2 && all[3].rank() == 3);
    assert(all[p.rank()] == p);
    if admits(min, max, p) {
        assert(lo <= p.rank() < hi);
        assert(range[p.rank() - lo] == p);
    }
    if range.contains(p) {
        let i = choose|i: int| 0 <= i < range.len() && range[i] == p;
        assert(range[i] == all[lo + i]);
        assert(p.rank() == lo + i);
    }
}

/// The range is ascending, so that no version is enabled twice.
pub proof fn lemma_range_is_ascending(min: Option<Protocol>, max: Option<Protocol>, i: int, j: int)
    requires
        0 <= i < j < protocol_range(min, max).len(),
    ensures
        protocol_range(min, max)[i].rank() < protocol_range(min, max)[j].rank(),
{
    let all = supported_protocols();
    let lo = first_admitted(min);
    assert(all[0].rank() == 0 && all[1].rank() == 1 && all[2].rank() == 2 && all[3].rank() == 3);
    assert(protocol_range(min, max)[i] == all[lo + i]);
    assert(protocol_range(min, max)[j] == all[lo + j]);
}

} // verus!
