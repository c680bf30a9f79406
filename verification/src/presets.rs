//! Named port sets: the 100 and the 1000 most common TCP ports.

use crate::port_tables::{ascending, in_top_100, in_top_1000, lists, top_1000_ports, top_100_ports};
use vstd::prelude::*;

verus! {

/// A named port set.
#[derive(Debug, Clone, Copy, PartialEq, Eq, Structural, Hash)]
pub enum PortPreset {
    Top100,
    Top1000,
}

impl PortPreset {
    /// Whether the preset holds the port.
    pub open spec fn contains(self, port: int) -> bool {
        match self {
            PortPreset::Top100 => in_top_100(port),
            PortPreset::Top1000 => in_top_1000(port),
        }
    }

    /// The number of ports of the preset.
    pub open spec fn size(self) -> nat {
        match self {
            PortPreset::Top100 => 100,
            PortPreset::Top1000 => 1000,
        }
    }
}

/// The ports of a preset: every port that the preset holds, once, in
/// ascending order.
pub fn get_top_ports(preset: PortPreset) -> (r: Vec<u16>)
    ensures
        ascending(r@),
        r@.len() == preset.size(),
        forall|p: u16| #[trigger] r@.contains(p) <==> preset.contains(p as int),
{
    match preset {
        PortPreset::Top100 => top_100_ports(),
        PortPreset::Top1000 => top_1000_ports(),
    }
}

/// Every port of the top-100 preset is a port of the top-1000 preset.
pub proof fn lemma_top_100_within_top_1000(port: int)
    requires
        PortPreset::Top100.contains(port),
    ensures
        PortPreset::Top1000.contains(port),
{
}

/// A preset holds no port outside 1 to 65535.
pub proof fn lemma_preset_ports_are_valid(preset: PortPreset, port: int)
    requires
        preset.contains(port),
    ensures
        1 <= port <= 65535,
{
}

/// Two ascending lists with the same ports are the same list, so a preset's
/// list is determined by the ports it holds.
pub proof fn lemma_ascending_list_is_unique(a: Seq<u16>, b: Seq<u16>)
    requires
        ascending(a),
        ascending(b),
        forall|p: u16| a.contains(p) <==> b.contains(p),
    ensures
        a == b,
    decreases a.len(),
{
    if a.len() == 0 {
        if b.len() > 0 {
            assert(b.contains(b[0]));
        }
        assert(a =~= b);
    } else if b.len() == 0 {
        assert(a.contains(a[0]));
    } else {
        // The last port of each list is its greatest, so the two are the same.
        let x = a.last();
        let y = b.last();
        assert(a.contains(x));
        assert(b.contains(y));
        let i = choose|i: int| 0 <= i < b.len() && b[i] == x;
        let j = choose|j: int| 0 <= j < a.len() && a[j] == y;
        assert(x == y);
        assert forall|p: u16| a.drop_last().contains(p) <==> b.drop_last().contains(p) by {
            if a.drop_last().contains(p) {
                let k = choose|k: int| 0 <= k < a.drop_last().len() && a.drop_last()[k] == p;
                assert(a[k] == p);
                assert(a.contains(p));
                let m = choose|m: int| 0 <= m < b.len() && b[m] == p;
                assert(p < x);
                assert(m < b.len() - 1);
                assert(b.drop_last()[m] == p);
            }
            if b.drop_last().contains(p) {
                let k = choose|k: int| 0 <= k < b.drop_last().len() && b.drop_last()[k] == p;
                assert(b[k] == p);
                assert(b.contains(p));
                let m = choose|m: int| 0 <= m < a.len() && a[m] == p;
                assert(p < y);
                assert(m < a.len() - 1);
                assert(a.drop_last()[m] == p);
            }
        }
        lemma_ascending_list_is_unique(a.drop_last(), b.drop_last());
        assert(a =~= a.drop_last().push(x));
        assert(b =~= b.drop_last().push(y));
    }
}

} // verus!
