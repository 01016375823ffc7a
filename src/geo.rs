use vstd::prelude::*;
use vstd::string::*;

verus! {

/// A network address as the cluster publishes it.
#[derive(Clone, Copy, PartialEq, Eq, Structural, Debug)]
pub enum IpAddress {
    /// The four octets of an IPv4 address, most significant first.
    V4(u8, u8, u8, u8),
    /// An IPv6 address as one 128-bit number.
    V6(u128),
}

/// Continental bucket that a leader's network address falls into.
#[derive(Clone, Copy, PartialEq, Eq, Structural, Debug)]
pub enum LeaderGeo {
    NorthAmerica,
    SouthAmerica,
    Oceania,
    MiddleEast,
    Africa,
    Asia,
    Europe,
    Unknown,
}

/// Infrastructure region that serves requests.
#[derive(Clone, Copy, PartialEq, Eq, Structural, Debug)]
pub enum ZelaServerRegion {
    Frankfurt,
    Dubai,
    NewYork,
    Tokyo,
}

/// A dotted-decimal prefix made of whole octets, each followed by a dot:
/// `head.` when `next` is `None`, `head.next.` otherwise. Since an octet's
/// decimal text holds no dot, the text of an IPv4 address starts with this
/// prefix exactly when its leading octets are these.
#[derive(Clone, Copy, PartialEq, Eq, Structural, Debug)]
pub struct AddressPrefix {
    pub head: u8,
    pub next: Option<u8>,
}

impl AddressPrefix {
    pub open spec fn spec_covers(self, a: u8, b: u8) -> bool {
        self.head == a && match self.next {
            Some(n) => n == b,
            None => true,
        }
    }

    /// Whether an address whose first two octets are `a` and `b` starts with
    /// this prefix.
    pub fn covers(&self, a: u8, b: u8) -> (r: bool)
        ensures
            r == self.spec_covers(a, b),
    {
        if self.head != a {
            return false;
        }
        match self.next {
            Some(n) => n == b,
            None => true,
        }
    }
}

/// The prefix `a.b.`.
pub open spec fn two(a: u8, b: u8) -> AddressPrefix {
    AddressPrefix { head: a, next: Some(b) }
}

/// The prefix `a.`.
pub open spec fn one(a: u8) -> AddressPrefix {
    AddressPrefix { head: a, next: None }
}

/// The prefix table of each bucket; Unknown has none.
pub open spec fn prefix_table(geo: LeaderGeo) -> Seq<AddressPrefix> {
    match geo {
        LeaderGeo::NorthAmerica => seq![
            two(64, 130), two(208, 115), two(198, 13), one(44), two(204, 16),
            two(15, 204), two(40, 160), two(23, 109), two(74, 118), two(67, 209),
            two(199, 48), two(199, 127), two(107, 6), two(72, 251), two(104, 238),
            two(104, 204), two(18, 208), two(34, 232), two(50, 150), two(108, 171),
            two(63, 251), two(38, 46), two(47, 76), two(132, 145), two(35, 197),
        ],
        LeaderGeo::Europe => seq![
            two(135, 125), two(5, 199), two(79, 137), two(162, 55), two(65, 21),
            two(188, 42), two(145, 239), two(54, 220), two(91, 242), two(109, 94),
            two(31, 40), two(212, 237), two(82, 27), two(141, 98), two(185, 189),
            two(88, 216), two(57, 129), two(95, 214), two(212, 69),
        ],
        LeaderGeo::Asia => seq![
            two(61, 111), two(160, 202), two(60, 244), two(122, 116), two(103, 106),
            two(43, 130), two(8, 211),
        ],
        LeaderGeo::SouthAmerica => seq![two(186, 233)],
        _ => Seq::empty(),
    }
}

/// Whether some prefix of `table` covers an address with leading octets `a`, `b`.
pub open spec fn listed(table: Seq<AddressPrefix>, a: u8, b: u8) -> bool {
    exists|i: int| 0 <= i < table.len() && (#[trigger] table[i]).spec_covers(a, b)
}

/// The buckets in the order in which their tables are consulted.
pub open spec fn bucket_priority() -> Seq<LeaderGeo> {
    seq![
        LeaderGeo::NorthAmerica,
        LeaderGeo::Europe,
        LeaderGeo::Asia,
        LeaderGeo::SouthAmerica,
        LeaderGeo::Africa,
        LeaderGeo::Oceania,
        LeaderGeo::MiddleEast,
    ]
}

/// The first bucket of `order` whose table lists the address, else Unknown.
pub open spec fn first_listed(order: Seq<LeaderGeo>, a: u8, b: u8) -> LeaderGeo
    decreases order.len(),
{
    if order.len() == 0 {
        LeaderGeo::Unknown
    } else if listed(prefix_table(order[0]), a, b) {
        order[0]
    } else {
        first_listed(order.drop_first(), a, b)
    }
}

/// The bucket of an address: IPv6 is always Unknown.
pub open spec fn spec_classify(ip: IpAddress) -> LeaderGeo {
    match ip {
        IpAddress::V4(a, b, _, _) => first_listed(bucket_priority(), a, b),
        IpAddress::V6(_) => LeaderGeo::Unknown,
    }
}

/// The service region nearest to each bucket; Unknown falls back to Dubai.
pub open spec fn spec_nearest_region(geo: LeaderGeo) -> ZelaServerRegion {
    match geo {
        LeaderGeo::NorthAmerica | LeaderGeo::SouthAmerica => ZelaServerRegion::NewYork,
        LeaderGeo::Europe => ZelaServerRegion::Frankfurt,
        LeaderGeo::Asia | LeaderGeo::Oceania => ZelaServerRegion::Tokyo,
        LeaderGeo::MiddleEast | LeaderGeo::Africa | LeaderGeo::Unknown => ZelaServerRegion::Dubai,
    }
}

/// The prefix table of a bucket.
pub fn prefixes(geo: LeaderGeo) -> (r: Vec<AddressPrefix>)
    ensures
        r@ == prefix_table(geo),
{
    let r = match geo {
        LeaderGeo::NorthAmerica => vec![
            AddressPrefix { head: 64, next: Some(130) },
            AddressPrefix { head: 208, next: Some(115) },
            AddressPrefix { head: 198, next: Some(13) },
            AddressPrefix { head: 44, next: None },
            AddressPrefix { head: 204, next: Some(16) },
            AddressPrefix { head: 15, next: Some(204) },
            AddressPrefix { head: 40, next: Some(160) },
            AddressPrefix { head: 23, next: Some(109) },
            AddressPrefix { head: 74, next: Some(118) },
            AddressPrefix { head: 67, next: Some(209) },
            AddressPrefix { head: 199, next: Some(48) },
            AddressPrefix { head: 199, next: Some(127) },
            AddressPrefix { head: 107, next: Some(6) },
            AddressPrefix { head: 72, next: Some(251) },
            AddressPrefix { head: 104, next: Some(238) },
            AddressPrefix { head: 104, next: Some(204) },
            AddressPrefix { head: 18, next: Some(208) },
            AddressPrefix { head: 34, next: Some(232) },
            AddressPrefix { head: 50, next: Some(150) },
            AddressPrefix { head: 108, next: Some(171) },
            AddressPrefix { head: 63, next: Some(251) },
            AddressPrefix { head: 38, next: Some(46) },
            AddressPrefix { head: 47, next: Some(76) },
            AddressPrefix { head: 132, next: Some(145) },
            AddressPrefix { head: 35, next: Some(197) },
        ],
        LeaderGeo::Europe => vec![
            AddressPrefix { head: 135, next: Some(125) },
            AddressPrefix { head: 5, next: Some(199) },
            AddressPrefix { head: 79, next: Some(137) },
            AddressPrefix { head: 162, next: Some(55) },
            AddressPrefix { head: 65, next: Some(21) },
            AddressPrefix { head: 188, next: Some(42) },
            AddressPrefix { head: 145, next: Some(239) },
            AddressPrefix { head: 54, next: Some(220) },
            AddressPrefix { head: 91, next: Some(242) },
            AddressPrefix { head: 109, next: Some(94) },
            AddressPrefix { head: 31, next: Some(40) },
            AddressPrefix { head: 212, next: Some(237) },
            AddressPrefix { head: 82, next: Some(27) },
            AddressPrefix { head: 141, next: Some(98) },
            AddressPrefix { head: 185, next: Some(189) },
            AddressPrefix { head: 88, next: Some(216) },
            AddressPrefix { head: 57, next: Some(129) },
            AddressPrefix { head: 95, next: Some(214) },
            AddressPrefix { head: 212, next: Some(69) },
        ],
        LeaderGeo::Asia => vec![
            AddressPrefix { head: 61, next: Some(111) },
            AddressPrefix { head: 160, next: Some(202) },
            AddressPrefix { head: 60, next: Some(244) },
            AddressPrefix { head: 122, next: Some(116) },
            AddressPrefix { head: 103, next: Some(106) },
            AddressPrefix { head: 43, next: Some(130) },
            AddressPrefix { head: 8, next: Some(211) },
        ],
        LeaderGeo::SouthAmerica => vec![AddressPrefix { head: 186, next: Some(233) }],
        _ => Vec::new(),
    };
    assert(r@ =~= prefix_table(geo));
    r
}

/// Whether some prefix of `table` covers an address with leading octets `a`, `b`.
pub fn matches_any(table: &Vec<AddressPrefix>, a: u8, b: u8) -> (r: bool)
    ensures
        r == listed(table@, a, b),
{
    let mut i: usize = 0;
    while i < table.len()
        invariant
            i <= table@.len(),
            forall|j: int| 0 <= j < i ==> !(#[trigger] table@[j]).spec_covers(a, b),
        decreases table@.len() - i,
    {
        if table[i].covers(a, b) {
            return true;
        }
        i += 1;
    }
    false
}

/// The bucket of `ip`: the first of NorthAmerica, Europe, Asia, SouthAmerica,
/// Africa, Oceania and MiddleEast whose table holds a prefix of its
/// dotted-decimal text, Unknown where none does and for every IPv6 address.
pub fn classify(ip: &IpAddress) -> (r: LeaderGeo)
    ensures
        r == spec_classify(*ip),
        ip is V6 ==> r == LeaderGeo::Unknown,
{
    match ip {
        IpAddress::V6(_) => LeaderGeo::Unknown,
        IpAddress::V4(a, b, _, _) => {
            let order = vec![
                LeaderGeo::NorthAmerica,
                LeaderGeo::Europe,
                LeaderGeo::Asia,
                LeaderGeo::SouthAmerica,
                LeaderGeo::Africa,
                LeaderGeo::Oceania,
                LeaderGeo::MiddleEast,
            ];
            assert(order@ =~= bucket_priority());
            assert(order@.subrange(0, order@.len() as int) =~= order@);
            let mut k: usize = 0;
            while k < order.len()
                invariant
                    k <= order@.len(),
                    order@ == bucket_priority(),
                    first_listed(order@.subrange(k as int, order@.len() as int), *a, *b)
                        == spec_classify(*ip),
                decreases order@.len() - k,
            {
                assert(order@.subrange(k as int, order@.len() as int).drop_first()
                    =~= order@.subrange(k + 1, order@.len() as int));
                let geo = order[k];
                let table = prefixes(geo);
                if matches_any(&table, *a, *b) {
                    return geo;
                }
                k += 1;
            }
            LeaderGeo::Unknown
        },
    }
}

/// The service region nearest to a bucket; every bucket has one.
pub fn nearest_region(geo: LeaderGeo) -> (r: ZelaServerRegion)
    ensures
        r == spec_nearest_region(geo),
{
    match geo {
        LeaderGeo::NorthAmerica | LeaderGeo::SouthAmerica => ZelaServerRegion::NewYork,
        LeaderGeo::Europe => ZelaServerRegion::Frankfurt,
        LeaderGeo::Asia | LeaderGeo::Oceania => ZelaServerRegion::Tokyo,
        LeaderGeo::MiddleEast | LeaderGeo::Africa | LeaderGeo::Unknown => ZelaServerRegion::Dubai,
    }
}

impl LeaderGeo {
    /// The display text of each bucket. Africa is shown as "Asia": existing
    /// consumers read that label, so it is kept as it is.
    pub open spec fn spec_label(self) -> Seq<char> {
        match self {
            LeaderGeo::NorthAmerica => "North America"@,
            LeaderGeo::SouthAmerica => "South America"@,
            LeaderGeo::Oceania => "Oceania"@,
            LeaderGeo::MiddleEast => "Middle East"@,
            LeaderGeo::Asia => "Asia"@,
            LeaderGeo::Africa => "Asia"@,
            LeaderGeo::Europe => "Europe"@,
            LeaderGeo::Unknown => "Unknown"@,
        }
    }

    /// The display text of this bucket.
    pub fn label(&self) -> (r: String)
        ensures
            r@ == self.spec_label(),
    {
        match self {
            LeaderGeo::NorthAmerica => String::from_str("North America"),
            LeaderGeo::SouthAmerica => String::from_str("South America"),
            LeaderGeo::Oceania => String::from_str("Oceania"),
            LeaderGeo::MiddleEast => String::from_str("Middle East"),
            LeaderGeo::Asia => String::from_str("Asia"),
            LeaderGeo::Africa => String::from_str("Asia"),
            LeaderGeo::Europe => String::from_str("Europe"),
            LeaderGeo::Unknown => String::from_str("Unknown"),
        }
    }
}

impl ZelaServerRegion {
    /// The display text of each region; the Frankfurt region is shown as "Berlin".
    pub open spec fn spec_label(self) -> Seq<char> {
        match self {
            ZelaServerRegion::Frankfurt => "Berlin"@,
            ZelaServerRegion::Dubai => "Dubai"@,
            ZelaServerRegion::NewYork => "New York"@,
            ZelaServerRegion::Tokyo => "Tokyo"@,
        }
    }

    /// The display text of this region.
    pub fn label(&self) -> (r: String)
        ensures
            r@ == self.spec_label(),
    {
        match self {
            ZelaServerRegion::Frankfurt => String::from_str("Berlin"),
            ZelaServerRegion::Dubai => String::from_str("Dubai"),
            ZelaServerRegion::NewYork => String::from_str("New York"),
            ZelaServerRegion::Tokyo => String::from_str("Tokyo"),
        }
    }
}

impl<'a> From<&'a IpAddress> for LeaderGeo {
    fn from(ip: &'a IpAddress) -> (r: LeaderGeo) {
        classify(ip)
    }
}

impl<'a> vstd::std_specs::convert::FromSpecImpl<&'a IpAddress> for LeaderGeo {
    open spec fn obeys_from_spec() -> bool {
        true
    }

    open spec fn from_spec(ip: &'a IpAddress) -> LeaderGeo {
        spec_classify(*ip)
    }
}

impl<'a> From<&'a LeaderGeo> for ZelaServerRegion {
    fn from(geo: &'a LeaderGeo) -> (r: ZelaServerRegion) {
        nearest_region(*geo)
    }
}

impl<'a> vstd::std_specs::convert::FromSpecImpl<&'a LeaderGeo> for ZelaServerRegion {
    open spec fn obeys_from_spec() -> bool {
        true
    }

    open spec fn from_spec(geo: &'a LeaderGeo) -> ZelaServerRegion {
        spec_nearest_region(*geo)
    }
}

} // verus!
