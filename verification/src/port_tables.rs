//! The port tables behind the presets, in blocks of ascending ranges.
//!
//! Each block comes twice: as a predicate that says which ports it holds, and
//! as a function that appends exactly those ports to a list.

use vstd::prelude::*;

verus! {

/// Whether the ports of `s` strictly ascend, so that `s` is sorted and holds
/// no port twice.
pub open spec fn ascending(s: Seq<u16>) -> bool {
    forall|i: int, j: int| 0 <= i < j < s.len() ==> s[i] < s[j]
}

/// Whether `s` is the ascending list of `count` ports that holds exactly the
/// ports below `bound` for which `member` holds.
pub open spec fn lists(s: Seq<u16>, member: spec_fn(int) -> bool, bound: int, count: int) -> bool {
    &&& ascending(s)
    &&& s.len() == count
    &&& s.len() > 0 ==> s.last() < bound
    &&& forall|p: u16| #[trigger] s.contains(p) <==> (p < bound && member(p as int))
}

/// Appends the ports `lo` to `hi` to a list that ends below `lo`.
fn push_range(v: &mut Vec<u16>, lo: u16, hi: u16)
    requires
        lo <= hi,
        ascending(old(v)@),
        old(v)@.len() > 0 ==> old(v)@.last() < lo,
    ensures
        ascending(final(v)@),
        final(v)@.len() == old(v)@.len() + (hi - lo + 1),
        final(v)@.last() == hi,
        forall|p: u16| #[trigger]
            final(v)@.contains(p) <==> (old(v)@.contains(p) || lo <= p <= hi),
{
    let ghost start = v@;
    let mut p: u16 = lo;
    loop
        invariant
            lo <= p <= hi,
            start == old(v)@,
            ascending(start),
            start.len() > 0 ==> start.last() < lo,
            ascending(v@),
            v@.len() == start.len() + (p - lo),
            v@.len() > 0 ==> v@.last() < p,
            forall|q: u16| #[trigger] v@.contains(q) <==> (start.contains(q) || lo <= q < p),
        decreases hi - p,
    {
        let ghost before = v@;
        v.push(p);
        proof {
            assert forall|i: int, j: int| 0 <= i < j < v@.len() implies v@[i] < v@[j] by {
                if j == before.len() {
                    if i < before.len() {
                        assert(v@[i] == before[i]);
                        assert(before[i] <= before.last());
                    }
                } else {
                    assert(v@[i] == before[i] && v@[j] == before[j]);
                }
            }
            assert forall|q: u16| #[trigger] v@.contains(q) <==> (start.contains(q) || lo <= q
                <= p) by {
                if v@.contains(q) {
                    let i = choose|i: int| 0 <= i < v@.len() && v@[i] == q;
                    if i < before.len() {
                        assert(before[i] == q);
                        assert(before.contains(q));
                    }
                }
                if before.contains(q) {
                    let i = choose|i: int| 0 <= i < before.len() && before[i] == q;
                    assert(v@[i] == q);
                }
                if q == p {
                    assert(v@[before.len() as int] == q);
                }
            }
        }
        if p == hi {
            return ;
        }
        p += 1;
    }
}

/// The ports of block 0 of the top-100 table.
pub open spec fn top_100_block_0(p: int) -> bool {
    p == 7 || p == 9 || p == 13 || 21 <= p <= 23 || 25 <= p <= 26 || p == 37 || p == 53 ||
    79 <= p <= 81 || p == 88 || p == 106 || 110 <= p <= 111 || p == 113 || p == 119 ||
    p == 135 || p == 139 || 143 <= p <= 144 || p == 179 || p == 199 || p == 389 || p == 427 ||
    443 <= p <= 445 || p == 465 || 513 <= p <= 515 || 543 <= p <= 544
}

/// The ports of block 1 of the top-100 table.
pub open spec fn top_100_block_1(p: int) -> bool {
    p == 548 || p == 554 || p == 587 || p == 631 || p == 646 || p == 873 || p == 990 ||
    p == 993 || p == 995 || 1025 <= p <= 1029 || p == 1110 || p == 1433 || p == 1720 ||
    p == 1723 || p == 1755 || p == 1900 || 2000 <= p <= 2001 || p == 2049 || p == 2121 ||
    p == 2717 || p == 3000 || p == 3128 || p == 3306 || p == 3389
}

/// The ports of block 2 of the top-100 table.
pub open spec fn top_100_block_2(p: int) -> bool {
    p == 3986 || p == 4899 || p == 5000 || p == 5009 || p == 5051 || p == 5060 || p == 5101 ||
    p == 5190 || p == 5357 || p == 5432 || p == 5631 || p == 5666 || p == 5800 || p == 5900 ||
    6000 <= p <= 6001 || p == 6646 || p == 7070 || p == 8000 || 8008 <= p <= 8009 ||
    8080 <= p <= 8081 || p == 8443 || p == 8888 || p == 9100 || 9999 <= p <= 10000
}

/// The ports of block 3 of the top-100 table.
pub open spec fn top_100_block_3(p: int) -> bool {
    p == 32768 || 49152 <= p <= 49157
}

/// Whether `p` is one of the top-100 ports.
pub open spec fn in_top_100(p: int) -> bool {
    if p < 548 {
        top_100_block_0(p)
    } else if p < 3986 {
        top_100_block_1(p)
    } else if p < 32768 {
        top_100_block_2(p)
    } else {
        top_100_block_3(p)
    }
}

/// Appends the ports of block 0 of the top-100 table.
#[verifier::rlimit(50)]
fn push_top_100_block_0(v: &mut Vec<u16>)
    requires
        lists(old(v)@, |p: int| in_top_100(p), 0, 0),
    ensures
        lists(final(v)@, |p: int| in_top_100(p), 548, 36),
{
    push_range(v, 7, 7);
    push_range(v, 9, 9);
    push_range(v, 13, 13);
    push_range(v, 21, 23);
    push_range(v, 25, 26);
    push_range(v, 37, 37);
    push_range(v, 53, 53);
    push_range(v, 79, 81);
    push_range(v, 88, 88);
    push_range(v, 106, 106);
    push_range(v, 110, 111);
    push_range(v, 113, 113);
    push_range(v, 119, 119);
    push_range(v, 135, 135);
    push_range(v, 139, 139);
    push_range(v, 143, 144);
    push_range(v, 179, 179);
    push_range(v, 199, 199);
    push_range(v, 389, 389);
    push_range(v, 427, 427);
    push_range(v, 443, 445);
    push_range(v, 465, 465);
    push_range(v, 513, 515);
    push_range(v, 543, 544);
}

/// Appends the ports of block 1 of the top-100 table.
#[verifier::rlimit(50)]
fn push_top_100_block_1(v: &mut Vec<u16>)
    requires
        lists(old(v)@, |p: int| in_top_100(p), 548, 36),
    ensures
        lists(final(v)@, |p: int| in_top_100(p), 3986, 65),
{
    push_range(v, 548, 548);
    push_range(v, 554, 554);
    push_range(v, 587, 587);
    push_range(v, 631, 631);
    push_range(v, 646, 646);
    push_range(v, 873, 873);
    push_range(v, 990, 990);
    push_range(v, 993, 993);
    push_range(v, 995, 995);
    push_range(v, 1025, 1029);
    push_range(v, 1110, 1110);
    push_range(v, 1433, 1433);
    push_range(v, 1720, 1720);
    push_range(v, 1723, 1723);
    push_range(v, 1755, 1755);
    push_range(v, 1900, 1900);
    push_range(v, 2000, 2001);
    push_range(v, 2049, 2049);
    push_range(v, 2121, 2121);
    push_range(v, 2717, 2717);
    push_range(v, 3000, 3000);
    push_range(v, 3128, 3128);
    push_range(v, 3306, 3306);
    push_range(v, 3389, 3389);
}

/// Appends the ports of block 2 of the top-100 table.
#[verifier::rlimit(50)]
fn push_top_100_block_2(v: &mut Vec<u16>)
    requires
        lists(old(v)@, |p: int| in_top_100(p), 3986, 65),
    ensures
        lists(final(v)@, |p: int| in_top_100(p), 32768, 93),
{
    push_range(v, 3986, 3986);
    push_range(v, 4899, 4899);
    push_range(v, 5000, 5000);
    push_range(v, 5009, 5009);
    push_range(v, 5051, 5051);
    push_range(v, 5060, 5060);
    push_range(v, 5101, 5101);
    push_range(v, 5190, 5190);
    push_range(v, 5357, 5357);
    push_range(v, 5432, 5432);
    push_range(v, 5631, 5631);
    push_range(v, 5666, 5666);
    push_range(v, 5800, 5800);
    push_range(v, 5900, 5900);
    push_range(v, 6000, 6001);
    push_range(v, 6646, 6646);
    push_range(v, 7070, 7070);
    push_range(v, 8000, 8000);
    push_range(v, 8008, 8009);
    push_range(v, 8080, 8081);
    push_range(v, 8443, 8443);
    push_range(v, 8888, 8888);
    push_range(v, 9100, 9100);
    push_range(v, 9999, 10000);
}

/// Appends the ports of block 3 of the top-100 table.
#[verifier::rlimit(50)]
fn push_top_100_block_3(v: &mut Vec<u16>)
    requires
        lists(old(v)@, |p: int| in_top_100(p), 32768, 93),
    ensures
        lists(final(v)@, |p: int| in_top_100(p), 65536, 100),
{
    push_range(v, 32768, 32768);
    push_range(v, 49152, 49157);
}

/// The top-100 ports, ascending.
pub fn top_100_ports() -> (r: Vec<u16>)
    ensures
        lists(r@, |p: int| in_top_100(p), 65536, 100),
{
    let mut v: Vec<u16> = Vec::new();
    push_top_100_block_0(&mut v);
    push_top_100_block_1(&mut v);
    push_top_100_block_2(&mut v);
    push_top_100_block_3(&mut v);
    v
}

/// The ports of block 0 of the top-1000 table.
pub open spec fn top_1000_block_0(p: int) -> bool {
    p == 1 || 3 <= p <= 4 || 6 <= p <= 7 || p == 9 || p == 13 || p == 17 || 19 <= p <= 26 ||
    p == 30 || 32 <= p <= 33 || p == 37 || 42 <= p <= 43 || p == 49 || p == 53 || p == 70 ||
    79 <= p <= 85 || 88 <= p <= 90 || 99 <= p <= 100 || p == 106 || 109 <= p <= 111 ||
    p == 113 || p == 119 || p == 125 || p == 135 || p == 139
}

/// The ports of block 1 of the top-1000 table.
pub open spec fn top_1000_block_1(p: int) -> bool {
    143 <= p <= 144 || p == 146 || p == 161 || p == 163 || p == 179 || p == 199 ||
    211 <= p <= 212 || p == 222 || 254 <= p <= 256 || p == 259 || p == 264 || p == 280 ||
    p == 301 || p == 306 || p == 311 || p == 340 || p == 366 || p == 389 || 406 <= p <= 407 ||
    416 <= p <= 417 || p == 425 || p == 427 || 443 <= p <= 445 || p == 458
}

/// The ports of block 2 of the top-1000 table.
pub open spec fn top_1000_block_2(p: int) -> bool {
    464 <= p <= 465 || p == 481 || p == 497 || p == 500 || 512 <= p <= 515 || p == 524 ||
    p == 541 || 543 <= p <= 545 || p == 548 || 554 <= p <= 555 || p == 563 || p == 587 ||
    p == 593 || 616 <= p <= 617 || p == 625 || p == 631 || p == 636 || p == 646 || p == 648 ||
    666 <= p <= 668 || p == 683 || p == 687 || p == 691 || p == 700
}

/// The ports of block 3 of the top-1000 table.
pub open spec fn top_1000_block_3(p: int) -> bool {
    p == 705 || p == 711 || p == 714 || p == 720 || p == 722 || p == 726 || p == 749 ||
    p == 765 || p == 777 || p == 783 || p == 787 || 800 <= p <= 801 || p == 808 || p == 843 ||
    p == 873 || p == 880 || p == 888 || p == 898 || 900 <= p <= 903 || 911 <= p <= 912 ||
    p == 981 || p == 987 || p == 990 || 992 <= p <= 993
}

/// The ports of block 4 of the top-1000 table.
pub open spec fn top_1000_block_4(p: int) -> bool {
    p == 995 || 999 <= p <= 1002 || p == 1007 || 1009 <= p <= 1011 || 1021 <= p <= 1100 ||
    p == 1102 || 1104 <= p <= 1108 || 1110 <= p <= 1114 || p == 1117 || p == 1119 ||
    1121 <= p <= 1124 || p == 1126 || 1130 <= p <= 1132 || 1137 <= p <= 1138 || p == 1141 ||
    p == 1145 || 1147 <= p <= 1149 || 1151 <= p <= 1152 || p == 1154 || 1163 <= p <= 1166 ||
    p == 1169 || 1174 <= p <= 1175 || p == 1183 || 1185 <= p <= 1187
}

/// The ports of block 5 of the top-1000 table.
pub open spec fn top_1000_block_5(p: int) -> bool {
    p == 1192 || 1198 <= p <= 1199 || p == 1201 || p == 1213 || 1216 <= p <= 1218 ||
    1233 <= p <= 1234 || p == 1236 || p == 1244 || 1247 <= p <= 1248 || p == 1259 ||
    1271 <= p <= 1272 || p == 1277 || p == 1287 || p == 1296 || 1300 <= p <= 1301 ||
    1309 <= p <= 1311 || p == 1322 || p == 1328 || p == 1334 || p == 1352 || p == 1417 ||
    1433 <= p <= 1434 || p == 1443 || p == 1455
}

/// The ports of block 6 of the top-1000 table.
pub open spec fn top_1000_block_6(p: int) -> bool {
    p == 1461 || p == 1494 || 1500 <= p <= 1501 || p == 1503 || p == 1521 || p == 1524 ||
    p == 1533 || p == 1556 || p == 1580 || p == 1583 || p == 1594 || p == 1600 || p == 1641 ||
    p == 1658 || p == 1666 || 1687 <= p <= 1688 || p == 1700 || 1717 <= p <= 1721 ||
    p == 1723 || p == 1755 || p == 1761 || 1782 <= p <= 1783 || p == 1801 || p == 1805
}

/// The ports of block 7 of the top-1000 table.
pub open spec fn top_1000_block_7(p: int) -> bool {
    p == 1812 || 1839 <= p <= 1840 || 1862 <= p <= 1864 || p == 1875 || p == 1900 ||
    p == 1914 || p == 1935 || p == 1947 || 1971 <= p <= 1972 || p == 1974 || p == 1984 ||
    1998 <= p <= 2010 || p == 2013 || 2020 <= p <= 2022 || p == 2030 || 2033 <= p <= 2035 ||
    p == 2038 || 2040 <= p <= 2043 || 2045 <= p <= 2049 || p == 2065 || p == 2068 ||
    2099 <= p <= 2100 || p == 2103 || 2105 <= p <= 2107
}

/// The ports of block 8 of the top-1000 table.
pub open spec fn top_1000_block_8(p: int) -> bool {
    p == 2111 || p == 2119 || p == 2121 || p == 2126 || p == 2135 || p == 2144 ||
    2160 <= p <= 2161 || p == 2170 || p == 2179 || 2190 <= p <= 2191 || p == 2196 ||
    p == 2200 || p == 2222 || p == 2251 || p == 2260 || p == 2288 || p == 2301 || p == 2323 ||
    p == 2366 || 2381 <= p <= 2383 || 2393 <= p <= 2394 || p == 2399 || p == 2401 || p == 2492
}

/// The ports of block 9 of the top-1000 table.
pub open spec fn top_1000_block_9(p: int) -> bool {
    p == 2500 || p == 2522 || p == 2525 || p == 2557 || 2601 <= p <= 2602 ||
    2604 <= p <= 2605 || 2607 <= p <= 2608 || p == 2638 || 2701 <= p <= 2702 || p == 2710 ||
    2717 <= p <= 2718 || p == 2725 || p == 2800 || p == 2809 || p == 2811 || p == 2869 ||
    p == 2875 || 2909 <= p <= 2910 || p == 2920 || 2967 <= p <= 2968 || p == 2998 ||
    3000 <= p <= 3001 || p == 3003 || 3005 <= p <= 3007
}

/// The ports of block 10 of the top-1000 table.
pub open spec fn top_1000_block_10(p: int) -> bool {
    p == 3011 || p == 3013 || p == 3017 || 3030 <= p <= 3031 || p == 3052 || p == 3071 ||
    p == 3077 || p == 3128 || p == 3168 || p == 3211 || p == 3221 || 3260 <= p <= 3261 ||
    3268 <= p <= 3269 || p == 3283 || 3300 <= p <= 3301 || p == 3306 || 3322 <= p <= 3325 ||
    p == 3333 || p == 3351 || p == 3367 || 3369 <= p <= 3372 || 3389 <= p <= 3390 ||
    p == 3404 || p == 3476
}

/// The ports of block 11 of the top-1000 table.
pub open spec fn top_1000_block_11(p: int) -> bool {
    p == 3493 || p == 3517 || p == 3527 || p == 3546 || p == 3551 || p == 3580 || p == 3659 ||
    3689 <= p <= 3690 || p == 3703 || p == 3737 || p == 3766 || p == 3784 ||
    3800 <= p <= 3801 || p == 3809 || p == 3814 || 3826 <= p <= 3828 || p == 3851 ||
    p == 3869 || p == 3871 || p == 3878 || p == 3880 || p == 3889 || p == 3905 || p == 3914
}

/// The ports of block 12 of the top-1000 table.
pub open spec fn top_1000_block_12(p: int) -> bool {
    p == 3918 || p == 3920 || p == 3945 || p == 3971 || p == 3986 || p == 3995 || p == 3998 ||
    4000 <= p <= 4006 || p == 4045 || p == 4111 || 4125 <= p <= 4126 || p == 4129 ||
    p == 4224 || p == 4242 || p == 4279 || p == 4321 || p == 4343 || 4443 <= p <= 4446 ||
    p == 4449 || p == 4550 || p == 4567 || p == 4662 || p == 4848 || 4899 <= p <= 4900
}

/// The ports of block 13 of the top-1000 table.
pub open spec fn top_1000_block_13(p: int) -> bool {
    p == 4998 || 5000 <= p <= 5004 || p == 5009 || p == 5030 || p == 5033 ||
    5050 <= p <= 5051 || p == 5054 || 5060 <= p <= 5061 || p == 5080 || p == 5087 ||
    5100 <= p <= 5102 || p == 5120 || p == 5190 || p == 5200 || p == 5214 ||
    5221 <= p <= 5222 || 5225 <= p <= 5226 || p == 5269 || p == 5280 || p == 5298 ||
    p == 5357 || p == 5405 || p == 5414 || 5431 <= p <= 5432
}

/// The ports of block 14 of the top-1000 table.
pub open spec fn top_1000_block_14(p: int) -> bool {
    p == 5440 || p == 5500 || p == 5510 || p == 5544 || p == 5550 || p == 5555 || p == 5560 ||
    p == 5566 || p == 5631 || p == 5633 || p == 5666 || 5678 <= p <= 5679 || p == 5718 ||
    p == 5730 || 5800 <= p <= 5802 || 5810 <= p <= 5811 || p == 5815 || p == 5822 ||
    p == 5825 || p == 5850 || p == 5859 || p == 5862 || p == 5877 || 5900 <= p <= 5904
}

/// The ports of block 15 of the top-1000 table.
pub open spec fn top_1000_block_15(p: int) -> bool {
    5906 <= p <= 5907 || 5910 <= p <= 5911 || p == 5915 || p == 5922 || p == 5925 ||
    p == 5950 || p == 5952 || 5959 <= p <= 5963 || 5987 <= p <= 5989 || 5998 <= p <= 6007 ||
    p == 6009 || p == 6025 || p == 6059 || 6100 <= p <= 6101 || p == 6106 || p == 6112 ||
    p == 6123 || p == 6129 || p == 6156 || p == 6346 || p == 6389 || p == 6502 || p == 6510 ||
    p == 6543
}

/// The ports of block 16 of the top-1000 table.
pub open spec fn top_1000_block_16(p: int) -> bool {
    p == 6547 || 6565 <= p <= 6567 || p == 6580 || p == 6646 || 6666 <= p <= 6669 ||
    p == 6689 || p == 6692 || p == 6699 || p == 6779 || 6788 <= p <= 6789 || p == 6792 ||
    p == 6839 || p == 6881 || p == 6901 || p == 6969 || 7000 <= p <= 7002 || p == 7004 ||
    p == 7007 || p == 7019 || p == 7025 || p == 7070 || p == 7100 || p == 7103 || p == 7106
}

/// The ports of block 17 of the top-1000 table.
pub open spec fn top_1000_block_17(p: int) -> bool {
    7200 <= p <= 7201 || p == 7402 || p == 7435 || p == 7443 || p == 7496 || p == 7512 ||
    p == 7625 || p == 7627 || p == 7676 || p == 7741 || 7777 <= p <= 7778 || p == 7800 ||
    p == 7911 || 7920 <= p <= 7921 || 7937 <= p <= 7938 || 7999 <= p <= 8002 ||
    8007 <= p <= 8011 || 8021 <= p <= 8022 || p == 8031 || p == 8042 || p == 8045 ||
    8080 <= p <= 8090 || p == 8093 || 8099 <= p <= 8100
}

/// The ports of block 18 of the top-1000 table.
pub open spec fn top_1000_block_18(p: int) -> bool {
    8180 <= p <= 8181 || 8192 <= p <= 8194 || p == 8200 || p == 8222 || p == 8254 ||
    8290 <= p <= 8292 || p == 8300 || p == 8333 || p == 8383 || p == 8400 || p == 8402 ||
    p == 8443 || p == 8500 || p == 8600 || p == 8649 || 8651 <= p <= 8652 || p == 8654 ||
    p == 8701 || p == 8800 || p == 8873 || p == 8888 || p == 8899 || p == 8994 ||
    9000 <= p <= 9003
}

/// The ports of block 19 of the top-1000 table.
pub open spec fn top_1000_block_19(p: int) -> bool {
    9009 <= p <= 9011 || p == 9040 || p == 9050 || p == 9071 || 9080 <= p <= 9081 ||
    9090 <= p <= 9091 || 9099 <= p <= 9103 || 9110 <= p <= 9111 || p == 9200 || p == 9207 ||
    p == 9220 || p == 9290 || p == 9415 || p == 9418 || p == 9485 || p == 9500 ||
    9502 <= p <= 9503 || p == 9535 || p == 9575 || 9593 <= p <= 9595 || p == 9618 ||
    p == 9666 || 9876 <= p <= 9878 || p == 9898
}

/// The ports of block 20 of the top-1000 table.
pub open spec fn top_1000_block_20(p: int) -> bool {
    p == 9900 || p == 9917 || p == 9929 || 9943 <= p <= 9944 || p == 9968 ||
    9998 <= p <= 10004 || 10009 <= p <= 10010 || p == 10012 || 10024 <= p <= 10025 ||
    p == 10082 || p == 10180 || p == 10215 || p == 10243 || p == 10566 || 10616 <= p <= 10617 ||
    p == 10621 || p == 10626 || 10628 <= p <= 10629 || p == 10778 || 11110 <= p <= 11111 ||
    p == 11967 || p == 12000 || p == 12174 || p == 12265
}

/// The ports of block 21 of the top-1000 table.
pub open spec fn top_1000_block_21(p: int) -> bool {
    p == 12345 || p == 13456 || p == 13722 || 13782 <= p <= 13783 || p == 14000 || p == 14238 ||
    14441 <= p <= 14442 || p == 15000 || 15002 <= p <= 15004 || p == 15660 || p == 15742 ||
    16000 <= p <= 16001 || p == 16012 || p == 16016 || p == 16018 || p == 16080 || p == 16113 ||
    16992 <= p <= 16993 || p == 17877 || p == 17988 || p == 18040 || p == 18101 || p == 18988 ||
    p == 19101
}

/// The ports of block 22 of the top-1000 table.
pub open spec fn top_1000_block_22(p: int) -> bool {
    p == 19283 || p == 19315 || p == 19350 || p == 19780 || p == 19801 || p == 19842 ||
    p == 20000 || p == 20005 || p == 20031 || 20221 <= p <= 20222 || p == 20828 || p == 21571 ||
    p == 22939 || p == 23502 || p == 24444 || p == 24800 || 25734 <= p <= 25735 || p == 26214 ||
    p == 27000 || 27352 <= p <= 27353 || 27355 <= p <= 27356 || p == 27715 || p == 28201 ||
    p == 30000
}

/// The ports of block 23 of the top-1000 table.
pub open spec fn top_1000_block_23(p: int) -> bool {
    p == 30718 || p == 30951 || p == 31038 || p == 31337 || 32768 <= p <= 32785 || p == 33354 ||
    p == 33899 || 34571 <= p <= 34573 || p == 35500 || p == 38292 || p == 40193 || p == 40911 ||
    p == 41511 || p == 42510 || p == 44176 || 44442 <= p <= 44443 || p == 44501 || p == 45100 ||
    p == 48080 || 49152 <= p <= 49161 || p == 49163 || p == 49165 || p == 49167 ||
    49175 <= p <= 49176
}

/// The ports of block 24 of the top-1000 table.
pub open spec fn top_1000_block_24(p: int) -> bool {
    p == 49400 || 49999 <= p <= 50003 || p == 50006 || p == 50300 || p == 50389 || p == 50500 ||
    p == 50636 || p == 50800 || p == 51103 || p == 51493 || p == 52673 || p == 52822 ||
    p == 52848 || p == 52869 || p == 54045 || p == 54328 || 55055 <= p <= 55056 || p == 55555 ||
    p == 55600 || 56737 <= p <= 56738 || p == 57294 || p == 57797 || p == 58080 || p == 60020
}

/// The ports of block 25 of the top-1000 table.
pub open spec fn top_1000_block_25(p: int) -> bool {
    p == 60443 || p == 61532 || p == 61900 || p == 62078 || p == 63331 || p == 64623 ||
    p == 64680 || p == 65000 || p == 65129 || p == 65389
}

/// Whether `p` is one of the top-1000 ports.
pub open spec fn in_top_1000(p: int) -> bool {
    if p < 143 {
        top_1000_block_0(p)
    } else if p < 464 {
        top_1000_block_1(p)
    } else if p < 705 {
        top_1000_block_2(p)
    } else if p < 995 {
        top_1000_block_3(p)
    } else if p < 1192 {
        top_1000_block_4(p)
    } else if p < 1461 {
        top_1000_block_5(p)
    } else if p < 1812 {
        top_1000_block_6(p)
    } else if p < 2111 {
        top_1000_block_7(p)
    } else if p < 2500 {
        top_1000_block_8(p)
    } else if p < 3011 {
        top_1000_block_9(p)
    } else if p < 3493 {
        top_1000_block_10(p)
    } else if p < 3918 {
        top_1000_block_11(p)
    } else if p < 4998 {
        top_1000_block_12(p)
    } else if p < 5440 {
        top_1000_block_13(p)
    } else if p < 5906 {
        top_1000_block_14(p)
    } else if p < 6547 {
        top_1000_block_15(p)
    } else if p < 7200 {
        top_1000_block_16(p)
    } else if p < 8180 {
        top_1000_block_17(p)
    } else if p < 9009 {
        top_1000_block_18(p)
    } else if p < 9900 {
        top_1000_block_19(p)
    } else if p < 12345 {
        top_1000_block_20(p)
    } else if p < 19283 {
        top_1000_block_21(p)
    } else if p < 30718 {
        top_1000_block_22(p)
    } else if p < 49400 {
        top_1000_block_23(p)
    } else if p < 60443 {
        top_1000_block_24(p)
    } else {
        top_1000_block_25(p)
    }
}

/// Appends the ports of block 0 of the top-1000 table.
#[verifier::rlimit(50)]
fn push_top_1000_block_0(v: &mut Vec<u16>)
    requires
        lists(old(v)@, |p: int| in_top_1000(p), 0, 0),
    ensures
        lists(final(v)@, |p: int| in_top_1000(p), 143, 46),
{
    push_range(v, 1, 1);
    push_range(v, 3, 4);
    push_range(v, 6, 7);
    push_range(v, 9, 9);
    push_range(v, 13, 13);
    push_range(v, 17, 17);
    push_range(v, 19, 26);
    push_range(v, 30, 30);
    push_range(v, 32, 33);
    push_range(v, 37, 37);
    push_range(v, 42, 43);
    push_range(v, 49, 49);
    push_range(v, 53, 53);
    push_range(v, 70, 70);
    push_range(v, 79, 85);
    push_range(v, 88, 90);
    push_range(v, 99, 100);
    push_range(v, 106, 106);
    push_range(v, 109, 111);
    push_range(v, 113, 113);
    push_range(v, 119, 119);
    push_range(v, 125, 125);
    push_range(v, 135, 135);
    push_range(v, 139, 139);
}

/// Appends the ports of block 1 of the top-1000 table.
#[verifier::rlimit(50)]
fn push_top_1000_block_1(v: &mut Vec<u16>)
    requires
        lists(old(v)@, |p: int| in_top_1000(p), 143, 46),
    ensures
        lists(final(v)@, |p: int| in_top_1000(p), 464, 78),
{
    push_range(v, 143, 144);
    push_range(v, 146, 146);
    push_range(v, 161, 161);
    push_range(v, 163, 163);
    push_range(v, 179, 179);
    push_range(v, 199, 199);
    push_range(v, 211, 212);
    push_range(v, 222, 222);
    push_range(v, 254, 256);
    push_range(v, 259, 259);
    push_range(v, 264, 264);
    push_range(v, 280, 280);
    push_range(v, 301, 301);
    push_range(v, 306, 306);
    push_range(v, 311, 311);
    push_range(v, 340, 340);
    push_range(v, 366, 366);
    push_range(v, 389, 389);
    push_range(v, 406, 407);
    push_range(v, 416, 417);
    push_range(v, 425, 425);
    push_range(v, 427, 427);
    push_range(v, 443, 445);
    push_range(v, 458, 458);
}

/// Appends the ports of block 2 of the top-1000 table.
#[verifier::rlimit(50)]
fn push_top_1000_block_2(v: &mut Vec<u16>)
    requires
        lists(old(v)@, |p: int| in_top_1000(p), 464, 78),
    ensures
        lists(final(v)@, |p: int| in_top_1000(p), 705, 112),
{
    push_range(v, 464, 465);
    push_range(v, 481, 481);
    push_range(v, 497, 497);
    push_range(v, 500, 500);
    push_range(v, 512, 515);
    push_range(v, 524, 524);
    push_range(v, 541, 541);
    push_range(v, 543, 545);
    push_range(v, 548, 548);
    push_range(v, 554, 555);
    push_range(v, 563, 563);
    push_range(v, 587, 587);
    push_range(v, 593, 593);
    push_range(v, 616, 617);
    push_range(v, 625, 625);
    push_range(v, 631, 631);
    push_range(v, 636, 636);
    push_range(v, 646, 646);
    push_range(v, 648, 648);
    push_range(v, 666, 668);
    push_range(v, 683, 683);
    push_range(v, 687, 687);
    push_range(v, 691, 691);
    push_range(v, 700, 700);
}

/// Appends the ports of block 3 of the top-1000 table.
#[verifier::rlimit(50)]
fn push_top_1000_block_3(v: &mut Vec<u16>)
    requires
        lists(old(v)@, |p: int| in_top_1000(p), 705, 112),
    ensures
        lists(final(v)@, |p: int| in_top_1000(p), 995, 142),
{
    push_range(v, 705, 705);
    push_range(v, 711, 711);
    push_range(v, 714, 714);
    push_range(v, 720, 720);
    push_range(v, 722, 722);
    push_range(v, 726, 726);
    push_range(v, 749, 749);
    push_range(v, 765, 765);
    push_range(v, 777, 777);
    push_range(v, 783, 783);
    push_range(v, 787, 787);
    push_range(v, 800, 801);
    push_range(v, 808, 808);
    push_range(v, 843, 843);
    push_range(v, 873, 873);
    push_range(v, 880, 880);
    push_range(v, 888, 888);
    push_range(v, 898, 898);
    push_range(v, 900, 903);
    push_range(v, 911, 912);
    push_range(v, 981, 981);
    push_range(v, 987, 987);
    push_range(v, 990, 990);
    push_range(v, 992, 993);
}

/// Appends the ports of block 4 of the top-1000 table.
#[verifier::rlimit(50)]
fn push_top_1000_block_4(v: &mut Vec<u16>)
    requires
        lists(old(v)@, |p: int| in_top_1000(p), 995, 142),
    ensures
        lists(final(v)@, |p: int| in_top_1000(p), 1192, 273),
{
    push_range(v, 995, 995);
    push_range(v, 999, 1002);
    push_range(v, 1007, 1007);
    push_range(v, 1009, 1011);
    push_range(v, 1021, 1100);
    push_range(v, 1102, 1102);
    push_range(v, 1104, 1108);
    push_range(v, 1110, 1114);
    push_range(v, 1117, 1117);
    push_range(v, 1119, 1119);
    push_range(v, 1121, 1124);
    push_range(v, 1126, 1126);
    push_range(v, 1130, 1132);
    push_range(v, 1137, 1138);
    push_range(v, 1141, 1141);
    push_range(v, 1145, 1145);
    push_range(v, 1147, 1149);
    push_range(v, 1151, 1152);
    push_range(v, 1154, 1154);
    push_range(v, 1163, 1166);
    push_range(v, 1169, 1169);
    push_range(v, 1174, 1175);
    push_range(v, 1183, 1183);
    push_range(v, 1185, 1187);
}

/// Appends the ports of block 5 of the top-1000 table.
#[verifier::rlimit(50)]
fn push_top_1000_block_5(v: &mut Vec<u16>)
    requires
        lists(old(v)@, |p: int| in_top_1000(p), 1192, 273),
    ensures
        lists(final(v)@, |p: int| in_top_1000(p), 1461, 307),
{
    push_range(v, 1192, 1192);
    push_range(v, 1198, 1199);
    push_range(v, 1201, 1201);
    push_range(v, 1213, 1213);
    push_range(v, 1216, 1218);
    push_range(v, 1233, 1234);
    push_range(v, 1236, 1236);
    push_range(v, 1244, 1244);
    push_range(v, 1247, 1248);
    push_range(v, 1259, 1259);
    push_range(v, 1271, 1272);
    push_range(v, 1277, 1277);
    push_range(v, 1287, 1287);
    push_range(v, 1296, 1296);
    push_range(v, 1300, 1301);
    push_range(v, 1309, 1311);
    push_range(v, 1322, 1322);
    push_range(v, 1328, 1328);
    push_range(v, 1334, 1334);
    push_range(v, 1352, 1352);
    push_range(v, 1417, 1417);
    push_range(v, 1433, 1434);
    push_range(v, 1443, 1443);
    push_range(v, 1455, 1455);
}

/// Appends the ports of block 6 of the top-1000 table.
#[verifier::rlimit(50)]
fn push_top_1000_block_6(v: &mut Vec<u16>)
    requires
        lists(old(v)@, |p: int| in_top_1000(p), 1461, 307),
    ensures
        lists(final(v)@, |p: int| in_top_1000(p), 1812, 338),
{
    push_range(v, 1461, 1461);
    push_range(v, 1494, 1494);
    push_range(v, 1500, 1501);
    push_range(v, 1503, 1503);
    push_range(v, 1521, 1521);
    push_range(v, 1524, 1524);
    push_range(v, 1533, 1533);
    push_range(v, 1556, 1556);
    push_range(v, 1580, 1580);
    push_range(v, 1583, 1583);
    push_range(v, 1594, 1594);
    push_range(v, 1600, 1600);
    push_range(v, 1641, 1641);
    push_range(v, 1658, 1658);
    push_range(v, 1666, 1666);
    push_range(v, 1687, 1688);
    push_range(v, 1700, 1700);
    push_range(v, 1717, 1721);
    push_range(v, 1723, 1723);
    push_range(v, 1755, 1755);
    push_range(v, 1761, 1761);
    push_range(v, 1782, 1783);
    push_range(v, 1801, 1801);
    push_range(v, 1805, 1805);
}

/// Appends the ports of block 7 of the top-1000 table.
#[verifier::rlimit(50)]
fn push_top_1000_block_7(v: &mut Vec<u16>)
    requires
        lists(old(v)@, |p: int| in_top_1000(p), 1812, 338),
    ensures
        lists(final(v)@, |p: int| in_top_1000(p), 2111, 392),
{
    push_range(v, 1812, 1812);
    push_range(v, 1839, 1840);
    push_range(v, 1862, 1864);
    push_range(v, 1875, 1875);
    push_range(v, 1900, 1900);
    push_range(v, 1914, 1914);
    push_range(v, 1935, 1935);
    push_range(v, 1947, 1947);
    push_range(v, 1971, 1972);
    push_range(v, 1974, 1974);
    push_range(v, 1984, 1984);
    push_range(v, 1998, 2010);
    push_range(v, 2013, 2013);
    push_range(v, 2020, 2022);
    push_range(v, 2030, 2030);
    push_range(v, 2033, 2035);
    push_range(v, 2038, 2038);
    push_range(v, 2040, 2043);
    push_range(v, 2045, 2049);
    push_range(v, 2065, 2065);
    push_range(v, 2068, 2068);
    push_range(v, 2099, 2100);
    push_range(v, 2103, 2103);
    push_range(v, 2105, 2107);
}

/// Appends the ports of block 8 of the top-1000 table.
#[verifier::rlimit(50)]
fn push_top_1000_block_8(v: &mut Vec<u16>)
    requires
        lists(old(v)@, |p: int| in_top_1000(p), 2111, 392),
    ensures
        lists(final(v)@, |p: int| in_top_1000(p), 2500, 421),
{
    push_range(v, 2111, 2111);
    push_range(v, 2119, 2119);
    push_range(v, 2121, 2121);
    push_range(v, 2126, 2126);
    push_range(v, 2135, 2135);
    push_range(v, 2144, 2144);
    push_range(v, 2160, 2161);
    push_range(v, 2170, 2170);
    push_range(v, 2179, 2179);
    push_range(v, 2190, 2191);
    push_range(v, 2196, 2196);
    push_range(v, 2200, 2200);
    push_range(v, 2222, 2222);
    push_range(v, 2251, 2251);
    push_range(v, 2260, 2260);
    push_range(v, 2288, 2288);
    push_range(v, 2301, 2301);
    push_range(v, 2323, 2323);
    push_range(v, 2366, 2366);
    push_range(v, 2381, 2383);
    push_range(v, 2393, 2394);
    push_range(v, 2399, 2399);
    push_range(v, 2401, 2401);
    push_range(v, 2492, 2492);
}

/// Appends the ports of block 9 of the top-1000 table.
#[verifier::rlimit(50)]
fn push_top_1000_block_9(v: &mut Vec<u16>)
    requires
        lists(old(v)@, |p: int| in_top_1000(p), 2500, 421),
    ensures
        lists(final(v)@, |p: int| in_top_1000(p), 3011, 455),
{
    push_range(v, 2500, 2500);
    push_range(v, 2522, 2522);
    push_range(v, 2525, 2525);
    push_range(v, 2557, 2557);
    push_range(v, 2601, 2602);
    push_range(v, 2604, 2605);
    push_range(v, 2607, 2608);
    push_range(v, 2638, 2638);
    push_range(v, 2701, 2702);
    push_range(v, 2710, 2710);
    push_range(v, 2717, 2718);
    push_range(v, 2725, 2725);
    push_range(v, 2800, 2800);
    push_range(v, 2809, 2809);
    push_range(v, 2811, 2811);
    push_range(v, 2869, 2869);
    push_range(v, 2875, 2875);
    push_range(v, 2909, 2910);
    push_range(v, 2920, 2920);
    push_range(v, 2967, 2968);
    push_range(v, 2998, 2998);
    push_range(v, 3000, 3001);
    push_range(v, 3003, 3003);
    push_range(v, 3005, 3007);
}

/// Appends the ports of block 10 of the top-1000 table.
#[verifier::rlimit(50)]
fn push_top_1000_block_10(v: &mut Vec<u16>)
    requires
        lists(old(v)@, |p: int| in_top_1000(p), 3011, 455),
    ensures
        lists(final(v)@, |p: int| in_top_1000(p), 3493, 490),
{
    push_range(v, 3011, 3011);
    push_range(v, 3013, 3013);
    push_range(v, 3017, 3017);
    push_range(v, 3030, 3031);
    push_range(v, 3052, 3052);
    push_range(v, 3071, 3071);
    push_range(v, 3077, 3077);
    push_range(v, 3128, 3128);
    push_range(v, 3168, 3168);
    push_range(v, 3211, 3211);
    push_range(v, 3221, 3221);
    push_range(v, 3260, 3261);
    push_range(v, 3268, 3269);
    push_range(v, 3283, 3283);
    push_range(v, 3300, 3301);
    push_range(v, 3306, 3306);
    push_range(v, 3322, 3325);
    push_range(v, 3333, 3333);
    push_range(v, 3351, 3351);
    push_range(v, 3367, 3367);
    push_range(v, 3369, 3372);
    push_range(v, 3389, 3390);
    push_range(v, 3404, 3404);
    push_range(v, 3476, 3476);
}

/// Appends the ports of block 11 of the top-1000 table.
#[verifier::rlimit(50)]
fn push_top_1000_block_11(v: &mut Vec<u16>)
    requires
        lists(old(v)@, |p: int| in_top_1000(p), 3493, 490),
    ensures
        lists(final(v)@, |p: int| in_top_1000(p), 3918, 518),
{
    push_range(v, 3493, 3493);
    push_range(v, 3517, 3517);
    push_range(v, 3527, 3527);
    push_range(v, 3546, 3546);
    push_range(v, 3551, 3551);
    push_range(v, 3580, 3580);
    push_range(v, 3659, 3659);
    push_range(v, 3689, 3690);
    push_range(v, 3703, 3703);
    push_range(v, 3737, 3737);
    push_range(v, 3766, 3766);
    push_range(v, 3784, 3784);
    push_range(v, 3800, 3801);
    push_range(v, 3809, 3809);
    push_range(v, 3814, 3814);
    push_range(v, 3826, 3828);
    push_range(v, 3851, 3851);
    push_range(v, 3869, 3869);
    push_range(v, 3871, 3871);
    push_range(v, 3878, 3878);
    push_range(v, 3880, 3880);
    push_range(v, 3889, 3889);
    push_range(v, 3905, 3905);
    push_range(v, 3914, 3914);
}

/// Appends the ports of block 12 of the top-1000 table.
#[verifier::rlimit(50)]
fn push_top_1000_block_12(v: &mut Vec<u16>)
    requires
        lists(old(v)@, |p: int| in_top_1000(p), 3918, 518),
    ensures
        lists(final(v)@, |p: int| in_top_1000(p), 4998, 553),
{
    push_range(v, 3918, 3918);
    push_range(v, 3920, 3920);
    push_range(v, 3945, 3945);
    push_range(v, 3971, 3971);
    push_range(v, 3986, 3986);
    push_range(v, 3995, 3995);
    push_range(v, 3998, 3998);
    push_range(v, 4000, 4006);
    push_range(v, 4045, 4045);
    push_range(v, 4111, 4111);
    push_range(v, 4125, 4126);
    push_range(v, 4129, 4129);
    push_range(v, 4224, 4224);
    push_range(v, 4242, 4242);
    push_range(v, 4279, 4279);
    push_range(v, 4321, 4321);
    push_range(v, 4343, 4343);
    push_range(v, 4443, 4446);
    push_range(v, 4449, 4449);
    push_range(v, 4550, 4550);
    push_range(v, 4567, 4567);
    push_range(v, 4662, 4662);
    push_range(v, 4848, 4848);
    push_range(v, 4899, 4900);
}

/// Appends the ports of block 13 of the top-1000 table.
#[verifier::rlimit(50)]
fn push_top_1000_block_13(v: &mut Vec<u16>)
    requires
        lists(old(v)@, |p: int| in_top_1000(p), 4998, 553),
    ensures
        lists(final(v)@, |p: int| in_top_1000(p), 5440, 588),
{
    push_range(v, 4998, 4998);
    push_range(v, 5000, 5004);
    push_range(v, 5009, 5009);
    push_range(v, 5030, 5030);
    push_range(v, 5033, 5033);
    push_range(v, 5050, 5051);
    push_range(v, 5054, 5054);
    push_range(v, 5060, 5061);
    push_range(v, 5080, 5080);
    push_range(v, 5087, 5087);
    push_range(v, 5100, 5102);
    push_range(v, 5120, 5120);
    push_range(v, 5190, 5190);
    push_range(v, 5200, 5200);
    push_range(v, 5214, 5214);
    push_range(v, 5221, 5222);
    push_range(v, 5225, 5226);
    push_range(v, 5269, 5269);
    push_range(v, 5280, 5280);
    push_range(v, 5298, 5298);
    push_range(v, 5357, 5357);
    push_range(v, 5405, 5405);
    push_range(v, 5414, 5414);
    push_range(v, 5431, 5432);
}

/// Appends the ports of block 14 of the top-1000 table.
#[verifier::rlimit(50)]
fn push_top_1000_block_14(v: &mut Vec<u16>)
    requires
        lists(old(v)@, |p: int| in_top_1000(p), 5440, 588),
    ensures
        lists(final(v)@, |p: int| in_top_1000(p), 5906, 620),
{
    push_range(v, 5440, 5440);
    push_range(v, 5500, 5500);
    push_range(v, 5510, 5510);
    push_range(v, 5544, 5544);
    push_range(v, 5550, 5550);
    push_range(v, 5555, 5555);
    push_range(v, 5560, 5560);
    push_range(v, 5566, 5566);
    push_range(v, 5631, 5631);
    push_range(v, 5633, 5633);
    push_range(v, 5666, 5666);
    push_range(v, 5678, 5679);
    push_range(v, 5718, 5718);
    push_range(v, 5730, 5730);
    push_range(v, 5800, 5802);
    push_range(v, 5810, 5811);
    push_range(v, 5815, 5815);
    push_range(v, 5822, 5822);
    push_range(v, 5825, 5825);
    push_range(v, 5850, 5850);
    push_range(v, 5859, 5859);
    push_range(v, 5862, 5862);
    push_range(v, 5877, 5877);
    push_range(v, 5900, 5904);
}

/// Appends the ports of block 15 of the top-1000 table.
#[verifier::rlimit(50)]
fn push_top_1000_block_15(v: &mut Vec<u16>)
    requires
        lists(old(v)@, |p: int| in_top_1000(p), 5906, 620),
    ensures
        lists(final(v)@, |p: int| in_top_1000(p), 6547, 662),
{
    push_range(v, 5906, 5907);
    push_range(v, 5910, 5911);
    push_range(v, 5915, 5915);
    push_range(v, 5922, 5922);
    push_range(v, 5925, 5925);
    push_range(v, 5950, 5950);
    push_range(v, 5952, 5952);
    push_range(v, 5959, 5963);
    push_range(v, 5987, 5989);
    push_range(v, 5998, 6007);
    push_range(v, 6009, 6009);
    push_range(v, 6025, 6025);
    push_range(v, 6059, 6059);
    push_range(v, 6100, 6101);
    push_range(v, 6106, 6106);
    push_range(v, 6112, 6112);
    push_range(v, 6123, 6123);
    push_range(v, 6129, 6129);
    push_range(v, 6156, 6156);
    push_range(v, 6346, 6346);
    push_range(v, 6389, 6389);
    push_range(v, 6502, 6502);
    push_range(v, 6510, 6510);
    push_range(v, 6543, 6543);
}

/// Appends the ports of block 16 of the top-1000 table.
#[verifier::rlimit(50)]
fn push_top_1000_block_16(v: &mut Vec<u16>)
    requires
        lists(old(v)@, |p: int| in_top_1000(p), 6547, 662),
    ensures
        lists(final(v)@, |p: int| in_top_1000(p), 7200, 694),
{
    push_range(v, 6547, 6547);
    push_range(v, 6565, 6567);
    push_range(v, 6580, 6580);
    push_range(v, 6646, 6646);
    push_range(v, 6666, 6669);
    push_range(v, 6689, 6689);
    push_range(v, 6692, 6692);
    push_range(v, 6699, 6699);
    push_range(v, 6779, 6779);
    push_range(v, 6788, 6789);
    push_range(v, 6792, 6792);
    push_range(v, 6839, 6839);
    push_range(v, 6881, 6881);
    push_range(v, 6901, 6901);
    push_range(v, 6969, 6969);
    push_range(v, 7000, 7002);
    push_range(v, 7004, 7004);
    push_range(v, 7007, 7007);
    push_range(v, 7019, 7019);
    push_range(v, 7025, 7025);
    push_range(v, 7070, 7070);
    push_range(v, 7100, 7100);
    push_range(v, 7103, 7103);
    push_range(v, 7106, 7106);
}

/// Appends the ports of block 17 of the top-1000 table.
#[verifier::rlimit(50)]
fn push_top_1000_block_17(v: &mut Vec<u16>)
    requires
        lists(old(v)@, |p: int| in_top_1000(p), 7200, 694),
    ensures
        lists(final(v)@, |p: int| in_top_1000(p), 8180, 741),
{
    push_range(v, 7200, 7201);
    push_range(v, 7402, 7402);
    push_range(v, 7435, 7435);
    push_range(v, 7443, 7443);
    push_range(v, 7496, 7496);
    push_range(v, 7512, 7512);
    push_range(v, 7625, 7625);
    push_range(v, 7627, 7627);
    push_range(v, 7676, 7676);
    push_range(v, 7741, 7741);
    push_range(v, 7777, 7778);
    push_range(v, 7800, 7800);
    push_range(v, 7911, 7911);
    push_range(v, 7920, 7921);
    push_range(v, 7937, 7938);
    push_range(v, 7999, 8002);
    push_range(v, 8007, 8011);
    push_range(v, 8021, 8022);
    push_range(v, 8031, 8031);
    push_range(v, 8042, 8042);
    push_range(v, 8045, 8045);
    push_range(v, 8080, 8090);
    push_range(v, 8093, 8093);
    push_range(v, 8099, 8100);
}

/// Appends the ports of block 18 of the top-1000 table.
#[verifier::rlimit(50)]
fn push_top_1000_block_18(v: &mut Vec<u16>)
    requires
        lists(old(v)@, |p: int| in_top_1000(p), 8180, 741),
    ensures
        lists(final(v)@, |p: int| in_top_1000(p), 9009, 774),
{
    push_range(v, 8180, 8181);
    push_range(v, 8192, 8194);
    push_range(v, 8200, 8200);
    push_range(v, 8222, 8222);
    push_range(v, 8254, 8254);
    push_range(v, 8290, 8292);
    push_range(v, 8300, 8300);
    push_range(v, 8333, 8333);
    push_range(v, 8383, 8383);
    push_range(v, 8400, 8400);
    push_range(v, 8402, 8402);
    push_range(v, 8443, 8443);
    push_range(v, 8500, 8500);
    push_range(v, 8600, 8600);
    push_range(v, 8649, 8649);
    push_range(v, 8651, 8652);
    push_range(v, 8654, 8654);
    push_range(v, 8701, 8701);
    push_range(v, 8800, 8800);
    push_range(v, 8873, 8873);
    push_range(v, 8888, 8888);
    push_range(v, 8899, 8899);
    push_range(v, 8994, 8994);
    push_range(v, 9000, 9003);
}

/// Appends the ports of block 19 of the top-1000 table.
#[verifier::rlimit(50)]
fn push_top_1000_block_19(v: &mut Vec<u16>)
    requires
        lists(old(v)@, |p: int| in_top_1000(p), 9009, 774),
    ensures
        lists(final(v)@, |p: int| in_top_1000(p), 9900, 812),
{
    push_range(v, 9009, 9011);
    push_range(v, 9040, 9040);
    push_range(v, 9050, 9050);
    push_range(v, 9071, 9071);
    push_range(v, 9080, 9081);
    push_range(v, 9090, 9091);
    push_range(v, 9099, 9103);
    push_range(v, 9110, 9111);
    push_range(v, 9200, 9200);
    push_range(v, 9207, 9207);
    push_range(v, 9220, 9220);
    push_range(v, 9290, 9290);
    push_range(v, 9415, 9415);
    push_range(v, 9418, 9418);
    push_range(v, 9485, 9485);
    push_range(v, 9500, 9500);
    push_range(v, 9502, 9503);
    push_range(v, 9535, 9535);
    push_range(v, 9575, 9575);
    push_range(v, 9593, 9595);
    push_range(v, 9618, 9618);
    push_range(v, 9666, 9666);
    push_range(v, 9876, 9878);
    push_range(v, 9898, 9898);
}

/// Appends the ports of block 20 of the top-1000 table.
#[verifier::rlimit(50)]
fn push_top_1000_block_20(v: &mut Vec<u16>)
    requires
        lists(old(v)@, |p: int| in_top_1000(p), 9900, 812),
    ensures
        lists(final(v)@, |p: int| in_top_1000(p), 12345, 848),
{
    push_range(v, 9900, 9900);
    push_range(v, 9917, 9917);
    push_range(v, 9929, 9929);
    push_range(v, 9943, 9944);
    push_range(v, 9968, 9968);
    push_range(v, 9998, 10004);
    push_range(v, 10009, 10010);
    push_range(v, 10012, 10012);
    push_range(v, 10024, 10025);
    push_range(v, 10082, 10082);
    push_range(v, 10180, 10180);
    push_range(v, 10215, 10215);
    push_range(v, 10243, 10243);
    push_range(v, 10566, 10566);
    push_range(v, 10616, 10617);
    push_range(v, 10621, 10621);
    push_range(v, 10626, 10626);
    push_range(v, 10628, 10629);
    push_range(v, 10778, 10778);
    push_range(v, 11110, 11111);
    push_range(v, 11967, 11967);
    push_range(v, 12000, 12000);
    push_range(v, 12174, 12174);
    push_range(v, 12265, 12265);
}

/// Appends the ports of block 21 of the top-1000 table.
#[verifier::rlimit(50)]
fn push_top_1000_block_21(v: &mut Vec<u16>)
    requires
        lists(old(v)@, |p: int| in_top_1000(p), 12345, 848),
    ensures
        lists(final(v)@, |p: int| in_top_1000(p), 19283, 878),
{
    push_range(v, 12345, 12345);
    push_range(v, 13456, 13456);
    push_range(v, 13722, 13722);
    push_range(v, 13782, 13783);
    push_range(v, 14000, 14000);
    push_range(v, 14238, 14238);
    push_range(v, 14441, 14442);
    push_range(v, 15000, 15000);
    push_range(v, 15002, 15004);
    push_range(v, 15660, 15660);
    push_range(v, 15742, 15742);
    push_range(v, 16000, 16001);
    push_range(v, 16012, 16012);
    push_range(v, 16016, 16016);
    push_range(v, 16018, 16018);
    push_range(v, 16080, 16080);
    push_range(v, 16113, 16113);
    push_range(v, 16992, 16993);
    push_range(v, 17877, 17877);
    push_range(v, 17988, 17988);
    push_range(v, 18040, 18040);
    push_range(v, 18101, 18101);
    push_range(v, 18988, 18988);
    push_range(v, 19101, 19101);
}

/// Appends the ports of block 22 of the top-1000 table.
#[verifier::rlimit(50)]
fn push_top_1000_block_22(v: &mut Vec<u16>)
    requires
        lists(old(v)@, |p: int| in_top_1000(p), 19283, 878),
    ensures
        lists(final(v)@, |p: int| in_top_1000(p), 30718, 906),
{
    push_range(v, 19283, 19283);
    push_range(v, 19315, 19315);
    push_range(v, 19350, 19350);
    push_range(v, 19780, 19780);
    push_range(v, 19801, 19801);
    push_range(v, 19842, 19842);
    push_range(v, 20000, 20000);
    push_range(v, 20005, 20005);
    push_range(v, 20031, 20031);
    push_range(v, 20221, 20222);
    push_range(v, 20828, 20828);
    push_range(v, 21571, 21571);
    push_range(v, 22939, 22939);
    push_range(v, 23502, 23502);
    push_range(v, 24444, 24444);
    push_range(v, 24800, 24800);
    push_range(v, 25734, 25735);
    push_range(v, 26214, 26214);
    push_range(v, 27000, 27000);
    push_range(v, 27352, 27353);
    push_range(v, 27355, 27356);
    push_range(v, 27715, 27715);
    push_range(v, 28201, 28201);
    push_range(v, 30000, 30000);
}

/// Appends the ports of block 23 of the top-1000 table.
#[verifier::rlimit(50)]
fn push_top_1000_block_23(v: &mut Vec<u16>)
    requires
        lists(old(v)@, |p: int| in_top_1000(p), 30718, 906),
    ensures
        lists(final(v)@, |p: int| in_top_1000(p), 49400, 960),
{
    push_range(v, 30718, 30718);
    push_range(v, 30951, 30951);
    push_range(v, 31038, 31038);
    push_range(v, 31337, 31337);
    push_range(v, 32768, 32785);
    push_range(v, 33354, 33354);
    push_range(v, 33899, 33899);
    push_range(v, 34571, 34573);
    push_range(v, 35500, 35500);
    push_range(v, 38292, 38292);
    push_range(v, 40193, 40193);
    push_range(v, 40911, 40911);
    push_range(v, 41511, 41511);
    push_range(v, 42510, 42510);
    push_range(v, 44176, 44176);
    push_range(v, 44442, 44443);
    push_range(v, 44501, 44501);
    push_range(v, 45100, 45100);
    push_range(v, 48080, 48080);
    push_range(v, 49152, 49161);
    push_range(v, 49163, 49163);
    push_range(v, 49165, 49165);
    push_range(v, 49167, 49167);
    push_range(v, 49175, 49176);
}

/// Appends the ports of block 24 of the top-1000 table.
#[verifier::rlimit(50)]
fn push_top_1000_block_24(v: &mut Vec<u16>)
    requires
        lists(old(v)@, |p: int| in_top_1000(p), 49400, 960),
    ensures
        lists(final(v)@, |p: int| in_top_1000(p), 60443, 990),
{
    push_range(v, 49400, 49400);
    push_range(v, 49999, 50003);
    push_range(v, 50006, 50006);
    push_range(v, 50300, 50300);
    push_range(v, 50389, 50389);
    push_range(v, 50500, 50500);
    push_range(v, 50636, 50636);
    push_range(v, 50800, 50800);
    push_range(v, 51103, 51103);
    push_range(v, 51493, 51493);
    push_range(v, 52673, 52673);
    push_range(v, 52822, 52822);
    push_range(v, 52848, 52848);
    push_range(v, 52869, 52869);
    push_range(v, 54045, 54045);
    push_range(v, 54328, 54328);
    push_range(v, 55055, 55056);
    push_range(v, 55555, 55555);
    push_range(v, 55600, 55600);
    push_range(v, 56737, 56738);
    push_range(v, 57294, 57294);
    push_range(v, 57797, 57797);
    push_range(v, 58080, 58080);
    push_range(v, 60020, 60020);
}

/// Appends the ports of block 25 of the top-1000 table.
#[verifier::rlimit(50)]
fn push_top_1000_block_25(v: &mut Vec<u16>)
    requires
        lists(old(v)@, |p: int| in_top_1000(p), 60443, 990),
    ensures
        lists(final(v)@, |p: int| in_top_1000(p), 65536, 1000),
{
    push_range(v, 60443, 60443);
    push_range(v, 61532, 61532);
    push_range(v, 61900, 61900);
    push_range(v, 62078, 62078);
    push_range(v, 63331, 63331);
    push_range(v, 64623, 64623);
    push_range(v, 64680, 64680);
    push_range(v, 65000, 65000);
    push_range(v, 65129, 65129);
    push_range(v, 65389, 65389);
}

/// The top-1000 ports, ascending.
pub fn top_1000_ports() -> (r: Vec<u16>)
    ensures
        lists(r@, |p: int| in_top_1000(p), 65536, 1000),
{
    let mut v: Vec<u16> = Vec::new();
    push_top_1000_block_0(&mut v);
    push_top_1000_block_1(&mut v);
    push_top_1000_block_2(&mut v);
    push_top_1000_block_3(&mut v);
    push_top_1000_block_4(&mut v);
    push_top_1000_block_5(&mut v);
    push_top_1000_block_6(&mut v);
    push_top_1000_block_7(&mut v);
    push_top_1000_block_8(&mut v);
    push_top_1000_block_9(&mut v);
    push_top_1000_block_10(&mut v);
    push_top_1000_block_11(&mut v);
    push_top_1000_block_12(&mut v);
    push_top_1000_block_13(&mut v);
    push_top_1000_block_14(&mut v);
    push_top_1000_block_15(&mut v);
    push_top_1000_block_16(&mut v);
    push_top_1000_block_17(&mut v);
    push_top_1000_block_18(&mut v);
    push_top_1000_block_19(&mut v);
    push_top_1000_block_20(&mut v);
    push_top_1000_block_21(&mut v);
    push_top_1000_block_22(&mut v);
    push_top_1000_block_23(&mut v);
    push_top_1000_block_24(&mut v);
    push_top_1000_block_25(&mut v);
    v
}

} // verus!
