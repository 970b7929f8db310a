//! Sector geometry shared by Provision and Inspect: a disk split into labelled
//! regions, checked for completeness, and drawn as a proportional bar with a legend.

use vstd::prelude::*;
use crate::provision::ProvisionBarKind;
use crate::text::{concat, spec_decimal, u64_decimal};

verus! {

#[derive(Debug, Clone, Copy, PartialEq, Eq, Structural, Hash, PartialOrd, Ord)]
pub enum DiskRegionKind {
    Protocol,
    Reserved,
    Unknown,
    Free,
    Plain,
    Boot,
    Share,
    Combined,
    Encrypt,
    Compatibility,
    Lce,
    Tail,
}

pub open spec fn spec_region_label(k: DiskRegionKind) -> Seq<char> {
    match k {
        DiskRegionKind::Protocol => "EDP 协议区"@,
        DiskRegionKind::Reserved => "保留区域"@,
        DiskRegionKind::Unknown => "未知区域"@,
        DiskRegionKind::Free => "空闲"@,
        DiskRegionKind::Plain => "普通分区"@,
        DiskRegionKind::Boot => "启动区"@,
        DiskRegionKind::Share => "交换区"@,
        DiskRegionKind::Combined => "二合一区"@,
        DiskRegionKind::Encrypt => "保密区"@,
        DiskRegionKind::Compatibility => "兼容保留区"@,
        DiskRegionKind::Lce => "LCE"@,
        DiskRegionKind::Tail => "盘尾区域"@,
    }
}

/// Which region wins where claims overlap: the higher priority.
pub open spec fn spec_priority(k: DiskRegionKind) -> u8 {
    match k {
        DiskRegionKind::Protocol => 120,
        DiskRegionKind::Lce => 115,
        DiskRegionKind::Boot | DiskRegionKind::Share | DiskRegionKind::Combined
        | DiskRegionKind::Encrypt | DiskRegionKind::Plain => 110,
        DiskRegionKind::Compatibility => 105,
        DiskRegionKind::Tail => 100,
        DiskRegionKind::Reserved => 90,
        DiskRegionKind::Free => 80,
        DiskRegionKind::Unknown => 10,
    }
}

pub open spec fn spec_visual_kind(k: DiskRegionKind) -> ProvisionBarKind {
    match k {
        DiskRegionKind::Protocol | DiskRegionKind::Boot => ProvisionBarKind::Boot,
        DiskRegionKind::Share | DiskRegionKind::Combined => ProvisionBarKind::Share,
        DiskRegionKind::Encrypt => ProvisionBarKind::Encrypt,
        DiskRegionKind::Compatibility | DiskRegionKind::Reserved | DiskRegionKind::Lce
        | DiskRegionKind::Tail => ProvisionBarKind::Compatibility,
        DiskRegionKind::Plain => ProvisionBarKind::Plain,
        DiskRegionKind::Free | DiskRegionKind::Unknown => ProvisionBarKind::Free,
    }
}

impl DiskRegionKind {
    pub fn label(self) -> (r: &'static str)
        ensures
            r@ == spec_region_label(self),
    {
        match self {
            DiskRegionKind::Protocol => "EDP 协议区",
            DiskRegionKind::Reserved => "保留区域",
            DiskRegionKind::Unknown => "未知区域",
            DiskRegionKind::Free => "空闲",
            DiskRegionKind::Plain => "普通分区",
            DiskRegionKind::Boot => "启动区",
            DiskRegionKind::Share => "交换区",
            DiskRegionKind::Combined => "二合一区",
            DiskRegionKind::Encrypt => "保密区",
            DiskRegionKind::Compatibility => "兼容保留区",
            DiskRegionKind::Lce => "LCE",
            DiskRegionKind::Tail => "盘尾区域",
        }
    }

    pub fn priority(self) -> (r: u8)
        ensures
            r == spec_priority(self),
    {
        match self {
            DiskRegionKind::Protocol => 120,
            DiskRegionKind::Lce => 115,
            DiskRegionKind::Boot | DiskRegionKind::Share | DiskRegionKind::Combined
            | DiskRegionKind::Encrypt | DiskRegionKind::Plain => 110,
            DiskRegionKind::Compatibility => 105,
            DiskRegionKind::Tail => 100,
            DiskRegionKind::Reserved => 90,
            DiskRegionKind::Free => 80,
            DiskRegionKind::Unknown => 10,
        }
    }

    pub fn visual_kind(self) -> (r: ProvisionBarKind)
        ensures
            r == spec_visual_kind(self),
    {
        match self {
            DiskRegionKind::Protocol | DiskRegionKind::Boot => ProvisionBarKind::Boot,
            DiskRegionKind::Share | DiskRegionKind::Combined => ProvisionBarKind::Share,
            DiskRegionKind::Encrypt => ProvisionBarKind::Encrypt,
            DiskRegionKind::Compatibility | DiskRegionKind::Reserved | DiskRegionKind::Lce
            | DiskRegionKind::Tail => ProvisionBarKind::Compatibility,
            DiskRegionKind::Plain => ProvisionBarKind::Plain,
            DiskRegionKind::Free | DiskRegionKind::Unknown => ProvisionBarKind::Free,
        }
    }
}

/// A labelled run of sectors.
#[derive(Debug, Clone)]
pub struct DiskLayoutSegment {
    pub label: String,
    pub start_lba: u64,
    pub sector_count: u64,
    pub kind: DiskRegionKind,
}

pub open spec fn spec_end(s: DiskLayoutSegment) -> int {
    s.start_lba + s.sector_count
}

pub open spec fn spec_end_fits(s: DiskLayoutSegment) -> bool {
    spec_end(s) <= u64::MAX
}

/// `[first..last]`, both ends inclusive, or `[无效范围]` for an empty or overflowing run.
pub open spec fn spec_closed_range(s: DiskLayoutSegment) -> Seq<char> {
    if spec_end_fits(s) && s.sector_count > 0 {
        "["@ + spec_decimal(s.start_lba as nat) + ".."@ + spec_decimal((spec_end(s) - 1) as nat)
            + "]"@
    } else {
        "[无效范围]"@
    }
}

impl DiskLayoutSegment {
    /// First LBA after the segment, or an error naming it when that overflows.
    pub fn end_exclusive(&self) -> (r: Result<u64, String>)
        ensures
            spec_end_fits(*self) ==> r == Ok::<u64, String>(spec_end(*self) as u64),
            !spec_end_fits(*self) ==> (r matches Err(e) && e@ == self.label@ + " LBA range overflows"@),
    {
        if self.start_lba <= u64::MAX - self.sector_count {
            Ok(self.start_lba + self.sector_count)
        } else {
            Err(concat(self.label.as_str(), " LBA range overflows"))
        }
    }

    pub fn closed_range(&self) -> (r: String)
        ensures
            r@ == spec_closed_range(*self),
    {
        if self.start_lba <= u64::MAX - self.sector_count && self.sector_count > 0 {
            let a = u64_decimal(self.start_lba);
            let b = u64_decimal(self.start_lba + self.sector_count - 1);
            let s1 = concat("[", a.as_str());
            let s2 = concat(s1.as_str(), "..");
            let s3 = concat(s2.as_str(), b.as_str());
            let r = concat(s3.as_str(), "]");
            proof {
                assert(r@ =~= spec_closed_range(*self));
            }
            r
        } else {
            String::from_str("[无效范围]")
        }
    }

    /// A copy with the same label, range and kind.
    pub fn copy(&self) -> (r: Self)
        ensures
            r == *self,
    {
        DiskLayoutSegment {
            label: self.label.clone(),
            start_lba: self.start_lba,
            sector_count: self.sector_count,
            kind: self.kind,
        }
    }
}

/// A disk of `total_sectors` split into segments in start order.
#[derive(Debug, Clone)]
pub struct DiskLayoutModel {
    pub total_sectors: u64,
    pub segments: Vec<DiskLayoutSegment>,
}

// ----- stable ordering by start LBA -----

pub open spec fn spec_starts_sorted(s: Seq<DiskLayoutSegment>) -> bool {
    forall|i: int, j: int| 0 <= i <= j < s.len() ==> (#[trigger] s[i]).start_lba <= (#[trigger] s[j]).start_lba
}

/// Segments before `k` start no later than `start`, those from `k` on start later.
pub open spec fn spec_upper_split(s: Seq<DiskLayoutSegment>, start: u64, k: int) -> bool {
    &&& 0 <= k <= s.len()
    &&& forall|j: int| 0 <= j < k ==> (#[trigger] s[j]).start_lba <= start
    &&& forall|j: int| k <= j < s.len() ==> (#[trigger] s[j]).start_lba > start
}

/// `x` inserted after every segment that starts no later than it.
pub open spec fn spec_insert_stable(s: Seq<DiskLayoutSegment>, x: DiskLayoutSegment) -> Seq<DiskLayoutSegment> {
    s.insert(choose|k: int| #[trigger] spec_upper_split(s, x.start_lba, k), x)
}

/// The segments sorted by start LBA, segments with equal starts kept in their order.
pub open spec fn spec_stable_sort(s: Seq<DiskLayoutSegment>) -> Seq<DiskLayoutSegment>
    decreases s.len(),
{
    if s.len() == 0 {
        s
    } else {
        spec_insert_stable(spec_stable_sort(s.drop_last()), s.last())
    }
}

proof fn lemma_stable_sort_sorted(s: Seq<DiskLayoutSegment>)
    ensures
        spec_starts_sorted(spec_stable_sort(s)),
        spec_stable_sort(s).len() == s.len(),
    decreases s.len(),
{
    if s.len() > 0 {
        let t = spec_stable_sort(s.drop_last());
        lemma_stable_sort_sorted(s.drop_last());
        let x = s.last();
        let k = lemma_upper_split_exists(t, x.start_lba);
        let kk = choose|k: int| #[trigger] spec_upper_split(t, x.start_lba, k);
        let r = t.insert(kk, x);
        assert forall|i: int, j: int| 0 <= i <= j < r.len() implies (#[trigger] r[i]).start_lba <= (#[trigger] r[j]).start_lba by {
            if j < kk {
                assert(r[i] == t[i] && r[j] == t[j]);
            } else if j == kk {
                if i < kk {
                    assert(r[i] == t[i]);
                }
            } else if i < kk {
                assert(r[i] == t[i] && r[j] == t[j - 1]);
            } else if i == kk {
                assert(r[j] == t[j - 1]);
            } else {
                assert(r[i] == t[i - 1] && r[j] == t[j - 1]);
            }
        }
    }
}

proof fn lemma_upper_split_exists(t: Seq<DiskLayoutSegment>, start: u64) -> (k: int)
    requires
        spec_starts_sorted(t),
    ensures
        spec_upper_split(t, start, k),
        forall|k2: int| #[trigger] spec_upper_split(t, start, k2) ==> k2 == k,
    decreases t.len(),
{
    let k = upper_count(t, start);
    assert forall|k2: int| #[trigger] spec_upper_split(t, start, k2) implies k2 == k by {
        if k2 < k {
            assert(t[k2].start_lba > start);
        } else if k < k2 {
            assert(t[k].start_lba <= start);
        }
    }
    k
}

proof fn upper_count(t: Seq<DiskLayoutSegment>, start: u64) -> (k: int)
    requires
        spec_starts_sorted(t),
    ensures
        spec_upper_split(t, start, k),
    decreases t.len(),
{
    if t.len() == 0 {
        0
    } else if t.last().start_lba <= start {
        assert forall|j: int| 0 <= j < t.len() implies (#[trigger] t[j]).start_lba <= start by {
            assert(t[j].start_lba <= t[t.len() - 1].start_lba);
        }
        t.len() as int
    } else {
        let d = t.drop_last();
        assert(spec_starts_sorted(d));
        let k = upper_count(d, start);
        assert forall|j: int| 0 <= j < k implies (#[trigger] t[j]).start_lba <= start by {
            assert(t[j] == d[j]);
        }
        assert forall|j: int| k <= j < t.len() implies (#[trigger] t[j]).start_lba > start by {
            if j < t.len() - 1 {
                assert(t[j] == d[j]);
            }
        }
        k
    }
}

/// Sorts by start LBA, keeping segments with equal starts in their given order.
fn stable_sort_segments(v: Vec<DiskLayoutSegment>) -> (r: Vec<DiskLayoutSegment>)
    ensures
        r@ == spec_stable_sort(v@),
        spec_starts_sorted(r@),
{
    let mut out: Vec<DiskLayoutSegment> = Vec::new();
    let mut rest = v;
    let ghost orig = rest@;
    let n = rest.len();
    // Reverse the input first so that popping yields the segments front to back.
    let mut reversed: Vec<DiskLayoutSegment> = Vec::new();
    while rest.len() > 0
        invariant
            rest@.len() + reversed@.len() == orig.len(),
            rest@ == orig.take(rest@.len() as int),
            forall|j: int| 0 <= j < reversed@.len() ==> reversed@[j] == orig[orig.len() - 1 - j],
        decreases rest@.len(),
    {
        let x = rest.pop().unwrap();
        reversed.push(x);
        proof {
            assert(rest@ =~= orig.take(rest@.len() as int));
        }
    }
    proof {
        lemma_stable_sort_sorted(orig.take(0));
        assert(orig.take(0) =~= Seq::<DiskLayoutSegment>::empty());
    }
    let mut done: usize = 0;
    while reversed.len() > 0
        invariant
            orig.len() == n,
            done + reversed@.len() == orig.len(),
            forall|j: int| 0 <= j < reversed@.len() ==> reversed@[j] == orig[orig.len() - 1 - j],
            out@ == spec_stable_sort(orig.take(done as int)),
            spec_starts_sorted(out@),
        decreases reversed@.len(),
    {
        let x = reversed.pop().unwrap();
        proof {
            assert(x == orig[done as int]);
            assert(orig.take(done + 1).drop_last() =~= orig.take(done as int));
        }
        let mut k: usize = 0;
        while k < out.len() && out[k].start_lba <= x.start_lba
            invariant
                k <= out@.len(),
                forall|j: int| 0 <= j < k ==> (#[trigger] out@[j]).start_lba <= x.start_lba,
            decreases out@.len() - k,
        {
            k = k + 1;
        }
        proof {
            assert forall|j: int| k <= j < out@.len() implies (#[trigger] out@[j]).start_lba > x.start_lba by {
                assert(out@[k as int].start_lba > x.start_lba);
                assert(out@[k as int].start_lba <= out@[j].start_lba);
            }
            assert(spec_upper_split(out@, x.start_lba, k as int));
            let kk = lemma_upper_split_exists(out@, x.start_lba);
            lemma_stable_sort_sorted(orig.take(done + 1));
        }
        out.insert(k, x);
        done = done + 1;
    }
    proof {
        assert(orig.take(orig.len() as int) =~= orig);
    }
    out
}

proof fn lemma_stable_sort_of_sorted(s: Seq<DiskLayoutSegment>)
    requires
        spec_starts_sorted(s),
    ensures
        spec_stable_sort(s) == s,
    decreases s.len(),
{
    if s.len() > 0 {
        let d = s.drop_last();
        assert(spec_starts_sorted(d));
        lemma_stable_sort_of_sorted(d);
        assert forall|j: int| 0 <= j < d.len() implies (#[trigger] d[j]).start_lba <= s.last().start_lba by {
            assert(d[j] == s[j]);
        }
        assert(spec_upper_split(d, s.last().start_lba, d.len() as int));
        let k = lemma_upper_split_exists(d, s.last().start_lba);
        assert(d.insert(d.len() as int, s.last()) =~= s);
    }
}

// ----- completeness -----

/// A segment that is empty, overflows, or runs past the disk.
pub open spec fn spec_seg_bad(total: u64, s: DiskLayoutSegment) -> bool {
    s.sector_count == 0 || !spec_end_fits(s) || spec_end(s) > total
}

/// Consecutive segments `i` and `i + 1` show the same region under the same label.
pub open spec fn spec_pair_same(segs: Seq<DiskLayoutSegment>, i: int) -> bool {
    segs[i].kind == segs[i + 1].kind && segs[i].label@ == segs[i + 1].label@
}

/// Consecutive segments `i` and `i + 1` leave a hole or overlap.
pub open spec fn spec_pair_broken(segs: Seq<DiskLayoutSegment>, i: int) -> bool {
    spec_end(segs[i]) != segs[i + 1].start_lba
}

/// The segments tile the disk exactly: they start at LBA 0, none is empty or runs
/// past the disk, each starts where the previous ends, and the last ends at the
/// disk's end. An empty disk has no segments.
pub open spec fn spec_complete(total: u64, segs: Seq<DiskLayoutSegment>) -> bool {
    if total == 0 {
        segs.len() == 0
    } else {
        &&& segs.len() > 0
        &&& segs[0].start_lba == 0
        &&& forall|i: int| 0 <= i < segs.len() ==> !spec_seg_bad(total, #[trigger] segs[i])
        &&& forall|i: int| 0 <= i < segs.len() - 1 ==> !#[trigger] spec_pair_broken(segs, i)
        &&& spec_end(segs.last()) == total
    }
}

pub open spec fn spec_first_bad(total: u64, segs: Seq<DiskLayoutSegment>) -> int {
    choose|i: int|
        0 <= i < segs.len() && spec_seg_bad(total, #[trigger] segs[i]) && forall|j: int|
            0 <= j < i ==> !spec_seg_bad(total, #[trigger] segs[j])
}

pub open spec fn spec_first_broken(segs: Seq<DiskLayoutSegment>) -> int {
    choose|i: int|
        0 <= i < segs.len() - 1 && #[trigger] spec_pair_broken(segs, i) && forall|j: int|
            0 <= j < i ==> !#[trigger] spec_pair_broken(segs, j)
}

/// The message for the first check that an incomplete layout fails.
pub open spec fn spec_validate_error(total: u64, segs: Seq<DiskLayoutSegment>) -> Seq<char> {
    if total == 0 {
        "zero-sector disk layout must not contain segments"@
    } else if segs.len() == 0 {
        "non-empty disk has no layout segments"@
    } else if segs[0].start_lba != 0 {
        "disk layout starts at LBA"@ + spec_decimal(segs[0].start_lba as nat) + " instead of LBA0"@
    } else if exists|i: int| 0 <= i < segs.len() && spec_seg_bad(total, #[trigger] segs[i]) {
        let s = segs[spec_first_bad(total, segs)];
        if s.sector_count == 0 {
            s.label@ + " has zero sectors"@
        } else if !spec_end_fits(s) {
            s.label@ + " LBA range overflows"@
        } else {
            s.label@ + " exceeds physical disk"@
        }
    } else if exists|i: int| 0 <= i < segs.len() - 1 && #[trigger] spec_pair_broken(segs, i) {
        let i = spec_first_broken(segs);
        let left_end = spec_end(segs[i]);
        let next = segs[i + 1].start_lba;
        if left_end < next {
            "disk layout hole ["@ + spec_decimal(left_end as nat) + ".."@ + spec_decimal(next as nat)
                + ")"@
        } else {
            "disk layout overlap at LBA"@ + spec_decimal(next as nat)
        }
    } else {
        "disk layout ends at LBA"@ + spec_decimal(spec_end(segs.last()) as nat) + " instead of "@
            + spec_decimal(total as nat)
    }
}

// ----- legend -----

/// `num / den` rounded to the nearest integer, ties to even.
pub open spec fn spec_round_half_even(num: nat, den: nat) -> nat {
    let q = num / den;
    let r = num % den;
    if 2 * r > den || (2 * r == den && q % 2 == 1) {
        q + 1
    } else {
        q
    }
}

/// A segment's share of the disk as a percentage with two decimals, `<0.01%` for
/// a non-empty share below that.
pub open spec fn spec_percent_text(count: u64, total: u64) -> Seq<char> {
    if total == 0 {
        "0.00%"@
    } else if count > 0 && count * 10000 < total {
        "<0.01%"@
    } else {
        let h = spec_round_half_even((count * 10000) as nat, total as nat);
        spec_decimal(h / 100) + "."@ + seq![
            crate::text::spec_digit_char((h % 100) / 10),
            crate::text::spec_digit_char(h % 10),
        ] + "%"@
    }
}

/// `whole.ff%`: a whole number, a dot, two fraction digits and a percent sign.
pub open spec fn spec_fixed_two(whole: nat, frac: nat) -> Seq<char> {
    spec_decimal(whole) + "."@ + seq![
        crate::text::spec_digit_char(frac / 10),
        crate::text::spec_digit_char(frac % 10),
    ] + "%"@
}

/// What a percentage reads: `0.00%` on a disk without sectors; for a disk with sectors, `<0.01%` exactly when a non-empty
/// share is below one ten-thousandth of the disk; every other share reads as
/// `whole.ff%`, whose value in hundredths of a percent is within half a hundredth of
/// `count * 100 / total` percent.
pub proof fn lemma_percent_text_meaning(count: u64, total: u64)
    ensures
        total == 0 ==> spec_percent_text(count, total) == "0.00%"@,
        total > 0 ==> ((spec_percent_text(count, total) == "<0.01%"@) <==> (count > 0 && count * 10000
            < total)),
        total > 0 && !(count > 0 && count * 10000 < total) ==> exists|whole: nat, frac: nat|
            #![trigger spec_fixed_two(whole, frac)]
            frac < 100 && spec_percent_text(count, total) == spec_fixed_two(whole, frac) && 2 * ((whole
                * 100 + frac) * total) <= 2 * (count * 10000) + total && 2 * (count * 10000) <= 2 * ((
            whole * 100 + frac) * total) + total,
{
    reveal_strlit("<0.01%");
    if total > 0 && !(count > 0 && count * 10000 < total) {
        let num: nat = (count * 10000) as nat;
        let den: nat = total as nat;
        let h = spec_round_half_even(num, den);
        let q = num / den;
        let r = num % den;
        vstd::arithmetic::div_mod::lemma_fundamental_div_mod(num as int, den as int);
        assert(num == den * q + r);
        assert(r < den);
        assert(2 * (h * den) <= 2 * num + den && 2 * num <= 2 * (h * den) + den) by (nonlinear_arith)
            requires
                num == den * q + r,
                r < den,
                h == (if 2 * r > den || (2 * r == den && q % 2 == 1) { q + 1 } else { q }),
        ;
        let whole = h / 100;
        let frac = h % 100;
        assert(whole * 100 + frac == h);
        assert(spec_percent_text(count, total) == spec_fixed_two(whole, frac));
        crate::text::lemma_decimal_digits(whole);
        assert(spec_fixed_two(whole, frac)[0] == spec_decimal(whole)[0]);
        assert(spec_fixed_two(whole, frac)[0] != '<');
        assert(spec_percent_text(count, total) != "<0.01%"@);
    }
}

/// `label [first..last] · N sectors · P%`.
pub open spec fn spec_legend_line(s: DiskLayoutSegment, total: u64) -> Seq<char> {
    s.label@ + " "@ + spec_closed_range(s) + " · "@ + spec_decimal(s.sector_count as nat)
        + " sectors · "@ + spec_percent_text(s.sector_count, total)
}

fn digit(d: u128) -> (c: char)
    requires
        d < 10,
    ensures
        c == crate::text::spec_digit_char(d as nat),
{
    ((48 + d) as u8) as char
}

pub fn percent_text(count: u64, total: u64) -> (r: String)
    ensures
        r@ == spec_percent_text(count, total),
{
    if total == 0 {
        return String::from_str("0.00%");
    }
    let num: u128 = (count as u128) * 10000;
    if count > 0 && num < total as u128 {
        return String::from_str("<0.01%");
    }
    let den = total as u128;
    let q = num / den;
    let rem = num % den;
    let h: u128 = if 2 * rem > den || (2 * rem == den && q % 2 == 1) {
        q + 1
    } else {
        q
    };
    let whole = crate::text::u128_decimal(h / 100);
    let mut s = concat(whole.as_str(), ".");
    crate::text::string_push(&mut s, digit((h % 100) / 10));
    crate::text::string_push(&mut s, digit(h % 10));
    let r = concat(s.as_str(), "%");
    proof {
        assert(h == spec_round_half_even((count * 10000) as nat, total as nat));
        assert(r@ =~= spec_percent_text(count, total));
    }
    r
}

impl DiskLayoutModel {
    /// A model whose segments are sorted by start LBA (equal starts keep their order).
    pub fn new(total_sectors: u64, segments: Vec<DiskLayoutSegment>) -> (r: Self)
        ensures
            r.total_sectors == total_sectors,
            r.segments@ == spec_stable_sort(segments@),
            spec_starts_sorted(r.segments@),
    {
        DiskLayoutModel { total_sectors, segments: stable_sort_segments(segments) }
    }

    /// Ok exactly when the segments tile the disk; else the first failing check.
    pub fn validate_complete(&self) -> (r: Result<(), String>)
        ensures
            r is Ok <==> spec_complete(self.total_sectors, self.segments@),
            r matches Err(e) ==> e@ == spec_validate_error(self.total_sectors, self.segments@),
    {
        let segs = &self.segments;
        let total = self.total_sectors;
        if total == 0 {
            return if segs.len() == 0 {
                Ok(())
            } else {
                Err(String::from_str("zero-sector disk layout must not contain segments"))
            };
        }
        if segs.len() == 0 {
            return Err(String::from_str("non-empty disk has no layout segments"));
        }
        if segs[0].start_lba != 0 {
            let a = u64_decimal(segs[0].start_lba);
            let m = concat("disk layout starts at LBA", a.as_str());
            let m = concat(m.as_str(), " instead of LBA0");
            proof {
                assert(m@ =~= spec_validate_error(total, segs@));
            }
            return Err(m);
        }
        let mut i: usize = 0;
        while i < segs.len()
            invariant
                i <= segs@.len(),
                total == self.total_sectors,
                *segs == self.segments,
                total > 0,
                segs@.len() > 0,
                segs@[0].start_lba == 0,
                forall|j: int| 0 <= j < i ==> !spec_seg_bad(total, #[trigger] segs@[j]),
            decreases segs@.len() - i,
        {
            let s = &segs[i];
            let bad = if s.sector_count == 0 {
                Some(concat(s.label.as_str(), " has zero sectors"))
            } else {
                match s.end_exclusive() {
                    Err(e) => Some(e),
                    Ok(end) => if end > total {
                        Some(concat(s.label.as_str(), " exceeds physical disk"))
                    } else {
                        None
                    },
                }
            };
            if let Some(m) = bad {
                proof {
                    let f = spec_first_bad(total, segs@);
                    assert(spec_seg_bad(total, segs@[i as int]));
                    if f < i {
                        assert(!spec_seg_bad(total, segs@[f]));
                    } else if i < f {
                        assert(!spec_seg_bad(total, segs@[i as int]));
                    }
                }
                return Err(m);
            }
            i = i + 1;
        }
        let mut k: usize = 0;
        let n = segs.len();
        while k < n - 1
            invariant
                k < segs@.len(),
                n == segs@.len(),
                total == self.total_sectors,
                *segs == self.segments,
                total > 0,
                segs@.len() > 0,
                segs@[0].start_lba == 0,
                forall|j: int| 0 <= j < segs@.len() ==> !spec_seg_bad(total, #[trigger] segs@[j]),
                forall|j: int| 0 <= j < k ==> !#[trigger] spec_pair_broken(segs@, j),
            decreases segs@.len() - k,
        {
            assert(!spec_seg_bad(total, segs@[k as int]));
            let left_end = segs[k].start_lba + segs[k].sector_count;
            let next = segs[k + 1].start_lba;
            if left_end != next {
                let m = if left_end < next {
                    let a = u64_decimal(left_end);
                    let b = u64_decimal(next);
                    let m = concat("disk layout hole [", a.as_str());
                    let m = concat(m.as_str(), "..");
                    let m = concat(m.as_str(), b.as_str());
                    concat(m.as_str(), ")")
                } else {
                    let b = u64_decimal(next);
                    concat("disk layout overlap at LBA", b.as_str())
                };
                proof {
                    assert(spec_pair_broken(segs@, k as int));
                    let f = spec_first_broken(segs@);
                    if f < k {
                        assert(!spec_pair_broken(segs@, f));
                    } else if k < f {
                        assert(!spec_pair_broken(segs@, k as int));
                    }
                    assert(!(exists|i: int| 0 <= i < segs@.len() && spec_seg_bad(total, #[trigger] segs@[i])));
                    assert(m@ =~= spec_validate_error(total, segs@));
                }
                return Err(m);
            }
            k = k + 1;
        }
        let last = &segs[segs.len() - 1];
        assert(!spec_seg_bad(total, segs@[segs@.len() - 1]));
        let end = last.start_lba + last.sector_count;
        if end != total {
            let a = u64_decimal(end);
            let b = u64_decimal(total);
            let m = concat("disk layout ends at LBA", a.as_str());
            let m = concat(m.as_str(), " instead of ");
            let m = concat(m.as_str(), b.as_str());
            proof {
                assert(!(exists|i: int| 0 <= i < segs@.len() && spec_seg_bad(total, #[trigger] segs@[i])));
                assert(!(exists|i: int| 0 <= i < segs@.len() - 1 && #[trigger] spec_pair_broken(segs@, i)));
                assert(m@ =~= spec_validate_error(total, segs@));
            }
            return Err(m);
        }
        Ok(())
    }

    /// Lines the layout pane shows: an optional summary, the bar, a blank line and
    /// one legend line per segment, then a blank line and the details.
    pub fn pane_line_count(&self, summary: &str, details: &[String]) -> (r: usize)
        requires
            self.segments@.len() + details@.len() + 4 <= usize::MAX,
        ensures
            r == (if summary@.len() > 0 {
                1int
            } else {
                0int
            }) + 1 + (if self.segments@.len() > 0 {
                1int
            } else {
                0int
            }) + self.segments@.len() + (if details@.len() > 0 {
                1int
            } else {
                0int
            }) + details@.len(),
    {
        let mut n: usize = if summary.unicode_len() > 0 {
            1
        } else {
            0
        };
        n = n + 1;
        if self.segments.len() > 0 {
            n = n + 1;
        }
        n = n + self.segments.len();
        if details.len() > 0 {
            n = n + 1;
        }
        n + details.len()
    }

    /// One legend line per segment.
    pub fn legend_lines(&self) -> (r: Vec<String>)
        ensures
            r@.len() == self.segments@.len(),
            forall|i: int|
                0 <= i < r@.len() ==> (#[trigger] r@[i])@ == spec_legend_line(
                    self.segments@[i],
                    self.total_sectors,
                ),
    {
        let mut out: Vec<String> = Vec::new();
        let mut i: usize = 0;
        while i < self.segments.len()
            invariant
                i <= self.segments@.len(),
                out@.len() == i,
                forall|j: int|
                    0 <= j < i ==> (#[trigger] out@[j])@ == spec_legend_line(
                        self.segments@[j],
                        self.total_sectors,
                    ),
            decreases self.segments@.len() - i,
        {
            let s = &self.segments[i];
            let range = s.closed_range();
            let count = u64_decimal(s.sector_count);
            let pct = percent_text(s.sector_count, self.total_sectors);
            let l = concat(s.label.as_str(), " ");
            let l = concat(l.as_str(), range.as_str());
            let l = concat(l.as_str(), " · ");
            let l = concat(l.as_str(), count.as_str());
            let l = concat(l.as_str(), " sectors · ");
            let l = concat(l.as_str(), pct.as_str());
            proof {
                assert(l@ =~= spec_legend_line(self.segments@[i as int], self.total_sectors));
            }
            out.push(l);
            i = i + 1;
        }
        out
    }
}

// ----- building a layout from overlapping claims -----

/// A claim names at least one sector and its end does not overflow.
pub open spec fn spec_claim_valid(c: DiskLayoutSegment) -> bool {
    c.sector_count > 0 && spec_end_fits(c)
}

/// The claim spans all of `[lo, hi)`.
pub open spec fn spec_claim_covers(c: DiskLayoutSegment, lo: int, hi: int) -> bool {
    spec_claim_valid(c) && c.start_lba <= lo && spec_end(c) >= hi
}

/// Among the first `m` claims spanning `[lo, hi)`, the last one of highest priority.
pub open spec fn spec_scan_best(claims: Seq<DiskLayoutSegment>, lo: int, hi: int, m: int) -> Option<int>
    decreases m,
{
    if m <= 0 {
        None
    } else {
        let b = spec_scan_best(claims, lo, hi, m - 1);
        if spec_claim_covers(claims[m - 1], lo, hi) && (b is None || spec_priority(claims[m - 1].kind)
            >= spec_priority(claims[b->Some_0].kind)) {
            Some(m - 1)
        } else {
            b
        }
    }
}

/// The claim that owns sector `x`: the last one of highest priority containing it.
#[verifier::opaque]
pub open spec fn spec_owner(claims: Seq<DiskLayoutSegment>, x: int) -> Option<int> {
    spec_scan_best(claims, x, x + 1, claims.len() as int)
}

/// Segment `s` shows what owns sector `x`: the owning claim's kind and label, or
/// the default kind under its own label where no claim does.
pub open spec fn spec_shows_owner(
    s: DiskLayoutSegment,
    claims: Seq<DiskLayoutSegment>,
    default_kind: DiskRegionKind,
    x: int,
) -> bool {
    spec_owner_is(s.kind, s.label@, claims, default_kind, x)
}

/// `kind` and `label` are those of the owner of sector `x`.
pub open spec fn spec_owner_is(
    kind: DiskRegionKind,
    label: Seq<char>,
    claims: Seq<DiskLayoutSegment>,
    default_kind: DiskRegionKind,
    x: int,
) -> bool {
    match spec_owner(claims, x) {
        Some(i) => kind == claims[i].kind && label == claims[i].label@,
        None => kind == default_kind && label == spec_region_label(default_kind),
    }
}

/// The points where the owner of a sector may change: the disk's ends and every
/// claim's start and (clipped) end inside the disk.
pub open spec fn spec_cut_point(claims: Seq<DiskLayoutSegment>, total: u64, y: u64) -> bool {
    y == 0 || y == total || exists|i: int|
        0 <= i < claims.len() && claims[i].sector_count > 0 && claims[i].start_lba < total && (y
            == claims[i].start_lba || y == spec_clipped_end(#[trigger] claims[i], total))
}

pub open spec fn spec_clipped_end(c: DiskLayoutSegment, total: u64) -> u64 {
    if spec_end_fits(c) && spec_end(c) < total {
        spec_end(c) as u64
    } else {
        total
    }
}

pub open spec fn spec_strictly_increasing(v: Seq<u64>) -> bool {
    forall|i: int, j: int| 0 <= i < j < v.len() ==> v[i] < v[j]
}

proof fn lemma_insert_contains(s: Seq<u64>, k: int, x: u64)
    requires
        0 <= k <= s.len(),
    ensures
        forall|y: u64| #[trigger] s.insert(k, x).contains(y) <==> (s.contains(y) || y == x),
{
    let t = s.insert(k, x);
    assert forall|y: u64| #[trigger] t.contains(y) <==> (s.contains(y) || y == x) by {
        if t.contains(y) {
            let j = choose|j: int| 0 <= j < t.len() && t[j] == y;
            if j < k {
                assert(s[j] == y);
            } else if j > k {
                assert(s[j - 1] == y);
            }
        }
        if s.contains(y) {
            let j = choose|j: int| 0 <= j < s.len() && s[j] == y;
            if j < k {
                assert(t[j] == y);
            } else {
                assert(t[j + 1] == y);
            }
        }
        if y == x {
            assert(t[k] == y);
        }
    }
}

fn insert_unique_sorted(v: &mut Vec<u64>, x: u64)
    requires
        spec_strictly_increasing(old(v)@),
    ensures
        spec_strictly_increasing(final(v)@),
        forall|y: u64| final(v)@.contains(y) <==> (old(v)@.contains(y) || y == x),
{
    let mut k: usize = 0;
    while k < v.len() && v[k] < x
        invariant
            k <= v@.len(),
            forall|j: int| 0 <= j < k ==> v@[j] < x,
        decreases v@.len() - k,
    {
        k = k + 1;
    }
    if k < v.len() && v[k] == x {
        proof {
            assert(v@[k as int] == x);
            assert forall|y: u64| v@.contains(y) <==> (v@.contains(y) || y == x) by {}
        }
        return;
    }
    let ghost before = v@;
    v.insert(k, x);
    proof {
        assert forall|a: int, b: int| 0 <= a < b < v@.len() implies v@[a] < v@[b] by {
            if b < k {
            } else if b == k {
            } else if a < k {
                assert(v@[b] == before[b - 1]);
                assert(before[k as int] >= x);
                if b - 1 > k {
                    assert(before[k as int] < before[b - 1]);
                }
            } else if a == k {
                assert(v@[b] == before[b - 1]);
                assert(before[k as int] > x);
                if b - 1 > k {
                    assert(before[k as int] < before[b - 1]);
                }
            } else {
                assert(v@[a] == before[a - 1] && v@[b] == before[b - 1]);
            }
        }
        lemma_insert_contains(before, k as int, x);
    }
}

/// Where no cut point lies strictly inside `[lo, hi)`, a claim spans the whole
/// interval exactly when it contains any one sector of it.
proof fn lemma_covers_interval(
    claims: Seq<DiskLayoutSegment>,
    total: u64,
    cuts: Seq<u64>,
    p: int,
    x: int,
    i: int,
)
    requires
        spec_strictly_increasing(cuts),
        0 <= p < cuts.len() - 1,
        cuts[p + 1] <= total,
        forall|y: u64| spec_cut_point(claims, total, y) ==> cuts.contains(y),
        cuts[p] <= x < cuts[p + 1],
        0 <= i < claims.len(),
    ensures
        spec_claim_covers(claims[i], cuts[p] as int, cuts[p + 1] as int) == spec_claim_covers(
            claims[i],
            x,
            x + 1,
        ),
{
    let c = claims[i];
    let lo = cuts[p] as int;
    let hi = cuts[p + 1] as int;
    if spec_claim_covers(c, x, x + 1) {
        assert(c.start_lba < total);
        assert(spec_cut_point(claims, total, c.start_lba));
        assert(cuts.contains(c.start_lba));
        let q = choose|q: int| 0 <= q < cuts.len() && cuts[q] == c.start_lba;
        if q > p {
            if q > p + 1 {
                assert(cuts[p + 1] < cuts[q]);
            }
        }
        let e = spec_clipped_end(c, total);
        assert(spec_cut_point(claims, total, e));
        assert(cuts.contains(e));
        let r = choose|r: int| 0 <= r < cuts.len() && cuts[r] == e;
        if r <= p {
            if r < p {
                assert(cuts[r] < cuts[p]);
            }
        }
    }
}

proof fn lemma_scan_same(
    claims: Seq<DiskLayoutSegment>,
    lo: int,
    hi: int,
    x: int,
    m: int,
)
    requires
        0 <= m <= claims.len(),
        forall|i: int|
            0 <= i < claims.len() ==> spec_claim_covers(#[trigger] claims[i], lo, hi) == spec_claim_covers(
                claims[i],
                x,
                x + 1,
            ),
    ensures
        spec_scan_best(claims, lo, hi, m) == spec_scan_best(claims, x, x + 1, m),
    decreases m,
{
    if m > 0 {
        lemma_scan_same(claims, lo, hi, x, m - 1);
    }
}

proof fn lemma_scan_best_range(claims: Seq<DiskLayoutSegment>, lo: int, hi: int, m: int)
    ensures
        spec_scan_best(claims, lo, hi, m) matches Some(i) ==> 0 <= i < m && spec_claim_covers(
            claims[i],
            lo,
            hi,
        ),
    decreases m,
{
    if m > 0 {
        lemma_scan_best_range(claims, lo, hi, m - 1);
    }
}

/// The layout built from claims: what `from_claims` promises.
pub open spec fn spec_layout_of_claims(
    total: u64,
    claims: Seq<DiskLayoutSegment>,
    default_kind: DiskRegionKind,
    segs: Seq<DiskLayoutSegment>,
) -> bool {
    &&& spec_complete(total, segs)
    &&& forall|k: int, x: int|
        0 <= k < segs.len() && segs[k].start_lba <= x < spec_end(segs[k]) ==> #[trigger] spec_shows_owner(segs[k],
            claims,
            default_kind,
            x,
        )
    &&& forall|k: int|
        0 <= k < segs.len() - 1 ==> !#[trigger] spec_pair_same(segs, k)
}

impl DiskLayoutModel {
    /// Build a complete layout from possibly overlapping claims: every sector shows
    /// the last claim of highest priority that contains it (or `default_kind` where
    /// none does), and neighbouring sectors with the same owner share one segment.
    pub fn from_claims(
        total_sectors: u64,
        claims: Vec<DiskLayoutSegment>,
        default_kind: DiskRegionKind,
    ) -> (r: Self)
        ensures
            r.total_sectors == total_sectors,
            spec_layout_of_claims(total_sectors, claims@, default_kind, r.segments@),
    {
        let total = total_sectors;
        if total == 0 {
            let r = Self::new(0, Vec::new());
            assert(r.segments@.len() == 0) by {
                assert(spec_stable_sort(Seq::<DiskLayoutSegment>::empty()) =~= Seq::<DiskLayoutSegment>::empty());
            }
            return r;
        }
        let cuts = cut_points(&claims, total);
        let mut segs: Vec<DiskLayoutSegment> = Vec::new();
        let mut p: usize = 0;
        let ncuts = cuts.len();
        proof {
            reveal(spec_layout_prefix);
        }
        while p + 1 < ncuts
            invariant
                ncuts == cuts@.len(),
                ncuts >= 2,
                p + 1 <= ncuts,
                total > 0,
                spec_strictly_increasing(cuts@),
                cuts@[0] == 0,
                cuts@[ncuts - 1] == total,
                forall|y: u64| spec_cut_point(claims@, total, y) ==> cuts@.contains(y),
                spec_layout_prefix(segs@, total, cuts@[p as int], claims@, default_kind),
            decreases ncuts - p,
        {
            let start = cuts[p];
            let end = cuts[p + 1];
            proof {
                assert(cuts@[p as int] < cuts@[p + 1]);
                if p + 1 < ncuts - 1 {
                    assert(cuts@[p + 1] < cuts@[ncuts - 1]);
                }
                lemma_interval_owner(claims@, total, cuts@, p as int);
            }
            let best = best_claim(&claims, start, end);
            proof {
                lemma_scan_best_range(claims@, start as int, end as int, claims@.len() as int);
            }
            let kind = match best {
                Some(b) => claims[b].kind,
                None => default_kind,
            };
            let label = match best {
                Some(b) => claims[b].label.clone(),
                None => String::from_str(default_kind.label()),
            };
            proof {
                let sb = spec_scan_best(claims@, start as int, end as int, claims@.len() as int);
                match sb {
                    Some(b) => {
                        assert(best == Some(b as usize));
                        assert(kind == claims@[b].kind && label@ == claims@[b].label@);
                    },
                    None => {
                        assert(best is None);
                        assert(kind == default_kind && label@ == spec_region_label(default_kind));
                    },
                }
                assert forall|x: int| start <= x < end implies #[trigger] spec_owner_is(
                    kind,
                    label@,
                    claims@,
                    default_kind,
                    x,
                ) by {
                    assert(spec_owner(claims@, x) == sb);
                }
            }
            extend_layout(&mut segs, start, end, kind, label, Ghost(claims@), Ghost(default_kind), Ghost(total));
            p = p + 1;
        }
        proof {
            assert(p == ncuts - 1);
            reveal(spec_layout_prefix);
        }
        proof {
            assert(spec_starts_sorted(segs@)) by {
                assert forall|a: int, b: int| 0 <= a <= b < segs@.len() implies (#[trigger] segs@[a]).start_lba <= (#[trigger] segs@[b]).start_lba by {
                    lemma_tiles_ordered(segs@, a, b);
                }
            }
            lemma_stable_sort_of_sorted(segs@);
        }
        Self::new(total, segs)
    }
}

proof fn lemma_tiles_ordered(segs: Seq<DiskLayoutSegment>, a: int, b: int)
    requires
        0 <= a <= b < segs.len(),
        forall|k: int| 0 <= k < segs.len() - 1 ==> !#[trigger] spec_pair_broken(segs, k),
        forall|k: int| 0 <= k < segs.len() ==> (#[trigger] segs[k]).sector_count > 0,
    ensures
        segs[a].start_lba <= segs[b].start_lba,
    decreases b - a,
{
    if a < b {
        lemma_tiles_ordered(segs, a, b - 1);
        assert(!spec_pair_broken(segs, b - 1));
        assert(segs[b - 1].sector_count > 0);
    }
}

/// Whether two strings have the same characters.
fn str_eq_view(a: &str, b: &str) -> (r: bool)
    ensures
        r == (a@ == b@),
{
    crate::text::str_eq(a, b)
}


/// The sorted, distinct cut points of the claims on a disk of `total` sectors.
fn cut_points(claims: &Vec<DiskLayoutSegment>, total: u64) -> (cuts: Vec<u64>)
    requires
        total > 0,
    ensures
        cuts@.len() >= 2,
        spec_strictly_increasing(cuts@),
        cuts@[0] == 0,
        cuts@[cuts@.len() - 1] == total,
        forall|y: u64| spec_cut_point(claims@, total, y) ==> cuts@.contains(y),
{
    let mut cuts: Vec<u64> = Vec::new();
    cuts.push(0);
    cuts.push(total);
    assert(cuts@[0] == 0u64 && cuts@[1] == total);
    assert(cuts@.contains(0u64));
    assert(cuts@.contains(total));
    assert forall|y: u64| cuts@.contains(y) implies spec_cut_point(claims@, total, y) && y <= total by {
        let q = choose|q: int| 0 <= q < cuts@.len() && cuts@[q] == y;
    }
    let mut i: usize = 0;
    while i < claims.len()
        invariant
            i <= claims@.len(),
            total > 0,
            spec_strictly_increasing(cuts@),
            forall|y: u64| cuts@.contains(y) ==> spec_cut_point(claims@, total, y),
            cuts@.contains(0u64),
            cuts@.contains(total),
            forall|y: u64| cuts@.contains(y) ==> y <= total,
            forall|j: int|
                0 <= j < i && claims@[j].sector_count > 0 && claims@[j].start_lba < total ==> cuts@.contains(
                    (#[trigger] claims@[j]).start_lba,
                ) && cuts@.contains(spec_clipped_end(claims@[j], total)),
        decreases claims@.len() - i,
    {
        let c = &claims[i];
        if c.sector_count > 0 && c.start_lba < total {
            insert_unique_sorted(&mut cuts, c.start_lba);
            let end = match c.end_exclusive() {
                Ok(e) => if e < total {
                    e
                } else {
                    total
                },
                Err(_) => total,
            };
            insert_unique_sorted(&mut cuts, end);
            proof {
                assert(end == spec_clipped_end(claims@[i as int], total));
            }
        }
        i = i + 1;
    }
    proof {
        assert forall|y: u64| spec_cut_point(claims@, total, y) implies cuts@.contains(y) by {
            if y != 0 && y != total {
                let j = choose|j: int|
                    0 <= j < claims@.len() && claims@[j].sector_count > 0 && claims@[j].start_lba
                        < total && (y == claims@[j].start_lba || y == spec_clipped_end(
                        #[trigger] claims@[j],
                        total,
                    ));
            }
        }
        let q0 = choose|q: int| 0 <= q < cuts@.len() && cuts@[q] == 0u64;
        if q0 > 0 {
            assert(cuts@[0] < cuts@[q0]);
        }
        let qt = choose|q: int| 0 <= q < cuts@.len() && cuts@[q] == total;
        if qt < cuts@.len() - 1 {
            assert(cuts@[qt] < cuts@[cuts@.len() - 1]);
            assert(cuts@.contains(cuts@[cuts@.len() - 1]));
        }
        assert(cuts@[0] == 0);
        assert(cuts@[cuts@.len() - 1] == total);
    }
    proof {
        if cuts@.len() < 2 {
            assert(cuts@[0] == cuts@[cuts@.len() - 1]);
        }
    }
    cuts
}

/// The segments tile `[0, upto)` of a disk of `total` sectors, each showing the
/// owner of its sectors, with no two neighbours showing the same owner.
#[verifier::opaque]
pub open spec fn spec_layout_prefix(
    segs: Seq<DiskLayoutSegment>,
    total: u64,
    upto: u64,
    claims: Seq<DiskLayoutSegment>,
    default_kind: DiskRegionKind,
) -> bool {
    &&& upto == 0 ==> segs.len() == 0
    &&& upto > 0 ==> segs.len() > 0 && segs[0].start_lba == 0 && spec_end(segs.last()) == upto
    &&& forall|k: int| 0 <= k < segs.len() ==> !spec_seg_bad(total, #[trigger] segs[k])
    &&& forall|k: int| 0 <= k < segs.len() ==> spec_end(#[trigger] segs[k]) <= upto
    &&& forall|k: int| 0 <= k < segs.len() - 1 ==> !#[trigger] spec_pair_broken(segs, k)
    &&& forall|k: int, x: int|
        0 <= k < segs.len() && segs[k].start_lba <= x < spec_end(segs[k]) ==> #[trigger] spec_shows_owner(
            segs[k],
            claims,
            default_kind,
            x,
        )
    &&& forall|k: int|
        0 <= k < segs.len() - 1 ==> !#[trigger] spec_pair_same(segs, k)
}

/// Index of the last claim of highest priority spanning `[lo, hi)`.
fn best_claim(claims: &Vec<DiskLayoutSegment>, lo: u64, hi: u64) -> (r: Option<usize>)
    ensures
        r == match spec_scan_best(claims@, lo as int, hi as int, claims@.len() as int) {
            Some(b) => Some(b as usize),
            None => None::<usize>,
        },
{
    let mut best: Option<usize> = None;
    let mut j: usize = 0;
    while j < claims.len()
        invariant
            j <= claims@.len(),
            best matches Some(b) ==> b < j,
            best == match spec_scan_best(claims@, lo as int, hi as int, j as int) {
                Some(b) => Some(b as usize),
                None => None::<usize>,
            },
        decreases claims@.len() - j,
    {
        proof {
            lemma_scan_best_range(claims@, lo as int, hi as int, j as int);
        }
        let c = &claims[j];
        let covers = c.sector_count > 0 && c.start_lba <= lo && match c.end_exclusive() {
            Ok(e) => e >= hi,
            Err(_) => false,
        };
        if covers {
            let better = match best {
                None => true,
                Some(b) => c.kind.priority() >= claims[b].kind.priority(),
            };
            if better {
                best = Some(j);
            }
        }
        j = j + 1;
    }
    best
}

/// Every sector between two neighbouring cut points has the same owner.
proof fn lemma_interval_owner(claims: Seq<DiskLayoutSegment>, total: u64, cuts: Seq<u64>, p: int)
    requires
        spec_strictly_increasing(cuts),
        0 <= p < cuts.len() - 1,
        cuts[p + 1] <= total,
        forall|y: u64| spec_cut_point(claims, total, y) ==> cuts.contains(y),
    ensures
        forall|x: int|
            cuts[p] <= x < cuts[p + 1] ==> #[trigger] spec_owner(claims, x) == spec_scan_best(
                claims,
                cuts[p] as int,
                cuts[p + 1] as int,
                claims.len() as int,
            ),
{
    reveal(spec_owner);
    assert forall|x: int| cuts[p] <= x < cuts[p + 1] implies #[trigger] spec_owner(claims, x)
        == spec_scan_best(claims, cuts[p] as int, cuts[p + 1] as int, claims.len() as int) by {
        assert forall|i: int| 0 <= i < claims.len() implies spec_claim_covers(
            #[trigger] claims[i],
            cuts[p] as int,
            cuts[p + 1] as int,
        ) == spec_claim_covers(claims[i], x, x + 1) by {
            lemma_covers_interval(claims, total, cuts, p, x, i);
        }
        lemma_scan_same(claims, cuts[p] as int, cuts[p + 1] as int, x, claims.len() as int);
    }
}

proof fn lemma_prefix_last_end(
    segs: Seq<DiskLayoutSegment>,
    total: u64,
    upto: u64,
    claims: Seq<DiskLayoutSegment>,
    default_kind: DiskRegionKind,
)
    requires
        spec_layout_prefix(segs, total, upto, claims, default_kind),
    ensures
        segs.len() > 0 ==> spec_end(segs.last()) == upto && spec_end_fits(segs.last()),
{
    reveal(spec_layout_prefix);
    if segs.len() > 0 {
        assert(!spec_seg_bad(total, segs[segs.len() - 1]));
    }
}

/// Append `[start, end)` with the given owner, merging it into the last segment
/// when that shows the same owner and ends at `start`.
fn extend_layout(
    segs: &mut Vec<DiskLayoutSegment>,
    start: u64,
    end: u64,
    kind: DiskRegionKind,
    label: String,
    Ghost(claims): Ghost<Seq<DiskLayoutSegment>>,
    Ghost(default_kind): Ghost<DiskRegionKind>,
    Ghost(total): Ghost<u64>,
)
    requires
        spec_layout_prefix(old(segs)@, total, start, claims, default_kind),
        start < end <= total,
        forall|x: int| start <= x < end ==> #[trigger] spec_owner_is(kind, label@, claims, default_kind, x),
    ensures
        spec_layout_prefix(final(segs)@, total, end, claims, default_kind),
{
    let n = segs.len();
    let merge = if n > 0 {
        let last = &segs[n - 1];
        last.kind == kind && str_eq_view(last.label.as_str(), label.as_str()) && match last.end_exclusive() {
            Ok(e) => e == start,
            Err(_) => false,
        }
    } else {
        false
    };
    proof {
        lemma_prefix_last_end(segs@, total, start, claims, default_kind);
    }
    if merge {
        extend_merge(segs, start, end, Ghost(kind), Ghost(label@), Ghost(claims), Ghost(default_kind), Ghost(total));
    } else {
        extend_push(segs, start, end, kind, label, Ghost(claims), Ghost(default_kind), Ghost(total));
    }
}

fn extend_merge(
    segs: &mut Vec<DiskLayoutSegment>,
    start: u64,
    end: u64,
    Ghost(kind): Ghost<DiskRegionKind>,
    Ghost(label): Ghost<Seq<char>>,
    Ghost(claims): Ghost<Seq<DiskLayoutSegment>>,
    Ghost(default_kind): Ghost<DiskRegionKind>,
    Ghost(total): Ghost<u64>,
)
    requires
        spec_layout_prefix(old(segs)@, total, start, claims, default_kind),
        start < end <= total,
        old(segs)@.len() > 0,
        old(segs)@.last().kind == kind,
        old(segs)@.last().label@ == label,
        forall|x: int| start <= x < end ==> #[trigger] spec_owner_is(kind, label, claims, default_kind, x),
    ensures
        spec_layout_prefix(final(segs)@, total, end, claims, default_kind),
{
    let ghost before = segs@;
    proof {
        lemma_prefix_last_end(before, total, start, claims, default_kind);
    }
    let mut last = segs.pop().unwrap();
    last.sector_count = last.sector_count + (end - start);
    segs.push(last);
    proof {
        assert(segs@ =~= before.drop_last().push(last));
        lemma_prefix_merge(before, last, total, start, end, kind, label, claims, default_kind);
    }
}

proof fn lemma_prefix_merge(
    before: Seq<DiskLayoutSegment>,
    last: DiskLayoutSegment,
    total: u64,
    start: u64,
    end: u64,
    kind: DiskRegionKind,
    label: Seq<char>,
    claims: Seq<DiskLayoutSegment>,
    default_kind: DiskRegionKind,
)
    requires
        spec_layout_prefix(before, total, start, claims, default_kind),
        start < end <= total,
        before.len() > 0,
        before.last().kind == kind,
        before.last().label@ == label,
        last == (DiskLayoutSegment { sector_count: (before.last().sector_count + (end - start)) as u64, ..before.last() }),
        forall|x: int| start <= x < end ==> #[trigger] spec_owner_is(kind, label, claims, default_kind, x),
    ensures
        spec_layout_prefix(before.drop_last().push(last), total, end, claims, default_kind),
{
    reveal(spec_layout_prefix);
    let after = before.drop_last().push(last);
    let k = before.len() - 1;
    let old_last = before.last();
    assert(!spec_seg_bad(total, before[k]));
    assert forall|kk: int| 0 <= kk < k implies after[kk] == before[kk] by {}
    assert forall|kk: int, x: int|
        0 <= kk < after.len() && after[kk].start_lba <= x < spec_end(after[kk]) implies #[trigger] spec_shows_owner(
        after[kk],
        claims,
        default_kind,
        x,
    ) by {
        if kk == k && x >= start {
            assert(spec_owner_is(kind, label, claims, default_kind, x));
        } else {
            assert(spec_shows_owner(before[kk], claims, default_kind, x));
        }
    }
    assert forall|kk: int| 0 <= kk < after.len() - 1 implies !#[trigger] spec_pair_broken(after, kk) by {
        assert(!spec_pair_broken(before, kk));
    }
    assert forall|kk: int|
        0 <= kk < after.len() - 1 implies !#[trigger] spec_pair_same(after, kk) by {
        assert(before[kk + 1].kind == after[kk + 1].kind);
        assert(before[kk + 1].label == after[kk + 1].label);
        assert(!spec_pair_same(before, kk));
    }
    assert forall|kk: int| 0 <= kk < after.len() implies !spec_seg_bad(total, #[trigger] after[kk]) by {
        if kk < k {
            assert(!spec_seg_bad(total, before[kk]));
        }
    }
    assert forall|kk: int| 0 <= kk < after.len() implies spec_end(#[trigger] after[kk]) <= end by {
        if kk < k {
            assert(spec_end(before[kk]) <= start);
        }
    }
}

fn extend_push(
    segs: &mut Vec<DiskLayoutSegment>,
    start: u64,
    end: u64,
    kind: DiskRegionKind,
    label: String,
    Ghost(claims): Ghost<Seq<DiskLayoutSegment>>,
    Ghost(default_kind): Ghost<DiskRegionKind>,
    Ghost(total): Ghost<u64>,
)
    requires
        spec_layout_prefix(old(segs)@, total, start, claims, default_kind),
        start < end <= total,
        old(segs)@.len() > 0 ==> !(old(segs)@.last().kind == kind && old(segs)@.last().label@ == label@),
        forall|x: int| start <= x < end ==> #[trigger] spec_owner_is(kind, label@, claims, default_kind, x),
    ensures
        spec_layout_prefix(final(segs)@, total, end, claims, default_kind),
{
    let ghost before = segs@;
    let seg = DiskLayoutSegment { label, start_lba: start, sector_count: end - start, kind };
    segs.push(seg);
    proof {
        lemma_prefix_push(before, seg, total, start, end, claims, default_kind);
    }
}

proof fn lemma_prefix_push(
    before: Seq<DiskLayoutSegment>,
    seg: DiskLayoutSegment,
    total: u64,
    start: u64,
    end: u64,
    claims: Seq<DiskLayoutSegment>,
    default_kind: DiskRegionKind,
)
    requires
        spec_layout_prefix(before, total, start, claims, default_kind),
        start < end <= total,
        seg.start_lba == start,
        seg.sector_count == end - start,
        before.len() > 0 ==> !(before.last().kind == seg.kind && before.last().label@ == seg.label@),
        forall|x: int| start <= x < end ==> #[trigger] spec_owner_is(seg.kind, seg.label@, claims, default_kind, x),
    ensures
        spec_layout_prefix(before.push(seg), total, end, claims, default_kind),
{
    reveal(spec_layout_prefix);
    let after = before.push(seg);
    let k = before.len() as int;
    assert forall|kk: int| 0 <= kk < k implies after[kk] == before[kk] by {}
    assert forall|kk: int| 0 <= kk < after.len() - 1 implies !#[trigger] spec_pair_broken(after, kk) by {
        if kk < k - 1 {
            assert(!spec_pair_broken(before, kk));
        }
    }
    assert forall|kk: int, x: int|
        0 <= kk < after.len() && after[kk].start_lba <= x < spec_end(after[kk]) implies #[trigger] spec_shows_owner(
        after[kk],
        claims,
        default_kind,
        x,
    ) by {
        if kk < k {
            assert(spec_shows_owner(before[kk], claims, default_kind, x));
        } else {
            assert(spec_owner_is(seg.kind, seg.label@, claims, default_kind, x));
        }
    }
    assert forall|kk: int|
        0 <= kk < after.len() - 1 implies !#[trigger] spec_pair_same(after, kk) by {
        if kk < k - 1 {
            assert(!spec_pair_same(before, kk));
        }
    }
    assert forall|kk: int| 0 <= kk < after.len() implies !spec_seg_bad(total, #[trigger] after[kk]) by {
        if kk < k {
            assert(!spec_seg_bad(total, before[kk]));
        }
    }
    assert forall|kk: int| 0 <= kk < after.len() implies spec_end(#[trigger] after[kk]) <= end by {
        if kk < k {
            assert(spec_end(before[kk]) <= start);
        }
    }
}

} // verus!
