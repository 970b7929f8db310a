//! Capacities typed into the Provision form: decimal MiB/GiB figures turned into
//! sector counts (rounded to the nearest sector), sector counts shown back with three
//! decimals, and the character rules each kind of form field accepts.

use vstd::prelude::*;
use crate::text::{
    chars_of, concat, is_control, lemma_decimal_digits, lemma_digits_value_mono, spec_all_digits, spec_decimal,
    spec_digit_char, spec_digits_value, spec_is_ascii_digit, spec_is_control, spec_trim, str_eq,
    string_push, trim_str, u128_decimal, u64_decimal,
};

verus! {

/// Sectors in one MiB and in one GiB.
pub const SECTORS_PER_MIB: u64 = 2_048;
pub const SECTORS_PER_GIB: u64 = 2_097_152;

/// The unit a quick capacity is typed in.
#[derive(Debug, Clone, Copy, PartialEq, Eq, Structural)]
pub enum QuickCapacityUnit {
    MiB,
    GiB,
}

pub open spec fn spec_unit_sectors(u: QuickCapacityUnit) -> u64 {
    match u {
        QuickCapacityUnit::MiB => SECTORS_PER_MIB,
        QuickCapacityUnit::GiB => SECTORS_PER_GIB,
    }
}

pub open spec fn spec_unit_name(u: QuickCapacityUnit) -> Seq<char> {
    match u {
        QuickCapacityUnit::MiB => "MiB"@,
        QuickCapacityUnit::GiB => "GiB"@,
    }
}

/// Three decimal digits, zero padded.
pub open spec fn spec_three_digits(x: nat) -> Seq<char> {
    seq![spec_digit_char((x / 100) % 10), spec_digit_char((x / 10) % 10), spec_digit_char(x % 10)]
}

/// `sectors` in units of `per_unit` sectors, rounded half up to three decimals.
pub open spec fn spec_format_unit_3(sectors: u64, per_unit: u64) -> Seq<char> {
    let scaled = ((sectors as nat) * 1000 + (per_unit as nat) / 2) / (per_unit as nat);
    spec_decimal(scaled / 1000) + "."@ + spec_three_digits(scaled % 1000)
}

fn digit(d: u128) -> (c: char)
    requires
        d < 10,
    ensures
        c == spec_digit_char(d as nat),
{
    ((48 + d) as u8) as char
}

pub fn format_sector_unit_3(sectors: u64, sectors_per_unit: u64) -> (r: String)
    requires
        sectors_per_unit > 0,
    ensures
        r@ == spec_format_unit_3(sectors, sectors_per_unit),
{
    let scaled: u128 = ((sectors as u128) * 1000 + (sectors_per_unit as u128 / 2)) / sectors_per_unit as u128;
    let whole = u128_decimal(scaled / 1000);
    let mut s = concat(whole.as_str(), ".");
    let frac = scaled % 1000;
    string_push(&mut s, digit((frac / 100) % 10));
    string_push(&mut s, digit((frac / 10) % 10));
    string_push(&mut s, digit(frac % 10));
    proof {
        reveal_strlit(".");
        assert(s@ =~= spec_format_unit_3(sectors, sectors_per_unit));
    }
    s
}

/// Position of the first `.`, if any.
pub open spec fn spec_first_dot(s: Seq<char>) -> Option<int> {
    if exists|i: int| 0 <= i < s.len() && s[i] == '.' {
        Some(choose|i: int| 0 <= i < s.len() && s[i] == '.' && forall|j: int| 0 <= j < i ==> s[j] != '.')
    } else {
        None
    }
}

pub open spec fn spec_pow10(n: nat) -> nat
    decreases n,
{
    if n == 0 {
        1
    } else {
        10 * spec_pow10((n - 1) as nat)
    }
}

pub open spec fn spec_capacity_error(label: Seq<char>, unit: Seq<char>, what: Seq<char>) -> Seq<char> {
    label + " "@ + unit + " "@ + what
}

/// A decimal figure in units of `per_unit` sectors, converted to the nearest whole
/// sector (halves round up): it must be a positive number with at most 21
/// decimals, and the result must fit in 64 bits.
pub open spec fn spec_parse_unit(value: Seq<char>, per_unit: u64, unit: Seq<char>, label: Seq<char>) -> Result<u64, Seq<char>> {
    let t = spec_trim(value);
    let (whole, frac) = match spec_first_dot(t) {
        Some(i) => (t.take(i), t.skip(i + 1)),
        None => (t, Seq::empty()),
    };
    if t.len() == 0 {
        Err(spec_capacity_error(label, unit, "不能为空"@))
    } else if whole.len() == 0 || !spec_all_digits(whole) || !spec_all_digits(frac) || frac.len() > 21 {
        Err(spec_capacity_error(label, unit, "必须是正数，最多 21 位小数"@))
    } else if spec_digits_value(whole) > u128::MAX {
        Err(spec_capacity_error(label, unit, "数值无效"@))
    } else {
        let den = spec_pow10(frac.len());
        let num = spec_digits_value(whole) * den + spec_digits_value(frac);
        if num > u128::MAX {
            Err(spec_capacity_error(label, unit, "容量溢出"@))
        } else if num == 0 {
            Err(spec_capacity_error(label, unit, "必须大于 0"@))
        } else if num * (per_unit as nat) > u128::MAX {
            Err(spec_capacity_error(label, unit, "容量溢出"@))
        } else {
            let scaled = num * (per_unit as nat);
            let rounded = scaled / den + if 2 * (scaled % den) >= den {
                1nat
            } else {
                0nat
            };
            if rounded > u64::MAX {
                Err(spec_capacity_error(label, unit, "容量溢出"@))
            } else {
                Ok(rounded as u64)
            }
        }
    }
}

proof fn lemma_pow10_mono(n: nat, m: nat)
    requires
        n <= m,
    ensures
        1 <= spec_pow10(n) <= spec_pow10(m),
    decreases m,
{
    if m > n {
        lemma_pow10_mono(n, (m - 1) as nat);
    } else if n > 0 {
        lemma_pow10_mono((n - 1) as nat, (n - 1) as nat);
    }
}

proof fn lemma_pow10_bound(n: nat)
    ensures
        spec_pow10(n) >= 1,
        n <= 21 ==> spec_pow10(n) <= 1_000_000_000_000_000_000_000,
{
    if n <= 21 {
        lemma_pow10_mono(n, 21);
        assert(spec_pow10(21) == 1_000_000_000_000_000_000_000) by {
            reveal_with_fuel(spec_pow10, 22);
        }
    } else {
        lemma_pow10_mono(0, n);
    }
}

proof fn lemma_digits_below_pow10(s: Seq<char>)
    requires
        spec_all_digits(s),
    ensures
        spec_digits_value(s) < spec_pow10(s.len()),
    decreases s.len(),
{
    if s.len() > 0 {
        let d = s.drop_last();
        assert(spec_all_digits(d));
        lemma_digits_below_pow10(d);
        assert(spec_is_ascii_digit(s.last()));
    }
}

/// The value of the decimal digits `v[from..to]`, or `None` past `u128::MAX`.
fn digits_u128(v: &Vec<char>, from: usize, to: usize) -> (r: Option<u128>)
    requires
        from <= to <= v@.len(),
        spec_all_digits(v@.subrange(from as int, to as int)),
    ensures
        spec_digits_value(v@.subrange(from as int, to as int)) <= u128::MAX ==> r == Some(
            spec_digits_value(v@.subrange(from as int, to as int)) as u128,
        ),
        spec_digits_value(v@.subrange(from as int, to as int)) > u128::MAX ==> r is None,
{
    let ghost body = v@.subrange(from as int, to as int);
    let mut value: u128 = 0;
    let mut i = from;
    while i < to
        invariant
            from <= i <= to <= v@.len(),
            body == v@.subrange(from as int, to as int),
            spec_all_digits(body),
            value == spec_digits_value(v@.subrange(from as int, i as int)),
        decreases to - i,
    {
        assert(body[i - from] == v@[i as int]);
        let c = v[i];
        let d: u128 = ((c as u32) - 48) as u128;
        proof {
            assert(v@.subrange(from as int, i + 1).drop_last() =~= v@.subrange(from as int, i as int));
        }
        let next = match value.checked_mul(10) {
            Some(m) => m.checked_add(d),
            None => None,
        };
        match next {
            Some(n) => {
                value = n;
            },
            None => {
                proof {
                    assert(v@.subrange(from as int, i + 1) =~= body.take(i + 1 - from));
                    lemma_digits_value_mono(body, i + 1 - from);
                }
                return None;
            },
        }
        i = i + 1;
    }
    Some(value)
}

fn all_digits_in(v: &Vec<char>, from: usize, to: usize) -> (r: bool)
    requires
        from <= to <= v@.len(),
    ensures
        r == spec_all_digits(v@.subrange(from as int, to as int)),
{
    let mut i = from;
    while i < to
        invariant
            from <= i <= to <= v@.len(),
            forall|k: int| from <= k < i ==> spec_is_ascii_digit(#[trigger] v@[k]),
        decreases to - i,
    {
        if !('0' <= v[i] && v[i] <= '9') {
            assert(v@.subrange(from as int, to as int)[i - from] == v@[i as int]);
            return false;
        }
        i = i + 1;
    }
    assert forall|k: int| 0 <= k < to - from implies spec_is_ascii_digit(
        #[trigger] v@.subrange(from as int, to as int)[k],
    ) by {
        assert(v@.subrange(from as int, to as int)[k] == v@[from + k]);
    }
    true
}

fn capacity_error(label: &str, unit: &str, what: &str) -> (r: String)
    ensures
        r@ == spec_capacity_error(label@, unit@, what@),
{
    let a = concat(label, " ");
    let b = concat(a.as_str(), unit);
    let c = concat(b.as_str(), " ");
    concat(c.as_str(), what)
}

/// Convert a decimal figure in units of `sectors_per_unit` sectors to sectors.
pub fn parse_decimal_unit_to_sectors_rounded(
    value: &str,
    sectors_per_unit: u64,
    unit_name: &str,
    label: &str,
) -> (r: Result<u64, String>)
    ensures
        match spec_parse_unit(value@, sectors_per_unit, unit_name@, label@) {
            Ok(n) => r == Ok::<u64, String>(n),
            Err(e) => r matches Err(m) && m@ == e,
        },
{
    let trimmed = trim_str(value);
    let t = chars_of(trimmed.as_str());
    let ghost tv = t@;
    assert(tv == spec_trim(value@));
    if t.len() == 0 {
        return Err(capacity_error(label, unit_name, "不能为空"));
    }
    let mut dot: usize = 0;
    while dot < t.len() && t[dot] != '.'
        invariant
            dot <= t@.len(),
            forall|j: int| 0 <= j < dot ==> t@[j] != '.',
        decreases t@.len() - dot,
    {
        dot = dot + 1;
    }
    let has_dot = dot < t.len();
    let frac_start: usize = if has_dot {
        dot + 1
    } else {
        t.len()
    };
    proof {
        if has_dot {
            let f = choose|i: int| 0 <= i < tv.len() && tv[i] == '.' && forall|j: int| 0 <= j < i ==> tv[j] != '.';
            if f < dot {
            } else if dot < f {
                assert(tv[dot as int] != '.');
            }
            assert(spec_first_dot(tv) == Some(dot as int));
        } else {
            assert(spec_first_dot(tv) is None);
        }
    }
    let ghost whole = v_take(tv, dot as int);
    let ghost frac = tv.subrange(frac_start as int, tv.len() as int);
    assert(whole =~= tv.subrange(0, dot as int));
    proof {
        if has_dot {
            assert(tv.take(dot as int) =~= whole);
            assert(tv.skip(dot + 1) =~= frac);
        } else {
            assert(tv =~= whole);
            assert(frac =~= Seq::<char>::empty());
        }
    }
    if dot == 0 || !all_digits_in(&t, 0, dot) || !all_digits_in(&t, frac_start, t.len()) || t.len()
        - frac_start > 21 {
        return Err(capacity_error(label, unit_name, "必须是正数，最多 21 位小数"));
    }
    let flen = t.len() - frac_start;
    let mut den: u128 = 1;
    let mut k: usize = 0;
    while k < flen
        invariant
            k <= flen <= 21,
            den == spec_pow10(k as nat),
        decreases flen - k,
    {
        proof {
            lemma_pow10_bound(k as nat);
        }
        den = den * 10;
        k = k + 1;
    }
    proof {
        lemma_pow10_bound(flen as nat);
    }
    let w = match digits_u128(&t, 0, dot) {
        Some(w) => w,
        None => return Err(capacity_error(label, unit_name, "数值无效")),
    };
    let f = match digits_u128(&t, frac_start, t.len()) {
        Some(f) => f,
        None => {
            proof {
                lemma_digits_below_pow10(frac);
            }
            return Err(capacity_error(label, unit_name, "数值无效"));
        },
    };
    proof {
        lemma_digits_below_pow10(frac);
    }
    let numerator = match w.checked_mul(den) {
        Some(m) => match m.checked_add(f) {
            Some(n) => n,
            None => return Err(capacity_error(label, unit_name, "容量溢出")),
        },
        None => {
            proof {
                assert((w as nat) * den + f > u128::MAX) by (nonlinear_arith)
                    requires
                        (w as nat) * den > u128::MAX,
                ;
            }
            return Err(capacity_error(label, unit_name, "容量溢出"));
        },
    };
    if numerator == 0 {
        return Err(capacity_error(label, unit_name, "必须大于 0"));
    }
    let scaled = match numerator.checked_mul(sectors_per_unit as u128) {
        Some(s) => s,
        None => return Err(capacity_error(label, unit_name, "容量溢出")),
    };
    let quotient = scaled / den;
    let remainder = scaled % den;
    proof {
        if den == 1 {
            assert(remainder == 0);
        } else {
            assert(den >= 2);
            assert(quotient <= scaled / 2) by (nonlinear_arith)
                requires
                    den >= 2,
                    quotient == scaled / den,
            ;
        }
    }
    let rounded: u128 = quotient + if remainder * 2 >= den {
        1
    } else {
        0
    };
    if rounded > u64::MAX as u128 {
        return Err(capacity_error(label, unit_name, "容量溢出"));
    }
    Ok(rounded as u64)
}

pub open spec fn v_take(s: Seq<char>, n: int) -> Seq<char> {
    s.subrange(0, n)
}

/// A MiB figure in sectors.
pub fn parse_mib_to_sectors(value: &str, label: &str) -> (r: Result<u64, String>)
    ensures
        match spec_parse_unit(value@, SECTORS_PER_MIB, "MiB"@, label@) {
            Ok(n) => r == Ok::<u64, String>(n),
            Err(e) => r matches Err(m) && m@ == e,
        },
{
    parse_decimal_unit_to_sectors_rounded(value, SECTORS_PER_MIB, "MiB", label)
}

/// A GiB figure in sectors.
pub fn parse_gib_to_sectors(value: &str, label: &str) -> (r: Result<u64, String>)
    ensures
        match spec_parse_unit(value@, SECTORS_PER_GIB, "GiB"@, label@) {
            Ok(n) => r == Ok::<u64, String>(n),
            Err(e) => r matches Err(m) && m@ == e,
        },
{
    parse_decimal_unit_to_sectors_rounded(value, SECTORS_PER_GIB, "GiB", label)
}


/// A run of decimal digits whose value is at most `max`.
pub open spec fn spec_digits_upto(body: Seq<char>, max: nat) -> Option<nat> {
    if body.len() > 0 && spec_all_digits(body) && spec_digits_value(body) <= max {
        Some(spec_digits_value(body))
    } else {
        None
    }
}

/// What `str::parse` accepts for an unsigned type whose largest value is `max`:
/// an optional `+`, then one or more digits, with a value that fits.
pub open spec fn spec_parse_unsigned(s: Seq<char>, max: nat) -> Option<nat> {
    if s.len() > 0 && s[0] == '+' {
        spec_digits_upto(s.drop_first(), max)
    } else {
        spec_digits_upto(s, max)
    }
}

/// What `str::parse::<i32>` accepts: an optional sign, then one or more digits, with a
/// value in the range of `i32`.
pub open spec fn spec_parse_i32(s: Seq<char>) -> Option<int> {
    if s.len() > 0 && s[0] == '-' {
        match spec_digits_upto(s.drop_first(), 0x8000_0000) {
            Some(v) => Some(-v),
            None => None,
        }
    } else {
        match spec_parse_unsigned(s, 0x7fff_ffff) {
            Some(v) => Some(v as int),
            None => None,
        }
    }
}

/// The digits `v[start..]` as a number of at most `max`.
fn digits_upto(v: &Vec<char>, start: usize, max: u128) -> (r: Option<u128>)
    requires
        start <= v@.len(),
    ensures
        match spec_digits_upto(v@.skip(start as int), max as nat) {
            Some(n) => r == Some(n as u128),
            None => r is None,
        },
{
    let ghost body = v@.skip(start as int);
    assert(body =~= v@.subrange(start as int, v@.len() as int));
    if start >= v.len() {
        return None;
    }
    if !all_digits_in(v, start, v.len()) {
        return None;
    }
    match digits_u128(v, start, v.len()) {
        Some(x) => {
            if x <= max {
                Some(x)
            } else {
                None
            }
        },
        None => None,
    }
}

/// Offset past an optional leading `+`.
fn plus_offset(v: &Vec<char>) -> (k: usize)
    ensures
        k == (if v@.len() > 0 && v@[0] == '+' {
            1usize
        } else {
            0usize
        }),
{
    if v.len() > 0 && v[0] == '+' {
        1
    } else {
        0
    }
}

/// `str::parse::<u64>`.
pub fn parse_u64(s: &str) -> (r: Option<u64>)
    ensures
        match spec_parse_unsigned(s@, u64::MAX as nat) {
            Some(n) => r == Some(n as u64),
            None => r is None,
        },
{
    let v = chars_of(s);
    let k = plus_offset(&v);
    assert(k == 1 ==> v@.skip(1) =~= v@.drop_first());
    assert(v@.skip(0) =~= v@);
    match digits_upto(&v, k, u64::MAX as u128) {
        Some(x) => Some(x as u64),
        None => None,
    }
}

/// Whether `str::parse::<u8>`, `str::parse::<u32>` or `str::parse::<i32>` would
/// succeed, given the largest accepted magnitude for each sign.
fn parses_signed(s: &str, max_pos: u128, max_neg: u128) -> (r: bool)
    ensures
        r == (if s@.len() > 0 && s@[0] == '-' {
            spec_digits_upto(s@.drop_first(), max_neg as nat) is Some
        } else {
            spec_parse_unsigned(s@, max_pos as nat) is Some
        }),
{
    let v = chars_of(s);
    if v.len() > 0 && v[0] == '-' {
        assert(v@.skip(1) =~= v@.drop_first());
        return digits_upto(&v, 1, max_neg).is_some();
    }
    let k = plus_offset(&v);
    assert(k == 1 ==> v@.skip(1) =~= v@.drop_first());
    assert(v@.skip(0) =~= v@);
    digits_upto(&v, k, max_pos).is_some()
}

/// The sector count of a quick capacity field. When the exact sector field holds a
/// whole number, the capacity was not edited by hand, and the quick field still shows
/// that count as it would be displayed, the exact count is kept; otherwise the quick
/// figure is converted.
pub open spec fn spec_resolve_quick(
    quick: Seq<char>,
    exact: Seq<char>,
    unit: QuickCapacityUnit,
    edited: bool,
    label: Seq<char>,
) -> Result<u64, Seq<char>> {
    match spec_parse_unsigned(exact, u64::MAX as nat) {
        Some(n) if !edited && quick == spec_format_unit_3(n as u64, spec_unit_sectors(unit)) => Ok(
            n as u64,
        ),
        _ => spec_parse_unit(quick, spec_unit_sectors(unit), spec_unit_name(unit), label),
    }
}

pub fn resolve_quick_sectors(
    quick: &str,
    exact: &str,
    unit: QuickCapacityUnit,
    edited: bool,
    label: &str,
) -> (r: Result<u64, String>)
    ensures
        match spec_resolve_quick(quick@, exact@, unit, edited, label@) {
            Ok(n) => r == Ok::<u64, String>(n),
            Err(e) => r matches Err(m) && m@ == e,
        },
{
    proof {
        reveal_strlit("MiB");
        reveal_strlit("GiB");
    }
    if !edited {
        if let Some(sectors) = parse_u64(exact) {
            let generated = match unit {
                QuickCapacityUnit::MiB => format_sector_unit_3(sectors, SECTORS_PER_MIB),
                QuickCapacityUnit::GiB => format_sector_unit_3(sectors, SECTORS_PER_GIB),
            };
            if str_eq(quick, generated.as_str()) {
                return Ok(sectors);
            }
        }
    }
    match unit {
        QuickCapacityUnit::MiB => parse_mib_to_sectors(quick, label),
        QuickCapacityUnit::GiB => parse_gib_to_sectors(quick, label),
    }
}

/// Which characters a Provision form field lets the user type.
#[derive(Debug, Clone, Copy, PartialEq, Eq, Structural)]
pub enum ProvisionInputPolicy {
    DecimalCapacity,
    UnsignedInteger,
    U8,
    OnlyId,
    Text,
}

/// Whether a candidate field value is acceptable under a policy: capacities are digits
/// with at most one dot; integers are digits only; a `u8` field takes digits of value at
/// most 255; a label identifier is `-` alone or an `i32` or `u32`; text takes anything
/// but control characters.
pub open spec fn spec_accepts(policy: ProvisionInputPolicy, s: Seq<char>) -> bool {
    match policy {
        ProvisionInputPolicy::DecimalCapacity => {
            &&& forall|i: int| 0 <= i < s.len() ==> spec_is_ascii_digit(#[trigger] s[i]) || s[i] == '.'
            &&& forall|i: int, j: int| 0 <= i < j < s.len() ==> !(#[trigger] s[i] == '.' && #[trigger] s[j] == '.')
        },
        ProvisionInputPolicy::UnsignedInteger => spec_all_digits(s),
        ProvisionInputPolicy::U8 => spec_all_digits(s) && spec_digits_upto(s, 255) is Some,
        ProvisionInputPolicy::OnlyId => {
            ||| s == "-"@
            ||| spec_parse_i32(s) is Some
            ||| spec_parse_unsigned(s, u32::MAX as nat) is Some
        },
        ProvisionInputPolicy::Text => forall|i: int| 0 <= i < s.len() ==> !spec_is_control(#[trigger] s[i]),
    }
}

pub open spec fn spec_rejection_message(policy: ProvisionInputPolicy) -> Seq<char> {
    match policy {
        ProvisionInputPolicy::DecimalCapacity => "容量只允许输入数字和一个小数点"@,
        ProvisionInputPolicy::UnsignedInteger => "当前字段仅允许输入整数"@,
        ProvisionInputPolicy::U8 => "该字段仅允许 0–255"@,
        ProvisionInputPolicy::OnlyId => "标签标识仅允许 u32 或 i32 整数"@,
        ProvisionInputPolicy::Text => "当前字段包含不支持的字符"@,
    }
}

impl ProvisionInputPolicy {
    pub fn accepts(self, candidate: &str) -> (r: bool)
        ensures
            r == spec_accepts(self, candidate@),
    {
        let v = chars_of(candidate);
        match self {
            ProvisionInputPolicy::DecimalCapacity => {
                let mut seen_dot = false;
                let mut i: usize = 0;
                while i < v.len()
                    invariant
                        i <= v@.len(),
                        v@ == candidate@,
                        self == ProvisionInputPolicy::DecimalCapacity,
                        forall|k: int| 0 <= k < i ==> spec_is_ascii_digit(#[trigger] v@[k]) || v@[k] == '.',
                        forall|a: int, b: int| 0 <= a < b < i ==> !(#[trigger] v@[a] == '.' && #[trigger] v@[b] == '.'),
                        seen_dot == (exists|k: int| 0 <= k < i && #[trigger] v@[k] == '.'),
                    decreases v@.len() - i,
                {
                    let c = v[i];
                    if !(('0' <= c && c <= '9') || c == '.') {
                        assert(!(spec_is_ascii_digit(candidate@[i as int]) || candidate@[i as int] == '.'));
                        return false;
                    }
                    if c == '.' {
                        if seen_dot {
                            let ghost a = choose|k: int| 0 <= k < i && #[trigger] v@[k] == '.';
                            assert(candidate@[a] == '.' && candidate@[i as int] == '.');
                            return false;
                        }
                        seen_dot = true;
                    }
                    i = i + 1;
                }
                true
            },
            ProvisionInputPolicy::UnsignedInteger => all_digits_in(&v, 0, v.len()) && {
                assert(v@.subrange(0, v@.len() as int) =~= v@);
                true
            },
            ProvisionInputPolicy::U8 => {
                assert(v@.subrange(0, v@.len() as int) =~= v@);
                assert(v@.skip(0) =~= v@);
                all_digits_in(&v, 0, v.len()) && digits_upto(&v, 0, 255).is_some()
            },
            ProvisionInputPolicy::OnlyId => {
                proof {
                    reveal_strlit("-");
                }
                str_eq(candidate, "-") || parses_signed(candidate, 0x7fff_ffff, 0x8000_0000) || (
                !(v.len() > 0 && v[0] == '-') && parses_signed(candidate, 0xffff_ffff, 0))
            },
            ProvisionInputPolicy::Text => {
                let mut i: usize = 0;
                while i < v.len()
                    invariant
                        i <= v@.len(),
                        v@ == candidate@,
                        self == ProvisionInputPolicy::Text,
                        forall|k: int| 0 <= k < i ==> !spec_is_control(#[trigger] v@[k]),
                    decreases v@.len() - i,
                {
                    if is_control(v[i]) {
                        assert(spec_is_control(candidate@[i as int]));
                        return false;
                    }
                    i = i + 1;
                }
                true
            },
        }
    }

    pub fn rejection_message(self) -> (r: &'static str)
        ensures
            r@ == spec_rejection_message(self),
    {
        match self {
            ProvisionInputPolicy::DecimalCapacity => "容量只允许输入数字和一个小数点",
            ProvisionInputPolicy::UnsignedInteger => "当前字段仅允许输入整数",
            ProvisionInputPolicy::U8 => "该字段仅允许 0–255",
            ProvisionInputPolicy::OnlyId => "标签标识仅允许 u32 或 i32 整数",
            ProvisionInputPolicy::Text => "当前字段包含不支持的字符",
        }
    }
}

/// A quick capacity field still showing the generated figure for an exact sector
/// count that was not edited resolves to exactly that count.
pub proof fn lemma_untouched_quick_keeps_exact(sectors: u64, unit: QuickCapacityUnit, label: Seq<char>)
    ensures
        spec_resolve_quick(
            spec_format_unit_3(sectors, spec_unit_sectors(unit)),
            spec_decimal(sectors as nat),
            unit,
            false,
            label,
        ) == Ok::<u64, Seq<char>>(sectors),
{
    lemma_decimal_digits(sectors as nat);
    let s = spec_decimal(sectors as nat);
    assert(spec_is_ascii_digit(s[0]));
    assert(spec_parse_unsigned(s, u64::MAX as nat) == Some(sectors as nat));
}

/// Once the capacity was edited by hand, the exact sector field plays no part: the
/// quick figure alone decides the sector count.
pub proof fn lemma_edited_quick_ignores_exact(
    quick: Seq<char>,
    exact_a: Seq<char>,
    exact_b: Seq<char>,
    unit: QuickCapacityUnit,
    label: Seq<char>,
)
    ensures
        spec_resolve_quick(quick, exact_a, unit, true, label) == spec_resolve_quick(
            quick,
            exact_b,
            unit,
            true,
            label,
        ),
        spec_resolve_quick(quick, exact_a, unit, true, label) == spec_parse_unit(
            quick,
            spec_unit_sectors(unit),
            spec_unit_name(unit),
            label,
        ),
{
}

/// A whole number of units converts to exactly that many units of sectors.
pub proof fn lemma_whole_units_are_exact(count: u64, per_unit: u64, unit: Seq<char>, label: Seq<char>)
    requires
        count >= 1,
        count * per_unit <= u64::MAX,
    ensures
        spec_parse_unit(spec_decimal(count as nat), per_unit, unit, label) == Ok::<u64, Seq<char>>(
            (count * per_unit) as u64,
        ),
{
    let s = spec_decimal(count as nat);
    lemma_decimal_digits(count as nat);
    assert(spec_is_ascii_digit(s[0]));
    assert(spec_is_ascii_digit(s.last()));
    assert(crate::text::spec_lead_ws(s) == 0);
    assert(crate::text::spec_trail_ws(s) == 0);
    assert(spec_trim(s) =~= s);
    assert(!(exists|i: int| 0 <= i < s.len() && s[i] == '.')) by {
        assert forall|i: int| 0 <= i < s.len() implies s[i] != '.' by {
            assert(spec_is_ascii_digit(s[i]));
        }
    }
    assert(spec_first_dot(s) is None);
    let empty = Seq::<char>::empty();
    assert(spec_all_digits(empty));
    assert(spec_digits_value(empty) == 0);
    assert(spec_pow10(0) == 1);
    let t = spec_trim(spec_decimal(count as nat));
    assert(t == s);
    let num = spec_digits_value(s) * spec_pow10(0) + spec_digits_value(empty);
    assert(num == count as nat);
    assert(num <= u128::MAX);
    assert(num * (per_unit as nat) == (count as nat) * (per_unit as nat));
    let scaled = num * (per_unit as nat);
    assert(scaled <= u64::MAX);
    assert(scaled / 1 == scaled && scaled % 1 == 0) by (nonlinear_arith);
    assert(scaled / spec_pow10(0) == scaled);
    assert(scaled % spec_pow10(0) == 0);
}

/// How a capacity is being typed: as an exact sector count, or as a decimal figure in
/// a quick unit.
#[derive(Debug, Clone, Copy, PartialEq, Eq, Structural)]
pub enum CapacityInputMode {
    Exact,
    Quick,
}

/// One capacity of a Provision form: how it is typed, the quick figure and unit, the
/// exact sector count, and whether the quick figure was edited by hand since it was
/// generated from the exact count.
#[derive(Debug, Clone)]
pub struct CapacityField {
    pub input_mode: CapacityInputMode,
    pub quick_unit: QuickCapacityUnit,
    pub quick: String,
    pub exact: String,
    pub edited: bool,
}

/// The sector count a capacity field stands for: in exact mode a whole number above
/// zero; in quick mode the quick figure (or the exact count it still shows).
pub open spec fn spec_field_sectors(f: CapacityField, label: Seq<char>) -> Result<u64, Seq<char>> {
    match f.input_mode {
        CapacityInputMode::Exact => match spec_parse_unsigned(spec_trim(f.exact@), u64::MAX as nat) {
            Some(n) if n > 0 => Ok(n as u64),
            _ => Err(label + " sector 必须是大于 0 的整数"@),
        },
        CapacityInputMode::Quick => spec_resolve_quick(f.quick@, f.exact@, f.quick_unit, f.edited, label),
    }
}

/// `new` holds `sectors` exactly, shown in `unit` and `mode`, and counts as unedited.
pub open spec fn spec_field_holds(
    new: CapacityField,
    sectors: u64,
    mode: CapacityInputMode,
    unit: QuickCapacityUnit,
    quick: Seq<char>,
) -> bool {
    &&& new.input_mode == mode
    &&& new.quick_unit == unit
    &&& new.quick@ == quick
    &&& new.exact@ == spec_decimal(sectors as nat)
    &&& !new.edited
}

/// What cycling the unit of a plain partition's capacity does: exact → MiB → GiB →
/// exact, keeping the sector count.
pub open spec fn spec_cycled_unit(old: CapacityField, new: CapacityField, r: Result<(), String>) -> bool {
    match spec_field_sectors(old, "普通分区容量"@) {
        Err(e) => r matches Err(m) && m@ == e && new == old,
        Ok(n) => r is Ok && match (old.input_mode, old.quick_unit) {
            (CapacityInputMode::Exact, _) => spec_field_holds(
                new,
                n,
                CapacityInputMode::Quick,
                QuickCapacityUnit::MiB,
                spec_format_unit_3(n, SECTORS_PER_MIB),
            ),
            (CapacityInputMode::Quick, QuickCapacityUnit::MiB) => spec_field_holds(
                new,
                n,
                CapacityInputMode::Quick,
                QuickCapacityUnit::GiB,
                spec_format_unit_3(n, SECTORS_PER_GIB),
            ),
            (CapacityInputMode::Quick, QuickCapacityUnit::GiB) => spec_field_holds(
                new,
                n,
                CapacityInputMode::Exact,
                QuickCapacityUnit::GiB,
                old.quick@,
            ),
        },
    }
}

/// What toggling the input mode of a Provision capacity does: exact → MiB (from the
/// exact count as typed) → GiB → exact, keeping the sector count.
pub open spec fn spec_toggled_input(old: CapacityField, new: CapacityField, r: Result<(), String>) -> bool {
    match (old.input_mode, old.quick_unit) {
        (CapacityInputMode::Exact, _) => match spec_parse_unsigned(old.exact@, u64::MAX as nat) {
            None => r matches Err(m) && m@ == "请先输入有效的 sector 数"@ && new == old,
            Some(n) => r is Ok && new.input_mode == CapacityInputMode::Quick && new.quick_unit
                == QuickCapacityUnit::MiB && new.quick@ == spec_format_unit_3(
                n as u64,
                SECTORS_PER_MIB,
            ) && new.exact == old.exact && !new.edited,
        },
        (CapacityInputMode::Quick, unit) => match spec_resolve_quick(
            old.quick@,
            old.exact@,
            unit,
            old.edited,
            "当前容量"@,
        ) {
            Err(e) => r matches Err(m) && m@ == e && new == old,
            Ok(n) => r is Ok && if unit == QuickCapacityUnit::MiB {
                spec_field_holds(
                    new,
                    n,
                    CapacityInputMode::Quick,
                    QuickCapacityUnit::GiB,
                    spec_format_unit_3(n, SECTORS_PER_GIB),
                )
            } else {
                spec_field_holds(new, n, CapacityInputMode::Exact, QuickCapacityUnit::GiB, old.quick@)
            },
        },
    }
}

fn format_in_unit(sectors: u64, unit: QuickCapacityUnit) -> (r: String)
    ensures
        r@ == spec_format_unit_3(sectors, spec_unit_sectors(unit)),
{
    match unit {
        QuickCapacityUnit::MiB => format_sector_unit_3(sectors, SECTORS_PER_MIB),
        QuickCapacityUnit::GiB => format_sector_unit_3(sectors, SECTORS_PER_GIB),
    }
}

impl CapacityField {
    /// The sector count the field stands for.
    pub fn resolve_sectors(&self, label: &str) -> (r: Result<u64, String>)
        ensures
            match spec_field_sectors(*self, label@) {
                Ok(n) => r == Ok::<u64, String>(n),
                Err(e) => r matches Err(m) && m@ == e,
            },
    {
        match self.input_mode {
            CapacityInputMode::Exact => {
                let trimmed = trim_str(self.exact.as_str());
                match parse_u64(trimmed.as_str()) {
                    Some(n) => {
                        if n > 0 {
                            Ok(n)
                        } else {
                            Err(concat(label, " sector 必须是大于 0 的整数"))
                        }
                    },
                    None => Err(concat(label, " sector 必须是大于 0 的整数")),
                }
            },
            CapacityInputMode::Quick => resolve_quick_sectors(
                self.quick.as_str(),
                self.exact.as_str(),
                self.quick_unit,
                self.edited,
                label,
            ),
        }
    }

    /// Set an exact count, regenerating the quick figure in the current unit.
    pub fn set_sectors(&mut self, sectors: u64)
        ensures
            spec_field_holds(
                *final(self),
                sectors,
                old(self).input_mode,
                old(self).quick_unit,
                spec_format_unit_3(sectors, spec_unit_sectors(old(self).quick_unit)),
            ),
    {
        self.exact = u64_decimal(sectors);
        self.quick = format_in_unit(sectors, self.quick_unit);
        self.edited = false;
    }

    /// Note a hand edit of the quick figure (only while typing in a quick unit).
    pub fn mark_quick_edit(&mut self)
        ensures
            old(self).input_mode == CapacityInputMode::Quick ==> *final(self) == (CapacityField {
                edited: true,
                ..*old(self)
            }),
            old(self).input_mode == CapacityInputMode::Exact ==> *final(self) == *old(self),
    {
        if self.input_mode == CapacityInputMode::Quick {
            self.edited = true;
        }
    }

    /// Cycle a plain partition's capacity through exact, MiB and GiB.
    pub fn cycle_unit(&mut self) -> (r: Result<(), String>)
        ensures
            spec_cycled_unit(*old(self), *final(self), r),
    {
        let sectors = match self.resolve_sectors("普通分区容量") {
            Ok(n) => n,
            Err(e) => return Err(e),
        };
        self.exact = u64_decimal(sectors);
        match (self.input_mode, self.quick_unit) {
            (CapacityInputMode::Exact, _) => {
                self.input_mode = CapacityInputMode::Quick;
                self.quick_unit = QuickCapacityUnit::MiB;
                self.quick = format_sector_unit_3(sectors, SECTORS_PER_MIB);
            },
            (CapacityInputMode::Quick, QuickCapacityUnit::MiB) => {
                self.quick_unit = QuickCapacityUnit::GiB;
                self.quick = format_sector_unit_3(sectors, SECTORS_PER_GIB);
            },
            (CapacityInputMode::Quick, QuickCapacityUnit::GiB) => {
                self.input_mode = CapacityInputMode::Exact;
            },
        }
        self.edited = false;
        Ok(())
    }

    /// Toggle a Provision capacity between exact, MiB and GiB input.
    pub fn toggle_input(&mut self) -> (r: Result<(), String>)
        ensures
            spec_toggled_input(*old(self), *final(self), r),
    {
        match (self.input_mode, self.quick_unit) {
            (CapacityInputMode::Exact, _) => {
                let sectors = match parse_u64(self.exact.as_str()) {
                    Some(n) => n,
                    None => return Err(String::from_str("请先输入有效的 sector 数")),
                };
                self.quick = format_sector_unit_3(sectors, SECTORS_PER_MIB);
                self.input_mode = CapacityInputMode::Quick;
                self.quick_unit = QuickCapacityUnit::MiB;
            },
            (CapacityInputMode::Quick, QuickCapacityUnit::MiB) => {
                let sectors = match resolve_quick_sectors(
                    self.quick.as_str(),
                    self.exact.as_str(),
                    self.quick_unit,
                    self.edited,
                    "当前容量",
                ) {
                    Ok(n) => n,
                    Err(e) => return Err(e),
                };
                self.exact = u64_decimal(sectors);
                self.quick = format_sector_unit_3(sectors, SECTORS_PER_GIB);
                self.quick_unit = QuickCapacityUnit::GiB;
            },
            (CapacityInputMode::Quick, QuickCapacityUnit::GiB) => {
                let sectors = match resolve_quick_sectors(
                    self.quick.as_str(),
                    self.exact.as_str(),
                    self.quick_unit,
                    self.edited,
                    "当前容量",
                ) {
                    Ok(n) => n,
                    Err(e) => return Err(e),
                };
                self.exact = u64_decimal(sectors);
                self.input_mode = CapacityInputMode::Exact;
            },
        }
        self.edited = false;
        Ok(())
    }
}

/// The decimal rendering of a count reads back as that count, with or without trimming.
proof fn lemma_decimal_reads_back(n: u64)
    ensures
        spec_trim(spec_decimal(n as nat)) == spec_decimal(n as nat),
        spec_parse_unsigned(spec_decimal(n as nat), u64::MAX as nat) == Some(n as nat),
{
    let s = spec_decimal(n as nat);
    lemma_decimal_digits(n as nat);
    assert(spec_is_ascii_digit(s[0]));
    assert(spec_is_ascii_digit(s.last()));
    assert(crate::text::spec_lead_ws(s) == 0);
    assert(crate::text::spec_trail_ws(s) == 0);
    assert(spec_trim(s) =~= s);
}

/// Cycling a plain partition's capacity from exact through MiB and GiB back to exact
/// keeps its sector count, written out in full.
pub proof fn lemma_unit_cycle_keeps_sectors(
    f0: CapacityField,
    f1: CapacityField,
    f2: CapacityField,
    f3: CapacityField,
    r1: Result<(), String>,
    r2: Result<(), String>,
    r3: Result<(), String>,
)
    requires
        f0.input_mode == CapacityInputMode::Exact,
        spec_field_sectors(f0, "普通分区容量"@) is Ok,
        spec_cycled_unit(f0, f1, r1),
        spec_cycled_unit(f1, f2, r2),
        spec_cycled_unit(f2, f3, r3),
    ensures
        r1 is Ok && r2 is Ok && r3 is Ok,
        f3.input_mode == CapacityInputMode::Exact,
        f3.exact@ == spec_decimal(spec_field_sectors(f0, "普通分区容量"@)->Ok_0 as nat),
        spec_field_sectors(f3, "普通分区容量"@) == spec_field_sectors(f0, "普通分区容量"@),
{
    let label = "普通分区容量"@;
    let n = spec_field_sectors(f0, label)->Ok_0;
    lemma_untouched_quick_keeps_exact(n, QuickCapacityUnit::MiB, label);
    lemma_untouched_quick_keeps_exact(n, QuickCapacityUnit::GiB, label);
    lemma_decimal_reads_back(n);
}

/// Toggling a Provision capacity typed as an exact count through MiB and GiB back to
/// exact keeps its sector count.
pub proof fn lemma_input_toggle_keeps_sectors(
    f0: CapacityField,
    f1: CapacityField,
    f2: CapacityField,
    f3: CapacityField,
    r1: Result<(), String>,
    r2: Result<(), String>,
    r3: Result<(), String>,
)
    requires
        f0.input_mode == CapacityInputMode::Exact,
        spec_parse_unsigned(f0.exact@, u64::MAX as nat) is Some,
        spec_toggled_input(f0, f1, r1),
        spec_toggled_input(f1, f2, r2),
        spec_toggled_input(f2, f3, r3),
    ensures
        r1 is Ok && r2 is Ok && r3 is Ok,
        f3.input_mode == CapacityInputMode::Exact,
        f3.exact@ == spec_decimal(spec_parse_unsigned(f0.exact@, u64::MAX as nat)->Some_0),
{
    let n = spec_parse_unsigned(f0.exact@, u64::MAX as nat)->Some_0 as u64;
    lemma_untouched_quick_keeps_exact(n, QuickCapacityUnit::GiB, "当前容量"@);
}

} // verus!
