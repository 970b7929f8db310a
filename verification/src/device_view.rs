//! The cells of a device table row: disk name, capacity, bus, VID:PID, vendor and
//! product from the device id, onlyid, user, department and state.

use vstd::prelude::*;
use crate::state::{AppState, DeviceRow};
use crate::text::{chars_of, spec_decimal, string_from_chars, u64_decimal};

verus! {

/// The `&`-separated parts of `s`, as `split('&')` gives them.
pub open spec fn spec_parts(s: Seq<char>) -> Seq<Seq<char>>
    decreases s.len(),
{
    if s.len() == 0 {
        seq![Seq::empty()]
    } else {
        let p = spec_parts(s.drop_last());
        if s.last() == '&' {
            p.push(Seq::empty())
        } else {
            p.update(p.len() - 1, p.last().push(s.last()))
        }
    }
}

/// `part` without `prefix`, when it starts with it.
pub open spec fn spec_strip(part: Seq<char>, prefix: Seq<char>) -> Option<Seq<char>> {
    if part.len() >= prefix.len() && part.take(prefix.len() as int) == prefix {
        Some(part.skip(prefix.len() as int))
    } else {
        None
    }
}

/// The first part that starts with `prefix`, without it.
pub open spec fn spec_first_stripped(parts: Seq<Seq<char>>, prefix: Seq<char>) -> Option<Seq<char>>
    decreases parts.len(),
{
    if parts.len() == 0 {
        None
    } else {
        match spec_first_stripped(parts.drop_last(), prefix) {
            Some(x) => Some(x),
            None => spec_strip(parts.last(), prefix),
        }
    }
}

/// Vendor and product named in a device id (`ven_…&prod_…`), or a dash.
pub open spec fn spec_ven_prod(device_id: Seq<char>) -> Seq<char> {
    let parts = spec_parts(device_id);
    match (spec_first_stripped(parts, "ven_"@), spec_first_stripped(parts, "prod_"@)) {
        (Some(v), Some(p)) => v + "_"@ + p,
        (Some(v), None) => v,
        (None, Some(p)) => p,
        (None, None) => "—"@,
    }
}

pub open spec fn spec_or_dash(o: Option<String>) -> Seq<char> {
    match o {
        Some(s) => s@,
        None => "—"@,
    }
}

/// The state cell: not USB, no permission, a read error, or the disk's kind.
pub open spec fn spec_device_state(row: DeviceRow) -> Seq<char> {
    if row.proto@ != "USB"@ {
        "非 USB / 不支持"@
    } else if row.denied {
        "需要管理员权限"@
    } else {
        match row.probe_error {
            Some(e) => "读取异常: "@ + e@,
            None => row.kind_name@,
        }
    }
}

/// The row's cells, given its capacity as text.
pub open spec fn spec_device_cells(row: DeviceRow, capacity: Seq<char>) -> Seq<Seq<char>> {
    seq![
        "disk"@ + spec_decimal(row.disk as nat),
        capacity,
        row.proto@,
        row.vid@ + ":"@ + row.pid@,
        spec_ven_prod(match row.device_id { Some(d) => d@, None => Seq::empty() }),
        spec_or_dash(row.onlyid),
        spec_or_dash(row.user),
        spec_or_dash(row.dept),
        spec_device_state(row),
    ]
}

pub open spec fn spec_cell_views(v: Seq<String>) -> Seq<Seq<char>> {
    Seq::new(v.len(), |i: int| v[i]@)
}

fn starts_with(part: &Vec<char>, prefix: &Vec<char>) -> (r: bool)
    ensures
        r == (part@.len() >= prefix@.len() && part@.take(prefix@.len() as int) == prefix@),
{
    if part.len() < prefix.len() {
        return false;
    }
    let mut i: usize = 0;
    while i < prefix.len()
        invariant
            i <= prefix@.len(),
            prefix@.len() <= part@.len(),
            forall|k: int| 0 <= k < i ==> part@[k] == prefix@[k],
        decreases prefix.len() - i,
    {
        if part[i] != prefix[i] {
            assert(part@.take(prefix@.len() as int)[i as int] != prefix@[i as int]);
            return false;
        }
        i = i + 1;
    }
    assert(part@.take(prefix@.len() as int) =~= prefix@);
    true
}

fn strip(part: &Vec<char>, prefix: &Vec<char>) -> (r: Option<Vec<char>>)
    ensures
        match spec_strip(part@, prefix@) {
            Some(x) => r matches Some(v) && v@ == x,
            None => r is None,
        },
{
    if !starts_with(part, prefix) {
        return None;
    }
    let mut out: Vec<char> = Vec::new();
    let mut i: usize = prefix.len();
    while i < part.len()
        invariant
            prefix@.len() <= i <= part@.len(),
            out@ == part@.subrange(prefix@.len() as int, i as int),
        decreases part.len() - i,
    {
        out.push(part[i]);
        i = i + 1;
        assert(out@ =~= part@.subrange(prefix@.len() as int, i as int));
    }
    assert(out@ =~= part@.skip(prefix@.len() as int));
    Some(out)
}

/// Record a finished part: keep the first stripped match seen.
fn note_part(found: Option<Vec<char>>, part: &Vec<char>, prefix: &Vec<char>, Ghost(done): Ghost<Seq<Seq<char>>>) -> (r: Option<Vec<char>>)
    requires
        match spec_first_stripped(done, prefix@) {
            Some(x) => found matches Some(v) && v@ == x,
            None => found is None,
        },
    ensures
        match spec_first_stripped(done.push(part@), prefix@) {
            Some(x) => r matches Some(v) && v@ == x,
            None => r is None,
        },
{
    assert(done.push(part@).drop_last() =~= done);
    match found {
        Some(v) => Some(v),
        None => strip(part, prefix),
    }
}

fn ven_prod(device_id: &Option<String>) -> (r: String)
    ensures
        r@ == spec_ven_prod(match device_id { Some(d) => d@, None => Seq::empty() }),
{
    let text: Vec<char> = match device_id {
        Some(d) => chars_of(d.as_str()),
        None => Vec::new(),
    };
    let ghost s = text@;
    let ven_prefix = chars_of("ven_");
    let prod_prefix = chars_of("prod_");
    let mut ven: Option<Vec<char>> = None;
    let mut prod: Option<Vec<char>> = None;
    let mut current: Vec<char> = Vec::new();
    let mut i: usize = 0;
    assert(s.take(0) =~= Seq::<char>::empty());
    assert(spec_parts(s.take(0)).drop_last() =~= Seq::<Seq<char>>::empty());
    while i < text.len()
        invariant
            i <= s.len(),
            text@ == s,
            ven_prefix@ == "ven_"@,
            prod_prefix@ == "prod_"@,
            current@ == spec_parts(s.take(i as int)).last(),
            spec_parts(s.take(i as int)).len() >= 1,
            match spec_first_stripped(spec_parts(s.take(i as int)).drop_last(), "ven_"@) {
                Some(x) => ven matches Some(v) && v@ == x,
                None => ven is None,
            },
            match spec_first_stripped(spec_parts(s.take(i as int)).drop_last(), "prod_"@) {
                Some(x) => prod matches Some(v) && v@ == x,
                None => prod is None,
            },
        decreases text.len() - i,
    {
        let c = text[i];
        let ghost before = spec_parts(s.take(i as int));
        assert(s.take(i + 1).drop_last() =~= s.take(i as int));
        assert(s.take(i + 1).last() == c);
        if c == '&' {
            ven = note_part(ven, &current, &ven_prefix, Ghost(before.drop_last()));
            prod = note_part(prod, &current, &prod_prefix, Ghost(before.drop_last()));
            assert(before.drop_last().push(before.last()) =~= before);
            current = Vec::new();
            assert(spec_parts(s.take(i + 1)).drop_last() =~= before);
        } else {
            current.push(c);
            assert(spec_parts(s.take(i + 1)).drop_last() =~= before.drop_last());
        }
        i = i + 1;
    }
    let ghost parts = spec_parts(s.take(i as int));
    ven = note_part(ven, &current, &ven_prefix, Ghost(parts.drop_last()));
    prod = note_part(prod, &current, &prod_prefix, Ghost(parts.drop_last()));
    assert(parts.drop_last().push(parts.last()) =~= parts);
    assert(s.take(i as int) =~= s);
    match (ven, prod) {
        (Some(v), Some(p)) => {
            let mut out = string_from_chars(v.as_slice());
            out.append("_");
            let q = string_from_chars(p.as_slice());
            out.append(q.as_str());
            out
        },
        (Some(v), None) => string_from_chars(v.as_slice()),
        (None, Some(p)) => string_from_chars(p.as_slice()),
        (None, None) => String::from_str("—"),
    }
}

fn or_dash(o: &Option<String>) -> (r: String)
    ensures
        r@ == spec_or_dash(*o),
{
    match o {
        Some(s) => s.clone(),
        None => String::from_str("—"),
    }
}

/// The cells of `row` in the device table, with `capacity` as its capacity text.
pub fn device_row_cells(row: &DeviceRow, capacity: &str) -> (r: Vec<String>)
    ensures
        spec_cell_views(r@) == spec_device_cells(*row, capacity@),
{
    let mut cells: Vec<String> = Vec::new();
    let mut disk = String::from_str("disk");
    let n = u64_decimal(row.disk as u64);
    disk.append(n.as_str());
    cells.push(disk);
    cells.push(String::from_str(capacity));
    cells.push(row.proto.clone());
    let mut ids = row.vid.clone();
    ids.append(":");
    ids.append(row.pid.as_str());
    cells.push(ids);
    cells.push(ven_prod(&row.device_id));
    cells.push(or_dash(&row.onlyid));
    cells.push(or_dash(&row.user));
    cells.push(or_dash(&row.dept));
    let usb = crate::text::str_eq(row.proto.as_str(), "USB");
    let state = if !usb {
        String::from_str("非 USB / 不支持")
    } else if row.denied {
        String::from_str("需要管理员权限")
    } else {
        match &row.probe_error {
            Some(e) => {
                let mut m = String::from_str("读取异常: ");
                m.append(e.as_str());
                m
            },
            None => row.kind_name.clone(),
        }
    };
    cells.push(state);
    assert(spec_cell_views(cells@) =~= spec_device_cells(*row, capacity@));
    cells
}

} // verus!
