//! The text of the sector inspector: the header with sector, mode and cursor position,
//! the decode status, and the 32 rows of 16 bytes in hex with their ASCII, each byte
//! marked as the cursor, part of the field under the cursor, changed by decoding, or
//! plain.

use vstd::prelude::*;
use crate::inspect::{
    spec_hex_char, AdvancedInspectState, InspectSectorItem, SectorInspectMode, SectorInspectorState,
};
use crate::sector::{find_item, spec_active_field};
use crate::state::AppState;
use crate::text::{spec_decimal, string_push, u128_decimal};

verus! {

/// How a byte of the hex view is drawn.
#[derive(Debug, Clone, Copy, PartialEq, Eq, Structural)]
pub enum ByteTone {
    Cursor,
    Field,
    Changed,
    Plain,
}

/// One row of the hex view: offset in the sector, absolute byte address, the 16
/// bytes, and their ASCII.
pub struct HexRow {
    pub offset: String,
    pub absolute: String,
    pub bytes: Vec<(String, ByteTone)>,
    pub ascii: String,
}

pub struct SectorInspectorText {
    pub lba: String,
    pub mode: String,
    pub pending: String,
    pub position: String,
    pub decode: String,
    /// The hex rows, or the line shown when the sector has no data yet.
    pub rows: Result<Vec<HexRow>, String>,
}

pub type HexRowView = (Seq<char>, Seq<char>, Seq<(Seq<char>, ByteTone)>, Seq<char>);

pub open spec fn spec_hex_digits(n: nat) -> Seq<char>
    decreases n,
{
    if n < 16 {
        seq![spec_hex_char(n)]
    } else {
        spec_hex_digits(n / 16).push(spec_hex_char(n % 16))
    }
}

/// `s` left-padded with zeros to `width` characters.
pub open spec fn spec_zero_pad(s: Seq<char>, width: nat) -> Seq<char> {
    if s.len() >= width {
        s
    } else {
        Seq::new((width - s.len()) as nat, |i: int| '0') + s
    }
}

pub open spec fn spec_mode_label(m: SectorInspectMode) -> Seq<char> {
    match m {
        SectorInspectMode::Raw => "Raw"@,
        SectorInspectMode::Decode => "Decode"@,
        SectorInspectMode::Mixed => "Mixed"@,
    }
}

/// The first item of `items` for sector `lba`.
pub open spec fn spec_item_for(items: Seq<InspectSectorItem>, lba: u64) -> Option<InspectSectorItem> {
    if exists|i: int| 0 <= i < items.len() && (#[trigger] items[i]).lba == lba {
        let i = choose|i: int|
            0 <= i < items.len() && (#[trigger] items[i]).lba == lba && forall|j: int|
                0 <= j < i ==> (#[trigger] items[j]).lba != lba;
        Some(items[i])
    } else {
        None
    }
}

pub open spec fn spec_sector_item(a: AdvancedInspectState) -> Option<InspectSectorItem> {
    match (a.sector, a.result) {
        (Some(sec), Some(w)) => spec_item_for(w.items@, sec.lba),
        _ => None,
    }
}

/// The bytes shown: raw in Raw mode, else the decoded bytes when there are any.
pub open spec fn spec_display(mode: SectorInspectMode, item: InspectSectorItem) -> Seq<u8> {
    match mode {
        SectorInspectMode::Raw => item.raw@,
        _ => match item.decoded {
            Some(d) => d@,
            None => item.raw@,
        },
    }
}

pub open spec fn spec_ascii(b: u8) -> char {
    if 0x20 <= b && b <= 0x7e { b as char } else { '.' }
}

pub open spec fn spec_tone(
    sec: SectorInspectorState,
    item: InspectSectorItem,
    field: Option<(u64, u64)>,
    index: int,
) -> ByteTone {
    let absolute = if sec.lba * 512 + index > u64::MAX { u64::MAX as int } else { sec.lba * 512 + index };
    if index == sec.cursor {
        ByteTone::Cursor
    } else if (field matches Some((start, end)) && start <= absolute < end) {
        ByteTone::Field
    } else if sec.mode == SectorInspectMode::Mixed && (item.decoded matches Some(d)
        && d@[index] != item.raw@[index]) {
        ByteTone::Changed
    } else {
        ByteTone::Plain
    }
}

pub open spec fn spec_hex_row(
    sec: SectorInspectorState,
    item: InspectSectorItem,
    field: Option<(u64, u64)>,
    row: int,
) -> HexRowView {
    let offset = row * 16;
    let display = spec_display(sec.mode, item);
    (
        "+0x"@ + spec_zero_pad(spec_hex_digits(offset as nat), 3) + "  "@,
        "0x"@ + spec_zero_pad(spec_hex_digits((sec.lba * 512 + offset) as nat), 12) + "  "@,
        Seq::new(16, |c: int| (
            spec_zero_pad(spec_hex_digits(display[offset + c] as nat), 2) + " "@,
            spec_tone(sec, item, field, offset + c),
        )),
        " |"@ + Seq::new(16, |c: int| spec_ascii(display[offset + c])) + "|"@,
    )
}

pub open spec fn spec_row_view(r: HexRow) -> HexRowView {
    (r.offset@, r.absolute@, Seq::new(r.bytes@.len(), |i: int| (r.bytes@[i].0@, r.bytes@[i].1)), r.ascii@)
}

pub open spec fn spec_field_range(a: AdvancedInspectState) -> Option<(u64, u64)> {
    match spec_active_field(a) {
        Some(f) => Some((f.range_start, f.range_end_exclusive)),
        None => None,
    }
}

/// The item's bytes cover the whole sector in the mode shown.
pub open spec fn spec_bytes_complete(sec: SectorInspectorState, item: InspectSectorItem) -> bool {
    &&& item.raw@.len() >= 512
    &&& (item.decoded matches Some(d) ==> d@.len() >= 512)
}

/// The state's sector inspector can be shown: its sector's bytes, where loaded,
/// cover the sector.
pub open spec fn spec_sector_viewable(s: AppState) -> bool {
    match s.advanced_inspect {
        Some(a) => match (a.sector, spec_sector_item(a)) {
            (Some(sec), Some(item)) => spec_bytes_complete(sec, item),
            _ => true,
        },
        None => true,
    }
}

pub open spec fn spec_position_line(sec: SectorInspectorState) -> Seq<char> {
    "byte +0x"@ + spec_zero_pad(spec_hex_digits(sec.cursor as nat), 3) + " / absolute 0x"@
        + spec_hex_digits((sec.lba * 512 + sec.cursor) as nat) + " / row "@ + spec_zero_pad(
        spec_decimal((sec.cursor / 16 + 1) as nat),
        2,
    ) + "/32"@
}

pub open spec fn spec_decode_line(sec: SectorInspectorState, item: Option<InspectSectorItem>) -> Seq<char> {
    match sec.error {
        Some(e) => "decode: "@ + e@,
        None => match item {
            Some(it) => match it.decode_error {
                Some(e) => "decode: "@ + e@,
                None => "decode: available/raw"@,
            },
            None => "decode: available/raw"@,
        },
    }
}

fn hex_digit(d: u128) -> (c: char)
    requires
        d < 16,
    ensures
        c == spec_hex_char(d as nat),
{
    if d < 10 {
        ((48 + d) as u8) as char
    } else {
        ((55 + d) as u8) as char
    }
}

fn hex_digits(n: u128) -> (s: String)
    ensures
        s@ == spec_hex_digits(n as nat),
    decreases n,
{
    if n < 16 {
        let mut s = String::new();
        string_push(&mut s, hex_digit(n));
        assert(s@ =~= spec_hex_digits(n as nat));
        s
    } else {
        let mut s = hex_digits(n / 16);
        string_push(&mut s, hex_digit(n % 16));
        s
    }
}

fn zero_pad(s: String, width: usize) -> (r: String)
    ensures
        r@ == spec_zero_pad(s@, width as nat),
{
    let len = s.unicode_len();
    if len >= width {
        return s;
    }
    let mut out = String::new();
    let mut i: usize = 0;
    while i < width - len
        invariant
            i <= width - len,
            len == s@.len(),
            out@ == Seq::new(i as nat, |k: int| '0'),
        decreases width - len - i,
    {
        string_push(&mut out, '0');
        i = i + 1;
        assert(out@ =~= Seq::new(i as nat, |k: int| '0'));
    }
    out.append(s.as_str());
    out
}

fn ascii(b: u8) -> (c: char)
    ensures
        c == spec_ascii(b),
{
    if 0x20 <= b && b <= 0x7e { b as char } else { '.' }
}

fn text(s: &str) -> (r: String)
    ensures
        r@ == s@,
{
    String::from_str(s)
}

fn hex_row(
    sec: &SectorInspectorState,
    item: &InspectSectorItem,
    field: Option<(u64, u64)>,
    row: usize,
) -> (r: HexRow)
    requires
        row < 32,
        spec_bytes_complete(*sec, *item),
        sec.lba * 512 + 512 <= u128::MAX,
    ensures
        spec_row_view(r) == spec_hex_row(*sec, *item, field, row as int),
{
    let offset = row * 16;
    let display: &Vec<u8> = match sec.mode {
        SectorInspectMode::Raw => &item.raw,
        _ => match &item.decoded {
            Some(d) => d,
            None => &item.raw,
        },
    };
    assert(display@ == spec_display(sec.mode, *item));
    let mut off = text("+0x");
    let o = zero_pad(hex_digits(offset as u128), 3);
    off.append(o.as_str());
    off.append("  ");
    let mut abs = text("0x");
    let a = zero_pad(hex_digits(sec.lba as u128 * 512 + offset as u128), 12);
    abs.append(a.as_str());
    abs.append("  ");
    let mut bytes: Vec<(String, ByteTone)> = Vec::new();
    let mut chars = text(" |");
    let ghost expect = spec_hex_row(*sec, *item, field, row as int);
    let mut c: usize = 0;
    while c < 16
        invariant
            c <= 16,
            offset == row * 16,
            row < 32,
            display@ == spec_display(sec.mode, *item),
            display@.len() >= 512,
            spec_bytes_complete(*sec, *item),
            sec.lba * 512 + 512 <= u128::MAX,
            expect == spec_hex_row(*sec, *item, field, row as int),
            bytes@.len() == c,
            forall|k: int| 0 <= k < c ==> (#[trigger] bytes@[k]).0@ == expect.2[k].0 && bytes@[k].1 == expect.2[k].1,
            chars@ == " |"@ + Seq::new(c as nat, |k: int| spec_ascii(display@[offset + k])),
        decreases 16 - c,
    {
        let index = offset + c;
        assert(index < 512) by (nonlinear_arith)
            requires index == offset + c, offset == row * 16, row < 32, c < 16;
        let b = display[index];
        let mut t = zero_pad(hex_digits(b as u128), 2);
        t.append(" ");
        let wide: u128 = sec.lba as u128 * 512 + index as u128;
        let absolute: u64 = if wide > u64::MAX as u128 { u64::MAX } else { wide as u64 };
        let tone = if index == sec.cursor {
            ByteTone::Cursor
        } else if match field {
            Some((start, end)) => start <= absolute && absolute < end,
            None => false,
        } {
            ByteTone::Field
        } else if match (&sec.mode, &item.decoded) {
            (SectorInspectMode::Mixed, Some(d)) => d[index] != item.raw[index],
            _ => false,
        } {
            ByteTone::Changed
        } else {
            ByteTone::Plain
        };
        assert(absolute == (if sec.lba * 512 + index > u64::MAX { u64::MAX as int } else { sec.lba * 512 + index }));
        let ghost before = bytes@;
        bytes.push((t, tone));
        assert forall|k: int| 0 <= k < c + 1 implies (#[trigger] bytes@[k]).0@ == expect.2[k].0 && bytes@[k].1 == expect.2[k].1 by {
            if k < c {
                assert(bytes@[k] == before[k]);
            }
        }
        string_push(&mut chars, ascii(b));
        c = c + 1;
        assert(chars@ =~= " |"@ + Seq::new(c as nat, |k: int| spec_ascii(display@[offset + k])));
    }
    chars.append("|");
    let r = HexRow { offset: off, absolute: abs, bytes, ascii: chars };
    assert(spec_row_view(r).2 =~= expect.2);
    r
}

fn sector_item<'a>(a: &'a AdvancedInspectState, sec: &SectorInspectorState) -> (r: Option<&'a InspectSectorItem>)
    requires
        a.sector == Some(*sec),
    ensures
        match r {
            Some(x) => spec_sector_item(*a) == Some(*x),
            None => spec_sector_item(*a) is None,
        },
{
    let item: Option<&InspectSectorItem> = match &a.result {
            Some(w) => match find_item(&w.items, sec.lba) {
                Some(i) => {
                    proof {
                        let items = w.items@;
                        let c = choose|j: int|
                            0 <= j < items.len() && (#[trigger] items[j]).lba == sec.lba && forall|k: int|
                                0 <= k < j ==> (#[trigger] items[k]).lba != sec.lba;
                        assert(items[i as int].lba == sec.lba);
                        if c < i {
                        } else if c > i {
                            assert(items[i as int].lba != sec.lba);
                        }
                    }
                    Some(&w.items[i])
                },
                None => None,
            },
            None => None,
        };
        assert(match item { Some(x) => spec_sector_item(*a) == Some(*x), None => spec_sector_item(*a) is None });
    item
}

impl AppState {
    /// Whether the sector inspector can be shown: the loaded bytes of its sector
    /// cover the whole sector.
    pub fn sector_viewable(&self) -> (r: bool)
        ensures
            r == spec_sector_viewable(*self),
    {
        let a = match &self.advanced_inspect {
            Some(a) => a,
            None => return true,
        };
        let sec = match &a.sector {
            Some(s) => s,
            None => return true,
        };
        match sector_item(a, sec) {
            Some(it) => it.raw.len() >= 512 && match &it.decoded {
                Some(d) => d.len() >= 512,
                None => true,
            },
            None => true,
        }
    }
    /// The sector inspector's text, when it is open.
    pub fn sector_inspector_text(&self) -> (r: Option<SectorInspectorText>)
        requires
            self.wf(),
            spec_sector_viewable(*self),
        ensures
            match self.advanced_inspect {
                Some(a) => match a.sector {
                    Some(sec) => r matches Some(t) && ({
                        let item = spec_sector_item(a);
                        &&& t.lba@ == "LBA"@ + spec_decimal(sec.lba as nat) + "  "@
                        &&& t.mode@ == spec_mode_label(sec.mode)
                        &&& t.pending@ == (if sec.pending { "  · 读取中"@ } else { ""@ })
                        &&& t.position@ == spec_position_line(sec)
                        &&& t.decode@ == spec_decode_line(sec, item)
                        &&& match item {
                            Some(it) => t.rows matches Ok(rows) && rows@.len() == 32 && forall|i: int|
                                0 <= i < 32 ==> spec_row_view(#[trigger] rows@[i]) == spec_hex_row(
                                    sec,
                                    it,
                                    spec_field_range(a),
                                    i,
                                ),
                            None => t.rows matches Err(line) && line@ == (if sec.pending {
                                "正在后台读取当前扇区…"@
                            } else {
                                "当前扇区没有可显示的数据。"@
                            }),
                        }
                    }),
                    None => r is None,
                },
                None => r is None,
            },
    {
        let a = match &self.advanced_inspect {
            Some(a) => a,
            None => return None,
        };
        let sec = match &a.sector {
            Some(s) => s,
            None => return None,
        };
        let item = sector_item(a, sec);
        let mut lba = text("LBA");
        let d = u128_decimal(sec.lba as u128);
        lba.append(d.as_str());
        lba.append("  ");
        let mode = match sec.mode {
            SectorInspectMode::Raw => text("Raw"),
            SectorInspectMode::Decode => text("Decode"),
            SectorInspectMode::Mixed => text("Mixed"),
        };
        let pending = if sec.pending { text("  · 读取中") } else { text("") };
        let mut position = text("byte +0x");
        let c = zero_pad(hex_digits(sec.cursor as u128), 3);
        position.append(c.as_str());
        position.append(" / absolute 0x");
        let ab = hex_digits(sec.lba as u128 * 512 + sec.cursor as u128);
        position.append(ab.as_str());
        position.append(" / row ");
        let rn = zero_pad(u128_decimal(sec.cursor as u128 / 16 + 1), 2);
        position.append(rn.as_str());
        position.append("/32");
        let mut decode = text("decode: ");
        match &sec.error {
            Some(e) => decode.append(e.as_str()),
            None => match item {
                Some(it) => match &it.decode_error {
                    Some(e) => decode.append(e.as_str()),
                    None => decode = text("decode: available/raw"),
                },
                None => decode = text("decode: available/raw"),
            },
        }
        let rows = match item {
            Some(it) => {
                let field = match self.advanced_inspect_sector_active_field() {
                    Some(f) => Some((f.range_start, f.range_end_exclusive)),
                    None => None,
                };
                assert(field == spec_field_range(*a));
                let mut rows: Vec<HexRow> = Vec::new();
                let mut r: usize = 0;
                while r < 32
                    invariant
                        r <= 32,
                        rows@.len() == r,
                        spec_bytes_complete(*sec, *it),
                        forall|i: int| 0 <= i < r ==> spec_row_view(#[trigger] rows@[i]) == spec_hex_row(*sec, *it, field, i),
                    decreases 32 - r,
                {
                    let row = hex_row(sec, it, field, r);
                    rows.push(row);
                    r = r + 1;
                }
                Ok(rows)
            },
            None => Err(if sec.pending { text("正在后台读取当前扇区…") } else { text("当前扇区没有可显示的数据。") }),
        };
        Some(SectorInspectorText { lba, mode, pending, position, decode, rows })
    }
}

/// What the hex view shows: in Raw mode every hex and ASCII cell shows the raw byte at
/// its position; in Decode and Mixed mode, where the sector has decoded bytes, every
/// cell shows the decoded byte instead (so those modes differ from Raw wherever
/// decoding changed a byte), falling back to the raw byte only without decoded bytes.
/// The byte under the cursor, and only that byte, is drawn as the cursor; a byte is
/// marked changed only in Mixed mode where decoding changed it, and outside any field
/// every other byte is plain.
pub proof fn lemma_hex_cells_show_mode_bytes(
    sec: SectorInspectorState,
    item: InspectSectorItem,
    field: Option<(u64, u64)>,
    row: int,
    col: int,
)
    requires
        0 <= row < 32,
        0 <= col < 16,
        spec_bytes_complete(sec, item),
    ensures
        ({
            let shown: u8 = if sec.mode != SectorInspectMode::Raw && item.decoded is Some {
                item.decoded->0@[row * 16 + col]
            } else {
                item.raw@[row * 16 + col]
            };
            &&& spec_hex_row(sec, item, field, row).2[col].0 == spec_zero_pad(
                spec_hex_digits(shown as nat),
                2,
            ) + " "@
            &&& spec_hex_row(sec, item, field, row).3[col + 2] == spec_ascii(shown)
        }),
        ({
            let i = row * 16 + col;
            let tone = spec_hex_row(sec, item, field, row).2[col].1;
            &&& (tone == ByteTone::Cursor) <==> i == sec.cursor
            &&& tone == ByteTone::Changed ==> sec.mode == SectorInspectMode::Mixed && item.decoded is Some
                && item.decoded->0@[i] != item.raw@[i]
            &&& (i != sec.cursor && field is None && sec.mode == SectorInspectMode::Mixed
                && item.decoded is Some && item.decoded->0@[i] != item.raw@[i]) ==> tone
                == ByteTone::Changed
            &&& (i != sec.cursor && field is None && (sec.mode != SectorInspectMode::Mixed
                || item.decoded is None || item.decoded->0@[i] == item.raw@[i])) ==> tone
                == ByteTone::Plain
        }),
{
    let offset = row * 16;
    let row_view = spec_hex_row(sec, item, field, row);
    assert(row_view.3 == " |"@ + Seq::new(16, |c: int| spec_ascii(spec_display(sec.mode, item)[offset + c])) + "|"@);
    reveal_strlit(" |");
    assert((" |"@ + Seq::new(16, |c: int| spec_ascii(spec_display(sec.mode, item)[offset + c])))[col + 2]
        == Seq::new(16, |c: int| spec_ascii(spec_display(sec.mode, item)[offset + c]))[col]);
}

} // verus!
