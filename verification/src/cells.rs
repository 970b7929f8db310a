//! Fitting text into terminal cells: display widths, truncation with an ellipsis,
//! hard wrapping, the scrolling input window and the visible slice of a long list.

use vstd::prelude::*;
use unicode_segmentation::UnicodeSegmentation;
use unicode_width::UnicodeWidthStr;
use crate::table_layout::TruncatePolicy;
use crate::text::{chars_of, string_push};

verus! {

/// Terminal columns that `unicode-width` gives a string.
pub uninterp spec fn spec_display_width(s: Seq<char>) -> nat;

/// The extended grapheme clusters of a string, as `unicode-segmentation` splits it.
pub uninterp spec fn spec_graphemes(s: Seq<char>) -> Seq<Seq<char>>;

/// Terminal columns the text occupies (`UnicodeWidthStr::width`); the empty string
/// is zero columns wide.
#[verifier::external_body]
pub fn display_width(text: &str) -> (r: usize)
    ensures
        r as nat == spec_display_width(text@),
        text@.len() == 0 ==> r == 0,
{
    UnicodeWidthStr::width(text)
}

pub open spec fn spec_flatten(parts: Seq<Seq<char>>) -> Seq<char>
    decreases parts.len(),
{
    if parts.len() == 0 {
        Seq::empty()
    } else {
        spec_flatten(parts.drop_last()) + parts.last()
    }
}

pub open spec fn spec_string_views(v: Seq<String>) -> Seq<Seq<char>> {
    v.map_values(|s: String| s@)
}

/// The extended grapheme clusters of `text` (`UnicodeSegmentation::graphemes` with
/// `is_extended`): non-empty pieces that, joined in order, give back the text.
#[verifier::external_body]
fn graphemes(text: &str) -> (r: Vec<String>)
    ensures
        spec_string_views(r@) == spec_graphemes(text@),
        spec_flatten(spec_string_views(r@)) == text@,
        forall|i: int| 0 <= i < r@.len() ==> (#[trigger] r@[i])@.len() > 0,
{
    let mut out = Vec::new();
    for g in UnicodeSegmentation::graphemes(text, true) {
        out.push(g.to_string());
    }
    out
}

/// Columns a single character takes in a cell grid: its display width, at least one.
pub open spec fn spec_char_cells(c: char) -> nat {
    let w = spec_display_width(seq![c]);
    if w == 0 {
        1
    } else {
        w
    }
}

pub fn char_cells(c: char) -> (r: usize)
    ensures
        r as nat == spec_char_cells(c),
        r >= 1,
{
    let mut s = String::new();
    string_push(&mut s, c);
    assert(s@ =~= seq![c]);
    let w = display_width(s.as_str());
    if w == 0 {
        1
    } else {
        w
    }
}

// ----- truncation -----

/// The leading graphemes that fit in `budget` columns, stopping at the first that
/// does not.
pub open spec fn spec_fit_graphemes(gs: Seq<Seq<char>>, budget: int) -> Seq<Seq<char>>
    decreases gs.len(),
{
    if gs.len() == 0 {
        gs
    } else if spec_display_width(gs[0]) > budget {
        Seq::empty()
    } else {
        seq![gs[0]] + spec_fit_graphemes(gs.skip(1), budget - spec_display_width(gs[0]))
    }
}

pub open spec fn spec_ellipsis(policy: TruncatePolicy) -> Seq<char> {
    if policy == TruncatePolicy::Ellipsis {
        "…"@
    } else {
        ""@
    }
}

/// `text` cut to `width` columns: unchanged if it fits, else the graphemes that fit
/// (leaving room for the ellipsis when the policy asks for one), then the ellipsis.
pub open spec fn spec_truncate_cell(text: Seq<char>, width: usize, policy: TruncatePolicy) -> Seq<char> {
    if spec_display_width(text) <= width {
        text
    } else if width == 0 {
        Seq::empty()
    } else {
        let e = spec_ellipsis(policy);
        let target = if spec_display_width(e) >= width {
            0
        } else {
            width - spec_display_width(e)
        };
        spec_flatten(spec_fit_graphemes(spec_graphemes(text), target)) + e
    }
}

proof fn lemma_flatten_push(parts: Seq<Seq<char>>, p: Seq<char>)
    ensures
        spec_flatten(parts.push(p)) == spec_flatten(parts) + p,
{
    assert(parts.push(p).drop_last() =~= parts);
}

pub fn truncate_cell(text: &str, width: usize, policy: TruncatePolicy) -> (r: String)
    ensures
        r@ == spec_truncate_cell(text@, width, policy),
{
    if display_width(text) <= width {
        return text.to_owned();
    }
    if width == 0 {
        return String::new();
    }
    let ellipsis = if policy == TruncatePolicy::Ellipsis {
        "…"
    } else {
        ""
    };
    proof {
        reveal_strlit("…");
        reveal_strlit("");
    }
    let ew = display_width(ellipsis);
    let target: usize = if ew >= width {
        0
    } else {
        width - ew
    };
    let gs = graphemes(text);
    let ghost all = spec_string_views(gs@);
    let mut out = String::new();
    let mut used: usize = 0;
    let mut i: usize = 0;
    let mut stopped = false;
    let ghost mut taken: Seq<Seq<char>> = Seq::empty();
    proof {
        assert(all.skip(0) =~= all);
        assert(taken + spec_fit_graphemes(all, target as int) =~= spec_fit_graphemes(all, target as int));
    }
    while i < gs.len() && !stopped
        invariant
            i <= gs@.len(),
            all == spec_string_views(gs@),
            all.len() == gs@.len(),
            used <= target,
            taken == all.take(i as int),
            out@ == spec_flatten(taken),
            spec_fit_graphemes(all, target as int) == taken + spec_fit_graphemes(
                all.skip(i as int),
                target - used,
            ),
            stopped ==> spec_fit_graphemes(all.skip(i as int), target - used) =~= Seq::<Seq<char>>::empty(),
        decreases gs@.len() - i, if stopped { 0int } else { 1int },
    {
        let g = &gs[i];
        let cells = display_width(g.as_str());
        proof {
            assert(all[i as int] == g@);
            assert(all.skip(i as int)[0] == g@);
        }
        if cells > target - used {
            stopped = true;
        } else {
            out.append(g.as_str());
            used = used + cells;
            proof {
                lemma_flatten_push(taken, g@);
                assert(all.skip(i as int).skip(1) =~= all.skip(i + 1));
                assert(taken.push(g@) =~= all.take(i + 1));
                assert(taken + spec_fit_graphemes(all.skip(i as int), target - (used - cells)) =~= taken.push(g@)
                    + spec_fit_graphemes(all.skip(i + 1), target - used));
                taken = taken.push(g@);
            }
            i = i + 1;
        }
    }
    proof {
        if !stopped {
            assert(all.skip(i as int) =~= Seq::<Seq<char>>::empty());
        }
        assert(taken + Seq::<Seq<char>>::empty() =~= taken);
        assert(spec_fit_graphemes(all, target as int) == taken);
    }
    out.append(ellipsis);
    out
}

// ----- hard wrapping -----

/// Characters of `chars` laid into lines of at most `width` columns, each character
/// taking at least one column; a line breaks before a character that would not fit,
/// and there is always at least one line.
pub open spec fn spec_hard_wrap(chars: Seq<char>, width: nat) -> Seq<Seq<char>> {
    let (lines, cur, _w) = spec_wrap_from(chars, width, chars.len() as int);
    if cur.len() > 0 || lines.len() == 0 {
        lines.push(cur)
    } else {
        lines
    }
}

/// Completed lines, the open line and its width after the first `m` characters.
pub open spec fn spec_wrap_from(chars: Seq<char>, width: nat, m: int) -> (Seq<Seq<char>>, Seq<char>, nat)
    decreases m,
{
    if m <= 0 {
        (Seq::empty(), Seq::empty(), 0)
    } else {
        let (lines, cur, w) = spec_wrap_from(chars, width, m - 1);
        let c = chars[m - 1];
        let cw = spec_char_cells(c);
        if w > 0 && w + cw > width {
            (lines.push(cur), seq![c], cw)
        } else {
            (lines, cur.push(c), w + cw)
        }
    }
}

/// Break `value` into lines of at most `width` columns (at least one), splitting
/// anywhere, not only at spaces.
pub fn hard_wrap_value(value: &str, width: usize) -> (r: Vec<String>)
    ensures
        spec_string_views(r@) == spec_hard_wrap(value@, if width == 0 {
            1nat
        } else {
            width as nat
        }),
{
    let width = if width == 0 {
        1
    } else {
        width
    };
    let chars = chars_of(value);
    let mut lines: Vec<String> = Vec::new();
    let mut current = String::new();
    let mut current_width: usize = 0;
    let mut i: usize = 0;
    while i < chars.len()
        invariant
            i <= chars@.len(),
            chars@ == value@,
            width >= 1,
            ({
                let (l, c, w) = spec_wrap_from(chars@, width as nat, i as int);
                spec_string_views(lines@) == l && current@ == c && current_width == w
            }),
        decreases chars@.len() - i,
    {
        let ch = chars[i];
        let cw = char_cells(ch);
        if current_width > 0 && (cw > width || current_width > width - cw) {
            let done = current;
            let ghost lv = spec_string_views(lines@);
            lines.push(done);
            proof {
                assert(spec_string_views(lines@) =~= lv.push(done@));
            }
            current = String::new();
            current_width = 0;
        }
        string_push(&mut current, ch);
        current_width = current_width + cw;
        proof {
            let (l2, c2, w2) = spec_wrap_from(chars@, width as nat, i + 1);
            assert(current@ =~= c2);
        }
        i = i + 1;
    }
    if current.unicode_len() > 0 || lines.len() == 0 {
        let ghost lv = spec_string_views(lines@);
        lines.push(current);
        proof {
            assert(spec_string_views(lines@) =~= lv.push(current@));
        }
    }
    proof {
        assert(chars@.len() == value@.len());
    }
    lines
}

// ----- the visible slice of a long list -----

/// Rows shown for a list of `total` rows in an area `area_height` tall (three rows
/// go to borders and the header), keeping `selected` near the middle.
pub open spec fn spec_visible_start(selected: usize, total: usize, area_height: u16) -> int {
    let capacity = spec_capacity(area_height);
    let back = if selected < capacity / 2 {
        0
    } else {
        selected - capacity / 2
    };
    let limit = if total < capacity {
        0
    } else {
        total - capacity
    };
    if back < limit {
        back
    } else {
        limit
    }
}

pub open spec fn spec_capacity(area_height: u16) -> int {
    if area_height <= 4 {
        1
    } else {
        area_height - 3
    }
}

pub fn visible_window(selected: usize, total: usize, area_height: u16) -> (r: std::ops::Range<usize>)
    ensures
        r.start == spec_visible_start(selected, total, area_height),
        r.end == if r.start + spec_capacity(area_height) < total {
            r.start + spec_capacity(area_height)
        } else {
            total as int
        },
{
    let h: usize = area_height as usize;
    let capacity: usize = if h <= 4 {
        1
    } else {
        h - 3
    };
    let back = if selected < capacity / 2 {
        0
    } else {
        selected - capacity / 2
    };
    let limit = if total < capacity {
        0
    } else {
        total - capacity
    };
    let start = if back < limit {
        back
    } else {
        limit
    };
    let end = if total < capacity {
        total
    } else if start + capacity < total {
        start + capacity
    } else {
        total
    };
    start..end
}


// ----- fitting a value into a fixed number of cells -----

/// Columns the characters `ch[a..b]` take in the cell grid.
pub open spec fn spec_cells_sum(ch: Seq<char>, a: int, b: int) -> nat
    decreases b - a,
{
    if b <= a {
        0
    } else {
        spec_cells_sum(ch, a, b - 1) + spec_char_cells(ch[b - 1])
    }
}

/// The leading characters that fit in `budget` columns, stopping at the first that
/// does not.
pub open spec fn spec_fit_chars(ch: Seq<char>, budget: int) -> Seq<char>
    decreases ch.len(),
{
    if ch.len() == 0 {
        ch
    } else if spec_char_cells(ch[0]) > budget {
        Seq::empty()
    } else {
        seq![ch[0]] + spec_fit_chars(ch.skip(1), budget - spec_char_cells(ch[0]))
    }
}

pub open spec fn spec_chars_cells(ch: Seq<char>) -> nat {
    spec_cells_sum(ch, 0, ch.len() as int)
}

pub open spec fn spec_spaces(n: nat) -> Seq<char> {
    Seq::new(n, |i: int| ' ')
}

/// `value` filling exactly `width` columns: padded with spaces when it fits, else
/// cut with `…` (and padded if the cut leaves a gap).
pub open spec fn spec_fit_display_width(value: Seq<char>, width: usize) -> Seq<char> {
    if width == 0 {
        Seq::empty()
    } else if width == 1 {
        "│"@
    } else if spec_display_width(value) <= width {
        value + spec_spaces((width - spec_display_width(value)) as nat)
    } else {
        let fit = spec_fit_chars(value, width - 1);
        let used = spec_chars_cells(fit) + 1;
        fit + "…"@ + if used < width {
            spec_spaces((width - used) as nat)
        } else {
            Seq::empty()
        }
    }
}

proof fn lemma_cells_sum_push(ch: Seq<char>, c: char)
    ensures
        spec_chars_cells(ch.push(c)) == spec_chars_cells(ch) + spec_char_cells(c),
{
    lemma_cells_sum_prefix(ch.push(c), ch, ch.len() as int);
}

proof fn lemma_cells_sum_prefix(a: Seq<char>, b: Seq<char>, m: int)
    requires
        0 <= m <= b.len(),
        m <= a.len(),
        forall|i: int| 0 <= i < m ==> a[i] == b[i],
    ensures
        spec_cells_sum(a, 0, m) == spec_cells_sum(b, 0, m),
    decreases m,
{
    if m > 0 {
        lemma_cells_sum_prefix(a, b, m - 1);
    }
}

fn push_spaces(s: &mut String, n: usize)
    ensures
        final(s)@ == old(s)@ + spec_spaces(n as nat),
{
    let mut k: usize = 0;
    while k < n
        invariant
            k <= n,
            s@ == old(s)@ + spec_spaces(k as nat),
        decreases n - k,
    {
        string_push(s, ' ');
        k = k + 1;
        proof {
            assert(s@ =~= old(s)@ + spec_spaces(k as nat));
        }
    }
}

pub fn fit_display_width(value: &str, width: usize) -> (r: String)
    ensures
        r@ == spec_fit_display_width(value@, width),
{
    if width == 0 {
        return String::new();
    }
    if width == 1 {
        return String::from_str("│");
    }
    let current = display_width(value);
    if current <= width {
        let mut out = value.to_owned();
        push_spaces(&mut out, width - current);
        return out;
    }
    let target = width - 1;
    let ch = chars_of(value);
    let mut out = String::new();
    let mut used: usize = 0;
    let mut i: usize = 0;
    let mut stopped = false;
    proof {
        assert(ch@.skip(0) =~= ch@);
    }
    while i < ch.len() && !stopped
        invariant
            i <= ch@.len(),
            ch@ == value@,
            used <= target,
            out@ == ch@.take(i as int),
            used == spec_chars_cells(out@),
            spec_fit_chars(ch@, target as int) == out@ + spec_fit_chars(ch@.skip(i as int), target - used),
            stopped ==> spec_fit_chars(ch@.skip(i as int), target - used) =~= Seq::<char>::empty(),
        decreases ch@.len() - i, if stopped { 0int } else { 1int },
    {
        let c = ch[i];
        let cw = char_cells(c);
        proof {
            assert(ch@.skip(i as int)[0] == c);
        }
        if cw > target - used {
            stopped = true;
        } else {
            let ghost before = out@;
            string_push(&mut out, c);
            proof {
                lemma_cells_sum_push(before, c);
                assert(ch@.skip(i as int).skip(1) =~= ch@.skip(i + 1));
                assert(out@ =~= ch@.take(i + 1));
                assert(before + spec_fit_chars(ch@.skip(i as int), target - used) =~= out@
                    + spec_fit_chars(ch@.skip(i + 1), target - (used + cw)));
            }
            used = used + cw;
            i = i + 1;
        }
    }
    proof {
        if !stopped {
            assert(ch@.skip(i as int) =~= Seq::<char>::empty());
        }
        assert(out@ + Seq::<char>::empty() =~= out@);
    }
    let ghost fit = out@;
    string_push(&mut out, '…');
    let total_used = used + 1;
    if total_used < width {
        push_spaces(&mut out, width - total_used);
    }
    proof {
        reveal_strlit("…");
        if total_used < width {
            assert(out@ =~= fit + "…"@ + spec_spaces((width - total_used) as nat));
        } else {
            assert(out@ =~= fit + "…"@ + Seq::<char>::empty());
        }
    }
    out
}

// ----- the scrolling input window -----

/// Columns a window `[a, b)` of the input takes: the cursor bar, the characters,
/// and a scroll marker on each side with more text beyond it.
pub open spec fn spec_window_width(ch: Seq<char>, a: int, b: int) -> nat {
    1 + spec_cells_sum(ch, a, b) + (if a > 0 {
        1nat
    } else {
        0nat
    }) + (if b < ch.len() {
        1nat
    } else {
        0nat
    })
}

/// The window around the cursor: widened one character at a time, first to the
/// left then to the right, while it still fits in `width` columns.
pub open spec fn spec_grow_window(ch: Seq<char>, width: nat, a: int, b: int) -> (int, int)
    decreases a + (ch.len() - b),
{
    if !(0 <= a <= b <= ch.len()) {
        (a, b)
    } else {
        let a2 = if a > 0 && spec_window_width(ch, a - 1, b) <= width {
            a - 1
        } else {
            a
        };
        let b2 = if b < ch.len() && spec_window_width(ch, a2, b + 1) <= width {
            b + 1
        } else {
            b
        };
        if a2 == a && b2 == b {
            (a, b)
        } else {
            spec_grow_window(ch, width, a2, b2)
        }
    }
}

/// The characters shown for an input: `•` for each when it is secret.
pub open spec fn spec_input_chars(value: Seq<char>, secret: bool) -> Seq<char> {
    if secret {
        Seq::new(value.len(), |i: int| '•')
    } else {
        value
    }
}

/// The input as drawn in `width` columns: the visible window with the cursor bar
/// `│` at the cursor and `‹` / `›` where text continues past either edge.
pub open spec fn spec_input_window(value: Seq<char>, cursor: usize, width: usize, secret: bool) -> Seq<char> {
    let ch = spec_input_chars(value, secret);
    let cur = if cursor < ch.len() {
        cursor as int
    } else {
        ch.len() as int
    };
    if width == 0 {
        Seq::empty()
    } else if width == 1 {
        "│"@
    } else {
        let (a, b) = spec_grow_window(ch, width as nat, cur, cur);
        (if a > 0 {
            "‹"@
        } else {
            Seq::empty()
        }) + ch.subrange(a, cur) + "│"@ + ch.subrange(cur, b) + (if b < ch.len() {
            "›"@
        } else {
            Seq::empty()
        })
    }
}

proof fn lemma_cells_sum_front(ch: Seq<char>, a: int, b: int)
    requires
        0 < a <= b,
    ensures
        spec_cells_sum(ch, a - 1, b) == spec_cells_sum(ch, a, b) + spec_char_cells(ch[a - 1]),
    decreases b - a,
{
    if b > a {
        lemma_cells_sum_front(ch, a, b - 1);
        assert(spec_cells_sum(ch, a - 1, b) == spec_cells_sum(ch, a - 1, b - 1) + spec_char_cells(ch[b - 1]));
        assert(spec_cells_sum(ch, a, b) == spec_cells_sum(ch, a, b - 1) + spec_char_cells(ch[b - 1]));
    } else {
        assert(spec_cells_sum(ch, a - 1, b) == spec_cells_sum(ch, a - 1, a - 1) + spec_char_cells(ch[a - 1]));
    }
}

fn grow_window(cells: &Vec<usize>, Ghost(chs): Ghost<Seq<char>>, cursor: usize, width: usize) -> (r: (usize, usize))
    requires
        cells@.len() == chs.len(),
        forall|j: int| 0 <= j < chs.len() ==> #[trigger] cells@[j] as nat == spec_char_cells(chs[j]),
        cursor <= chs.len(),
        width >= 2,
    ensures
        (r.0 as int, r.1 as int) == spec_grow_window(chs, width as nat, cursor as int, cursor as int),
        r.0 <= cursor <= r.1 <= chs.len(),
{
    let n = cells.len();
    let mut start = cursor;
    let mut end = cursor;
    let mut content: usize = 0;
    let mut progressed = true;
    while progressed
        invariant
            0 <= start <= cursor <= end <= n,
            cells@.len() == chs.len(),
            n == chs.len(),
            cells@.len() == n,
            forall|j: int| 0 <= j < n ==> #[trigger] cells@[j] as nat == spec_char_cells(chs[j]),
            content as nat == spec_cells_sum(chs, start as int, end as int),
            content <= width,
            width >= 2,
            progressed ==> spec_grow_window(chs, width as nat, cursor as int, cursor as int)
                == spec_grow_window(chs, width as nat, start as int, end as int),
            !progressed ==> spec_grow_window(chs, width as nat, cursor as int, cursor as int) == (
            start as int, end as int),
        decreases start + (n - end), if progressed { 1int } else { 0int },
    {
        let ghost (s0, e0) = (start as int, end as int);
        let mut moved = false;
        if start > 0 {
            let w = cells[start - 1];
            let left_flag: usize = if start - 1 > 0 {
                1
            } else {
                0
            };
            let right_flag: usize = if end < n {
                1
            } else {
                0
            };
            let fixed = 1 + left_flag + right_flag;
            proof {
                lemma_cells_sum_front(chs, start as int, end as int);
            }
            if w <= width && content <= width - w && fixed <= width - w - content {
                start = start - 1;
                content = content + w;
                moved = true;
            }
        }
        if end < n {
            let w = cells[end];
            let left_flag: usize = if start > 0 {
                1
            } else {
                0
            };
            let right_flag: usize = if end + 1 < n {
                1
            } else {
                0
            };
            let fixed = 1 + left_flag + right_flag;
            if w <= width && content <= width - w && fixed <= width - w - content {
                end = end + 1;
                content = content + w;
                moved = true;
            }
        }
        proof {
            let a2 = if s0 > 0 && spec_window_width(chs, s0 - 1, e0) <= width {
                s0 - 1
            } else {
                s0
            };
            assert(a2 == start);
            let b2 = if e0 < chs.len() && spec_window_width(chs, a2, e0 + 1) <= width {
                e0 + 1
            } else {
                e0
            };
            assert(b2 == end);
        }
        progressed = moved;
    }
    (start, end)
}

pub fn input_value_window(value: &str, cursor: usize, width: usize, secret: bool) -> (r: String)
    ensures
        r@ == spec_input_window(value@, cursor, width, secret),
{
    if width == 0 {
        return String::new();
    }
    let raw = chars_of(value);
    let mut ch: Vec<char> = Vec::new();
    let mut k: usize = 0;
    while k < raw.len()
        invariant
            k <= raw@.len(),
            raw@ == value@,
            ch@ == spec_input_chars(value@, secret).take(k as int),
        decreases raw@.len() - k,
    {
        ch.push(if secret {
            '•'
        } else {
            raw[k]
        });
        k = k + 1;
        proof {
            assert(ch@ =~= spec_input_chars(value@, secret).take(k as int));
        }
    }
    proof {
        assert(ch@ =~= spec_input_chars(value@, secret));
    }
    let n = ch.len();
    let cursor = if cursor < n {
        cursor
    } else {
        n
    };
    if width == 1 {
        return String::from_str("│");
    }
    let ghost chs = ch@;
    // widths of the characters, each at least one column
    let mut cells: Vec<usize> = Vec::new();
    let mut k: usize = 0;
    while k < n
        invariant
            k <= n,
            n == chs.len(),
            ch@ == chs,
            cells@.len() == k,
            forall|j: int| 0 <= j < k ==> #[trigger] cells@[j] as nat == spec_char_cells(chs[j]),
        decreases n - k,
    {
        cells.push(char_cells(ch[k]));
        k = k + 1;
    }
    let (start, end) = grow_window(&cells, Ghost(chs), cursor, width);
    let mut out = String::new();
    if start > 0 {
        string_push(&mut out, '‹');
    }
    let mut k = start;
    while k < cursor
        invariant
            start <= k <= cursor <= end <= n,
            ch@ == chs,
            n == chs.len(),
            out@ == (if start > 0 {
                seq!['‹']
            } else {
                Seq::empty()
            }) + chs.subrange(start as int, k as int),
        decreases cursor - k,
    {
        string_push(&mut out, ch[k]);
        k = k + 1;
        proof {
            assert(out@ =~= (if start > 0 {
                seq!['‹']
            } else {
                Seq::empty()
            }) + chs.subrange(start as int, k as int));
        }
    }
    string_push(&mut out, '│');
    let ghost head = out@;
    let mut k = cursor;
    while k < end
        invariant
            cursor <= k <= end <= n,
            ch@ == chs,
            n == chs.len(),
            out@ == head + chs.subrange(cursor as int, k as int),
        decreases end - k,
    {
        string_push(&mut out, ch[k]);
        k = k + 1;
        proof {
            assert(out@ =~= head + chs.subrange(cursor as int, k as int));
        }
    }
    if end < n {
        string_push(&mut out, '›');
    }
    proof {
        reveal_strlit("‹");
        reveal_strlit("›");
        reveal_strlit("│");
        let left: Seq<char> = if start > 0 {
            "‹"@
        } else {
            Seq::empty()
        };
        let right: Seq<char> = if end < n {
            "›"@
        } else {
            Seq::empty()
        };
        assert(out@ =~= left + chs.subrange(start as int, cursor as int) + "│"@ + chs.subrange(
            cursor as int,
            end as int,
        ) + right);
    }
    out
}

/// A labelled value wrapped to `content_width` columns: the first chunk follows the
/// label, the others are indented by the label's width.
pub open spec fn spec_wrapped_field(label: Seq<char>, value: Seq<char>, content_width: usize) -> Seq<(Seq<char>, Seq<char>)> {
    let lw = spec_display_width(label);
    let vw: nat = if content_width <= lw || content_width - lw < 1 {
        1
    } else {
        (content_width - lw) as nat
    };
    let chunks = spec_hard_wrap(value, vw);
    Seq::new(chunks.len(), |k: int| (if k == 0 {
        label
    } else {
        spec_spaces(lw)
    }, chunks[k]))
}

pub fn wrapped_field_parts(label: &str, value: &str, content_width: usize) -> (r: Vec<(String, String)>)
    ensures
        r@.len() == spec_wrapped_field(label@, value@, content_width).len(),
        forall|k: int|
            0 <= k < r@.len() ==> (#[trigger] r@[k]).0@ == spec_wrapped_field(label@, value@, content_width)[k].0
                && r@[k].1@ == spec_wrapped_field(label@, value@, content_width)[k].1,
{
    let label_width = display_width(label);
    let value_width: usize = if content_width <= label_width {
        1
    } else {
        content_width - label_width
    };
    let chunks = hard_wrap_value(value, value_width);
    let ghost cv = spec_string_views(chunks@);
    let mut out: Vec<(String, String)> = Vec::new();
    let mut k: usize = 0;
    while k < chunks.len()
        invariant
            k <= chunks@.len(),
            cv == spec_string_views(chunks@),
            cv == spec_hard_wrap(value@, value_width as nat),
            label_width as nat == spec_display_width(label@),
            value_width == (if content_width <= label_width { 1 } else { content_width - label_width }),
            out@.len() == k,
            forall|j: int|
                0 <= j < k ==> (#[trigger] out@[j]).0@ == spec_wrapped_field(label@, value@, content_width)[j].0
                    && out@[j].1@ == spec_wrapped_field(label@, value@, content_width)[j].1,
        decreases chunks@.len() - k,
    {
        let head = if k == 0 {
            label.to_owned()
        } else {
            let mut pad = String::new();
            push_spaces(&mut pad, label_width);
            pad
        };
        out.push((head, chunks[k].clone()));
        proof {
            assert(cv[k as int] == chunks@[k as int]@);
        }
        k = k + 1;
    }
    out
}
} // verus!
