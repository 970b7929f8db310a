//! Editing the Provision form's fields: moving between fields, moving the cursor,
//! typing and deleting characters. The form holds the field texts; each edit takes the
//! selected field's text as it stands and gives back the new text when it changes.

use vstd::prelude::*;
use crate::capacity::{spec_accepts, spec_rejection_message, ProvisionInputPolicy};
use crate::provision::ProvisionState;
use crate::state::AppState;
use crate::text::{chars_of, is_control, spec_is_control, string_from_chars};

verus! {

/// The longest field text, in characters, that typing still extends.
pub const PROVISION_FIELD_MAX_CHARS: usize = 128;

/// The cursor as the field sees it: the stored cursor, at most the text's length; 0
/// when no text field is selected.
pub open spec fn spec_field_cursor(cursor: usize, field: Option<&str>) -> int {
    match field {
        Some(f) => if cursor <= f@.len() {
            cursor as int
        } else {
            f@.len() as int
        },
        None => 0,
    }
}

/// `f` with `ch` put in before position `at`.
pub open spec fn spec_inserted(f: Seq<char>, at: int, ch: char) -> Seq<char> {
    f.take(at) + seq![ch] + f.skip(at)
}

/// `n + delta`, kept between 0 and `max`.
pub open spec fn spec_moved(n: int, delta: int, max: int) -> int {
    if delta < 0 {
        if n + delta < 0 {
            0
        } else {
            n + delta
        }
    } else if n + delta > max {
        max
    } else {
        n + delta
    }
}

/// `new` is `old` with only the Provision field cursor and message replaced.
pub open spec fn spec_edit_state(old: AppState, new: AppState, cursor: int) -> bool {
    new == (AppState {
        provision: ProvisionState { field_cursor: cursor as usize, message: new.provision.message, ..old.provision },
        ..old
    })
}

fn clamp_cursor(cursor: usize, len: usize) -> (r: usize)
    ensures
        r == if cursor <= len { cursor } else { len },
{
    if cursor <= len {
        cursor
    } else {
        len
    }
}

fn moved_index(n: usize, delta: isize, max: usize) -> (r: usize)
    requires
        delta >= 0 ==> n + delta <= usize::MAX,
        n <= max || delta < 0,
    ensures
        r == spec_moved(n as int, delta as int, max as int),
{
    if delta < 0 {
        let back: u128 = (0i128 - (delta as i128)) as u128;
        if (n as u128) <= back {
            0
        } else {
            (n as u128 - back) as usize
        }
    } else {
        let step: usize = delta as usize;
        if n + step > max {
            max
        } else {
            n + step
        }
    }
}

impl AppState {
    /// Move the field selection by `delta` within the form's fields, whose texts are
    /// `field_lengths` characters long (0 for a field that holds no text), and put the
    /// cursor at the end of the newly selected field (at 0 where a selection left over
    /// from a longer form names no field). Without fields nothing moves.
    pub fn provision_move_field(&mut self, delta: isize, field_lengths: &[usize])
        requires
            delta >= 0 ==> old(self).provision.field_selected + delta <= usize::MAX,
        ensures
            field_lengths@.len() == 0 ==> *final(self) == *old(self),
            field_lengths@.len() > 0 ==> {
                let s = spec_moved(
                    old(self).provision.field_selected as int,
                    delta as int,
                    field_lengths@.len() - 1,
                );
                *final(self) == (AppState {
                    provision: ProvisionState {
                        field_selected: s as usize,
                        field_cursor: if s < field_lengths@.len() { field_lengths@[s] } else { 0 },
                        ..old(self).provision
                    },
                    ..*old(self)
                })
            },
    {
        let count = field_lengths.len();
        if count == 0 {
            return;
        }
        let selected = if delta < 0 {
            moved_index(self.provision.field_selected, delta, count - 1)
        } else {
            let step: usize = delta as usize;
            if self.provision.field_selected + step > count - 1 {
                count - 1
            } else {
                self.provision.field_selected + step
            }
        };
        self.provision.field_selected = selected;
        self.provision.field_cursor = if selected < count {
            field_lengths[selected]
        } else {
            0
        };
    }

    /// Move the cursor by `delta` within the selected field's text `field`: left stops at
    /// the start, right at the end. Without a text field nothing moves.
    pub fn provision_move_cursor(&mut self, delta: isize, field: Option<&str>)
        requires
            delta >= 0 ==> old(self).provision.field_cursor + delta <= usize::MAX,
        ensures
            field is None ==> *final(self) == *old(self),
            field matches Some(f) ==> *final(self) == (AppState {
                provision: ProvisionState {
                    field_cursor: (if delta < 0 {
                        spec_moved(old(self).provision.field_cursor as int, delta as int, 0)
                    } else {
                        spec_moved(old(self).provision.field_cursor as int, delta as int, f@.len() as int)
                    }) as usize,
                    ..old(self).provision
                },
                ..*old(self)
            }),
    {
        let value = match field {
            Some(v) => v,
            None => return,
        };
        let len = value.unicode_len();
        let cursor = self.provision.field_cursor;
        self.provision.field_cursor = if delta < 0 {
            moved_index(cursor, delta, 0)
        } else {
            let step: usize = delta as usize;
            if cursor + step > len {
                len
            } else {
                cursor + step
            }
        };
    }

    /// The cursor to the start of the selected text field.
    pub fn provision_cursor_home(&mut self, field: Option<&str>)
        ensures
            field is None ==> *final(self) == *old(self),
            field is Some ==> *final(self) == (AppState {
                provision: ProvisionState { field_cursor: 0, ..old(self).provision },
                ..*old(self)
            }),
    {
        if field.is_some() {
            self.provision.field_cursor = 0;
        }
    }

    /// The cursor to the end of the selected field's text (to 0 without a text field).
    pub fn provision_cursor_end(&mut self, field: Option<&str>)
        ensures
            *final(self) == (AppState {
                provision: ProvisionState {
                    field_cursor: match field {
                        Some(f) => f@.len() as usize,
                        None => 0,
                    },
                    ..old(self).provision
                },
                ..*old(self)
            }),
    {
        self.provision.field_cursor = match field {
            Some(v) => v.unicode_len(),
            None => 0,
        };
    }

    /// Type `ch` into the selected field `field` at the cursor, under the field's input
    /// `policy`. Control characters, a missing text field and a field already holding
    /// the longest text change nothing. A text the policy refuses leaves the field as it
    /// was and shows the policy's message; otherwise the new text comes back, the cursor
    /// moves past the character and the message is cleared.
    pub fn provision_push_char(&mut self, ch: char, field: Option<&str>, policy: ProvisionInputPolicy) -> (r: Option<String>)
        ensures
            spec_is_control(ch) || field is None ==> r is None && *final(self) == *old(self),
            field matches Some(f) ==> (!spec_is_control(ch) && f@.len() >= 128 ==> r is None && *final(self) == *old(self)),
            field matches Some(f) ==> (!spec_is_control(ch) && f@.len() < 128 ==> {
                let at = spec_field_cursor(old(self).provision.field_cursor, field);
                let candidate = spec_inserted(f@, at, ch);
                if spec_accepts(policy, candidate) {
                    &&& r matches Some(t) && t@ == candidate
                    &&& spec_edit_state(*old(self), *final(self), at + 1)
                    &&& final(self).provision.message is None
                } else {
                    &&& r is None
                    &&& spec_edit_state(*old(self), *final(self), old(self).provision.field_cursor as int)
                    &&& final(self).provision.message matches Some(m) && m@ == spec_rejection_message(policy)
                }
            }),
    {
        if is_control(ch) {
            return None;
        }
        let value = match field {
            Some(v) => v,
            None => return None,
        };
        let chars = chars_of(value);
        let len = chars.len();
        if len >= PROVISION_FIELD_MAX_CHARS {
            return None;
        }
        let at = clamp_cursor(self.provision.field_cursor, len);
        let mut next: Vec<char> = Vec::new();
        let mut i: usize = 0;
        while i < at
            invariant
                at <= len == chars@.len(),
                i <= at,
                next@ == chars@.take(i as int),
            decreases at - i,
        {
            next.push(chars[i]);
            i = i + 1;
            assert(next@ =~= chars@.take(i as int));
        }
        next.push(ch);
        let mut j: usize = at;
        while j < len
            invariant
                at <= j <= len == chars@.len(),
                next@ == chars@.take(at as int) + seq![ch] + chars@.subrange(at as int, j as int),
            decreases len - j,
        {
            next.push(chars[j]);
            j = j + 1;
            assert(next@ =~= chars@.take(at as int) + seq![ch] + chars@.subrange(at as int, j as int));
        }
        assert(chars@.subrange(at as int, len as int) =~= chars@.skip(at as int));
        let candidate = string_from_chars(next.as_slice());
        assert(candidate@ == spec_inserted(value@, at as int, ch));
        if !policy.accepts(candidate.as_str()) {
            self.provision.message = Some(String::from_str(policy.rejection_message()));
            return None;
        }
        self.provision.field_cursor = at + 1;
        self.provision.message = None;
        Some(candidate)
    }

    /// Delete the character before the cursor in the selected field `field`: the new
    /// text comes back, the cursor moves back one and the message is cleared. At the
    /// start of the field, or without a text field, nothing changes.
    pub fn provision_backspace(&mut self, field: Option<&str>) -> (r: Option<String>)
        ensures
            spec_field_cursor(old(self).provision.field_cursor, field) == 0 ==> r is None && *final(self) == *old(self),
            field matches Some(f) ==> ({
                let at = spec_field_cursor(old(self).provision.field_cursor, field);
                at > 0 ==> {
                    &&& r matches Some(t) && t@ == f@.remove(at - 1)
                    &&& spec_edit_state(*old(self), *final(self), at - 1)
                    &&& final(self).provision.message is None
                }
            }),
    {
        let value = match field {
            Some(v) => v,
            None => return None,
        };
        let chars = chars_of(value);
        let at = clamp_cursor(self.provision.field_cursor, chars.len());
        if at == 0 {
            return None;
        }
        let next = without_char(&chars, at - 1);
        let text = string_from_chars(next.as_slice());
        self.provision.field_cursor = at - 1;
        self.provision.message = None;
        Some(text)
    }

    /// Delete the character under the cursor in the selected field `field`: the new
    /// text comes back and the message is cleared; the cursor stays. At the end of the
    /// field, or without a text field, nothing changes.
    pub fn provision_delete_char(&mut self, field: Option<&str>) -> (r: Option<String>)
        ensures
            field is None ==> r is None && *final(self) == *old(self),
            field matches Some(f) ==> ({
                let at = spec_field_cursor(old(self).provision.field_cursor, field);
                &&& at < f@.len() ==> {
                    &&& r matches Some(t) && t@ == f@.remove(at)
                    &&& spec_edit_state(*old(self), *final(self), old(self).provision.field_cursor as int)
                    &&& final(self).provision.message is None
                }
                &&& at >= f@.len() ==> r is None && *final(self) == *old(self)
            }),
    {
        let value = match field {
            Some(v) => v,
            None => return None,
        };
        let chars = chars_of(value);
        let at = clamp_cursor(self.provision.field_cursor, chars.len());
        if at >= chars.len() {
            return None;
        }
        let next = without_char(&chars, at);
        let text = string_from_chars(next.as_slice());
        self.provision.message = None;
        Some(text)
    }
}

/// Backspace straight after typing a character takes it out again: the text typed
/// into comes back, and the cursor left after the typed character, being within the new
/// text, steps back to where it was.
pub proof fn lemma_backspace_undoes_typing(f: Seq<char>, at: int, ch: char)
    requires
        0 <= at <= f.len(),
    ensures
        spec_inserted(f, at, ch).remove(at) == f,
        at + 1 <= spec_inserted(f, at, ch).len(),
{
    assert(spec_inserted(f, at, ch).remove(at) =~= f);
}

fn without_char(chars: &Vec<char>, k: usize) -> (r: Vec<char>)
    requires
        k < chars@.len(),
    ensures
        r@ == chars@.remove(k as int),
{
    let mut r: Vec<char> = Vec::new();
    let mut i: usize = 0;
    while i < chars.len()
        invariant
            k < chars@.len(),
            i <= chars@.len(),
            i <= k ==> r@ == chars@.take(i as int),
            i > k ==> r@ == chars@.take(k as int) + chars@.subrange(k + 1, i as int),
        decreases chars.len() - i,
    {
        if i != k {
            r.push(chars[i]);
        }
        proof {
            if i < k {
                assert(r@ =~= chars@.take(i + 1));
            } else if i == k {
                assert(r@ =~= chars@.take(k as int) + chars@.subrange(k + 1, i + 1));
            } else {
                assert(r@ =~= chars@.take(k as int) + chars@.subrange(k + 1, i + 1));
            }
        }
        i = i + 1;
    }
    assert(r@ =~= chars@.remove(k as int));
    r
}

} // verus!
