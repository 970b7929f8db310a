//! The internal command palette: typed intents only, never shell text.

use vstd::prelude::*;
use crate::text::{
    ascii_lower_chars, chars_eq, chars_of, concat, spec_ascii_lower, spec_is_whitespace,
    spec_lead_ws, spec_trail_ws, spec_trim, trim_chars,
};

verus! {

#[derive(Debug, Clone, Copy, PartialEq, Eq, Structural)]
pub enum PaletteAction {
    Devices,
    Backups,
    Provision,
    OfflineConvert,
    Inspect,
    Apply,
    Restore,
    BackupCreate,
    BackupCreateDeep,
    BackupVerify,
    BackupDelete,
    BackupPrune,
    Refresh,
    Help,
    Quit,
}

/// Number of leading `':'` characters.
pub open spec fn spec_lead_colons(s: Seq<char>) -> nat
    decreases s.len(),
{
    if s.len() > 0 && s[0] == ':' {
        1 + spec_lead_colons(s.drop_first())
    } else {
        0
    }
}

/// The command word: trimmed, leading colons removed, trimmed again, ASCII-lowercased.
pub open spec fn spec_command_word(input: Seq<char>) -> Seq<char> {
    let t = spec_trim(input);
    spec_ascii_lower(spec_trim(t.skip(spec_lead_colons(t) as int)))
}

/// The action a command word names, if any.
pub open spec fn spec_action_of(w: Seq<char>) -> Option<PaletteAction> {
    if w == "devices"@ || w == "device"@ || w == "list"@ || w == "info"@ || w == "d"@ {
        Some(PaletteAction::Devices)
    } else if w == "backups"@ || w == "backup"@ || w == "b"@ {
        Some(PaletteAction::Backups)
    } else if w == "provision"@ || w == "make"@ || w == "p"@ {
        Some(PaletteAction::Provision)
    } else if w == "convert"@ || w == "offline-convert"@ || w == "offline"@ || w == "oc"@ {
        Some(PaletteAction::OfflineConvert)
    } else if w == "inspect"@ || w == "i"@ {
        Some(PaletteAction::Inspect)
    } else if w == "apply"@ || w == "a"@ {
        Some(PaletteAction::Apply)
    } else if w == "restore"@ || w == "r"@ {
        Some(PaletteAction::Restore)
    } else if w == "backup-create"@ || w == "create-backup"@ || w == "bc"@ {
        Some(PaletteAction::BackupCreate)
    } else if w == "backup-deep"@ || w == "deep-backup"@ || w == "bdp"@ {
        Some(PaletteAction::BackupCreateDeep)
    } else if w == "backup-verify"@ || w == "verify-backup"@ || w == "verify"@ || w == "v"@ {
        Some(PaletteAction::BackupVerify)
    } else if w == "backup-delete"@ || w == "delete-backup"@ || w == "delete"@ || w == "bd"@ {
        Some(PaletteAction::BackupDelete)
    } else if w == "backup-prune"@ || w == "prune"@ || w == "bp"@ {
        Some(PaletteAction::BackupPrune)
    } else if w == "refresh"@ || w == "reload"@ {
        Some(PaletteAction::Refresh)
    } else if w == "help"@ || w == "h"@ || w == "?"@ {
        Some(PaletteAction::Help)
    } else if w == "quit"@ || w == "q"@ {
        Some(PaletteAction::Quit)
    } else {
        None
    }
}

/// What the palette makes of a typed line: its action, or the refusal shown.
pub open spec fn spec_command_outcome(line: Seq<char>) -> Result<PaletteAction, Seq<char>> {
    match spec_action_of(spec_command_word(line)) {
        Some(a) => Ok(a),
        None => if spec_command_word(line).len() == 0 {
            Err("命令不能为空"@)
        } else {
            Err("未知 TUI 命令: "@ + line)
        },
    }
}

fn strip_lead_colons(v: &Vec<char>) -> (r: Vec<char>)
    ensures
        r@ == v@.skip(spec_lead_colons(v@) as int),
{
    let mut i: usize = 0;
    assert(v@.skip(0) =~= v@);
    while i < v.len() && v[i] == ':'
        invariant
            i <= v.len(),
            spec_lead_colons(v@) == i + spec_lead_colons(v@.skip(i as int)),
        decreases v.len() - i,
    {
        assert(v@.skip(i as int).drop_first() =~= v@.skip(i + 1));
        i = i + 1;
    }
    assert(spec_lead_colons(v@.skip(i as int)) == 0);
    let mut r: Vec<char> = Vec::new();
    let mut j = i;
    while j < v.len()
        invariant
            i <= j <= v.len(),
            r@ == v@.subrange(i as int, j as int),
        decreases v.len() - j,
    {
        r.push(v[j]);
        j = j + 1;
        assert(r@ =~= v@.subrange(i as int, j as int));
    }
    r
}

fn is_word(w: &Vec<char>, lit: &str) -> (r: bool)
    ensures
        r == (w@ == lit@),
{
    let l = chars_of(lit);
    chars_eq(w.as_slice(), l.as_slice())
}

/// Map a palette line to its action; empty and unknown commands are rejected.
pub fn parse_command(input: &str) -> (r: Result<PaletteAction, String>)
    ensures
        spec_action_of(spec_command_word(input@)) matches Some(a) ==> r == Ok::<
            PaletteAction,
            String,
        >(a),
        spec_action_of(spec_command_word(input@)) is None && spec_command_word(input@).len() == 0
            ==> (r matches Err(e) && e@ == "命令不能为空"@),
        spec_action_of(spec_command_word(input@)) is None && spec_command_word(input@).len() > 0
            ==> (r matches Err(e) && e@ == "未知 TUI 命令: "@ + input@),
        match spec_command_outcome(input@) {
            Ok(a) => r == Ok::<PaletteAction, String>(a),
            Err(m) => r matches Err(e) && e@ == m,
        },
{
    let raw = chars_of(input);
    let t = trim_chars(&raw);
    let s = strip_lead_colons(&t);
    let t2 = trim_chars(&s);
    let w = ascii_lower_chars(&t2);
    assert(w@ == spec_command_word(input@));
    if is_word(&w, "devices") || is_word(&w, "device") || is_word(&w, "list") || is_word(&w, "info")
        || is_word(&w, "d") {
        Ok(PaletteAction::Devices)
    } else if is_word(&w, "backups") || is_word(&w, "backup") || is_word(&w, "b") {
        Ok(PaletteAction::Backups)
    } else if is_word(&w, "provision") || is_word(&w, "make") || is_word(&w, "p") {
        Ok(PaletteAction::Provision)
    } else if is_word(&w, "convert") || is_word(&w, "offline-convert") || is_word(&w, "offline")
        || is_word(&w, "oc") {
        Ok(PaletteAction::OfflineConvert)
    } else if is_word(&w, "inspect") || is_word(&w, "i") {
        Ok(PaletteAction::Inspect)
    } else if is_word(&w, "apply") || is_word(&w, "a") {
        Ok(PaletteAction::Apply)
    } else if is_word(&w, "restore") || is_word(&w, "r") {
        Ok(PaletteAction::Restore)
    } else if is_word(&w, "backup-create") || is_word(&w, "create-backup") || is_word(&w, "bc") {
        Ok(PaletteAction::BackupCreate)
    } else if is_word(&w, "backup-deep") || is_word(&w, "deep-backup") || is_word(&w, "bdp") {
        Ok(PaletteAction::BackupCreateDeep)
    } else if is_word(&w, "backup-verify") || is_word(&w, "verify-backup") || is_word(&w, "verify")
        || is_word(&w, "v") {
        Ok(PaletteAction::BackupVerify)
    } else if is_word(&w, "backup-delete") || is_word(&w, "delete-backup") || is_word(&w, "delete")
        || is_word(&w, "bd") {
        Ok(PaletteAction::BackupDelete)
    } else if is_word(&w, "backup-prune") || is_word(&w, "prune") || is_word(&w, "bp") {
        Ok(PaletteAction::BackupPrune)
    } else if is_word(&w, "refresh") || is_word(&w, "reload") {
        Ok(PaletteAction::Refresh)
    } else if is_word(&w, "help") || is_word(&w, "h") || is_word(&w, "?") {
        Ok(PaletteAction::Help)
    } else if is_word(&w, "quit") || is_word(&w, "q") {
        Ok(PaletteAction::Quit)
    } else if w.len() == 0 {
        Err(String::from_str("命令不能为空"))
    } else {
        Err(concat("未知 TUI 命令: ", input))
    }
}

/// Every palette line whose command word is `word` runs `action`.
pub open spec fn spec_word_names(word: Seq<char>, action: PaletteAction) -> bool {
    forall|line: Seq<char>|
        spec_command_word(line) == word ==> #[trigger] spec_command_outcome(line) == Ok::<
            PaletteAction,
            Seq<char>,
        >(action)
}

/// The palette's command words and the actions they run.
#[verifier::spinoff_prover]
pub proof fn lemma_palette_words()
    ensures
        spec_word_names("devices"@, PaletteAction::Devices),
        spec_word_names("device"@, PaletteAction::Devices),
        spec_word_names("list"@, PaletteAction::Devices),
        spec_word_names("info"@, PaletteAction::Devices),
        spec_word_names("d"@, PaletteAction::Devices),
        spec_word_names("backups"@, PaletteAction::Backups),
        spec_word_names("backup"@, PaletteAction::Backups),
        spec_word_names("b"@, PaletteAction::Backups),
        spec_word_names("provision"@, PaletteAction::Provision),
        spec_word_names("make"@, PaletteAction::Provision),
        spec_word_names("p"@, PaletteAction::Provision),
        spec_word_names("convert"@, PaletteAction::OfflineConvert),
        spec_word_names("offline-convert"@, PaletteAction::OfflineConvert),
        spec_word_names("offline"@, PaletteAction::OfflineConvert),
        spec_word_names("oc"@, PaletteAction::OfflineConvert),
        spec_word_names("inspect"@, PaletteAction::Inspect),
        spec_word_names("i"@, PaletteAction::Inspect),
        spec_word_names("apply"@, PaletteAction::Apply),
        spec_word_names("a"@, PaletteAction::Apply),
        spec_word_names("restore"@, PaletteAction::Restore),
        spec_word_names("r"@, PaletteAction::Restore),
        spec_word_names("backup-create"@, PaletteAction::BackupCreate),
        spec_word_names("create-backup"@, PaletteAction::BackupCreate),
        spec_word_names("bc"@, PaletteAction::BackupCreate),
        spec_word_names("backup-deep"@, PaletteAction::BackupCreateDeep),
        spec_word_names("deep-backup"@, PaletteAction::BackupCreateDeep),
        spec_word_names("bdp"@, PaletteAction::BackupCreateDeep),
        spec_word_names("backup-verify"@, PaletteAction::BackupVerify),
        spec_word_names("verify-backup"@, PaletteAction::BackupVerify),
        spec_word_names("verify"@, PaletteAction::BackupVerify),
        spec_word_names("v"@, PaletteAction::BackupVerify),
        spec_word_names("backup-delete"@, PaletteAction::BackupDelete),
        spec_word_names("delete-backup"@, PaletteAction::BackupDelete),
        spec_word_names("delete"@, PaletteAction::BackupDelete),
        spec_word_names("bd"@, PaletteAction::BackupDelete),
        spec_word_names("backup-prune"@, PaletteAction::BackupPrune),
        spec_word_names("prune"@, PaletteAction::BackupPrune),
        spec_word_names("bp"@, PaletteAction::BackupPrune),
        spec_word_names("refresh"@, PaletteAction::Refresh),
        spec_word_names("reload"@, PaletteAction::Refresh),
        spec_word_names("help"@, PaletteAction::Help),
        spec_word_names("h"@, PaletteAction::Help),
        spec_word_names("?"@, PaletteAction::Help),
        spec_word_names("quit"@, PaletteAction::Quit),
        spec_word_names("q"@, PaletteAction::Quit),
{
    reveal_strlit("devices");
    reveal_strlit("device");
    reveal_strlit("list");
    reveal_strlit("info");
    reveal_strlit("d");
    reveal_strlit("backups");
    reveal_strlit("backup");
    reveal_strlit("b");
    reveal_strlit("provision");
    reveal_strlit("make");
    reveal_strlit("p");
    reveal_strlit("convert");
    reveal_strlit("offline-convert");
    reveal_strlit("offline");
    reveal_strlit("oc");
    reveal_strlit("inspect");
    reveal_strlit("i");
    reveal_strlit("apply");
    reveal_strlit("a");
    reveal_strlit("restore");
    reveal_strlit("r");
    reveal_strlit("backup-create");
    reveal_strlit("create-backup");
    reveal_strlit("bc");
    reveal_strlit("backup-deep");
    reveal_strlit("deep-backup");
    reveal_strlit("bdp");
    reveal_strlit("backup-verify");
    reveal_strlit("verify-backup");
    reveal_strlit("verify");
    reveal_strlit("v");
    reveal_strlit("backup-delete");
    reveal_strlit("delete-backup");
    reveal_strlit("delete");
    reveal_strlit("bd");
    reveal_strlit("backup-prune");
    reveal_strlit("prune");
    reveal_strlit("bp");
    reveal_strlit("refresh");
    reveal_strlit("reload");
    reveal_strlit("help");
    reveal_strlit("h");
    reveal_strlit("?");
    reveal_strlit("quit");
    reveal_strlit("q");
    assert("devices"@.len() == 7);
    assert("device"@.len() == 6);
    assert("list"@.len() == 4);
    assert("info"@.len() == 4);
    assert("d"@.len() == 1);
    assert("backups"@.len() == 7);
    assert("backup"@.len() == 6);
    assert("b"@.len() == 1);
    assert("provision"@.len() == 9);
    assert("make"@.len() == 4);
    assert("p"@.len() == 1);
    assert("convert"@.len() == 7);
    assert("offline-convert"@.len() == 15);
    assert("offline"@.len() == 7);
    assert("oc"@.len() == 2);
    assert("inspect"@.len() == 7);
    assert("i"@.len() == 1);
    assert("apply"@.len() == 5);
    assert("a"@.len() == 1);
    assert("restore"@.len() == 7);
    assert("r"@.len() == 1);
    assert("backup-create"@.len() == 13);
    assert("create-backup"@.len() == 13);
    assert("bc"@.len() == 2);
    assert("backup-deep"@.len() == 11);
    assert("deep-backup"@.len() == 11);
    assert("bdp"@.len() == 3);
    assert("backup-verify"@.len() == 13);
    assert("verify-backup"@.len() == 13);
    assert("verify"@.len() == 6);
    assert("v"@.len() == 1);
    assert("backup-delete"@.len() == 13);
    assert("delete-backup"@.len() == 13);
    assert("delete"@.len() == 6);
    assert("bd"@.len() == 2);
    assert("backup-prune"@.len() == 12);
    assert("prune"@.len() == 5);
    assert("bp"@.len() == 2);
    assert("refresh"@.len() == 7);
    assert("reload"@.len() == 6);
    assert("help"@.len() == 4);
    assert("h"@.len() == 1);
    assert("?"@.len() == 1);
    assert("quit"@.len() == 4);
    assert("q"@.len() == 1);
    assert("info"@[0] != "list"@[0]);
    assert("backups"@[0] != "devices"@[0]);
    assert("backup"@[0] != "device"@[0]);
    assert("b"@[0] != "d"@[0]);
    assert("make"@[0] != "list"@[0]);
    assert("make"@[0] != "info"@[0]);
    assert("p"@[0] != "d"@[0]);
    assert("p"@[0] != "b"@[0]);
    assert("convert"@[0] != "devices"@[0]);
    assert("convert"@[0] != "backups"@[0]);
    assert("offline"@[0] != "devices"@[0]);
    assert("offline"@[0] != "backups"@[0]);
    assert("offline"@[0] != "convert"@[0]);
    assert("inspect"@[0] != "devices"@[0]);
    assert("inspect"@[0] != "backups"@[0]);
    assert("inspect"@[0] != "convert"@[0]);
    assert("inspect"@[0] != "offline"@[0]);
    assert("i"@[0] != "d"@[0]);
    assert("i"@[0] != "b"@[0]);
    assert("i"@[0] != "p"@[0]);
    assert("a"@[0] != "d"@[0]);
    assert("a"@[0] != "b"@[0]);
    assert("a"@[0] != "p"@[0]);
    assert("a"@[0] != "i"@[0]);
    assert("restore"@[0] != "devices"@[0]);
    assert("restore"@[0] != "backups"@[0]);
    assert("restore"@[0] != "convert"@[0]);
    assert("restore"@[0] != "offline"@[0]);
    assert("restore"@[0] != "inspect"@[0]);
    assert("r"@[0] != "d"@[0]);
    assert("r"@[0] != "b"@[0]);
    assert("r"@[0] != "p"@[0]);
    assert("r"@[0] != "i"@[0]);
    assert("r"@[0] != "a"@[0]);
    assert("create-backup"@[0] != "backup-create"@[0]);
    assert("bc"@[0] != "oc"@[0]);
    assert("deep-backup"@[0] != "backup-deep"@[0]);
    assert("backup-verify"@[7] != "backup-create"@[7]);
    assert("backup-verify"@[0] != "create-backup"@[0]);
    assert("verify-backup"@[0] != "backup-create"@[0]);
    assert("verify-backup"@[0] != "create-backup"@[0]);
    assert("verify-backup"@[0] != "backup-verify"@[0]);
    assert("verify"@[0] != "device"@[0]);
    assert("verify"@[0] != "backup"@[0]);
    assert("v"@[0] != "d"@[0]);
    assert("v"@[0] != "b"@[0]);
    assert("v"@[0] != "p"@[0]);
    assert("v"@[0] != "i"@[0]);
    assert("v"@[0] != "a"@[0]);
    assert("v"@[0] != "r"@[0]);
    assert("backup-delete"@[7] != "backup-create"@[7]);
    assert("backup-delete"@[0] != "create-backup"@[0]);
    assert("backup-delete"@[7] != "backup-verify"@[7]);
    assert("backup-delete"@[0] != "verify-backup"@[0]);
    assert("delete-backup"@[0] != "backup-create"@[0]);
    assert("delete-backup"@[0] != "create-backup"@[0]);
    assert("delete-backup"@[0] != "backup-verify"@[0]);
    assert("delete-backup"@[0] != "verify-backup"@[0]);
    assert("delete-backup"@[0] != "backup-delete"@[0]);
    assert("delete"@[2] != "device"@[2]);
    assert("delete"@[0] != "backup"@[0]);
    assert("delete"@[0] != "verify"@[0]);
    assert("bd"@[0] != "oc"@[0]);
    assert("bd"@[1] != "bc"@[1]);
    assert("prune"@[0] != "apply"@[0]);
    assert("bp"@[0] != "oc"@[0]);
    assert("bp"@[1] != "bc"@[1]);
    assert("bp"@[1] != "bd"@[1]);
    assert("refresh"@[0] != "devices"@[0]);
    assert("refresh"@[0] != "backups"@[0]);
    assert("refresh"@[0] != "convert"@[0]);
    assert("refresh"@[0] != "offline"@[0]);
    assert("refresh"@[0] != "inspect"@[0]);
    assert("refresh"@[2] != "restore"@[2]);
    assert("reload"@[0] != "device"@[0]);
    assert("reload"@[0] != "backup"@[0]);
    assert("reload"@[0] != "verify"@[0]);
    assert("reload"@[0] != "delete"@[0]);
    assert("help"@[0] != "list"@[0]);
    assert("help"@[0] != "info"@[0]);
    assert("help"@[0] != "make"@[0]);
    assert("h"@[0] != "d"@[0]);
    assert("h"@[0] != "b"@[0]);
    assert("h"@[0] != "p"@[0]);
    assert("h"@[0] != "i"@[0]);
    assert("h"@[0] != "a"@[0]);
    assert("h"@[0] != "r"@[0]);
    assert("h"@[0] != "v"@[0]);
    assert("?"@[0] != "d"@[0]);
    assert("?"@[0] != "b"@[0]);
    assert("?"@[0] != "p"@[0]);
    assert("?"@[0] != "i"@[0]);
    assert("?"@[0] != "a"@[0]);
    assert("?"@[0] != "r"@[0]);
    assert("?"@[0] != "v"@[0]);
    assert("?"@[0] != "h"@[0]);
    assert("quit"@[0] != "list"@[0]);
    assert("quit"@[0] != "info"@[0]);
    assert("quit"@[0] != "make"@[0]);
    assert("quit"@[0] != "help"@[0]);
    assert("q"@[0] != "d"@[0]);
    assert("q"@[0] != "b"@[0]);
    assert("q"@[0] != "p"@[0]);
    assert("q"@[0] != "i"@[0]);
    assert("q"@[0] != "a"@[0]);
    assert("q"@[0] != "r"@[0]);
    assert("q"@[0] != "v"@[0]);
    assert("q"@[0] != "h"@[0]);
    assert("q"@[0] != "?"@[0]);
    assert(spec_action_of("devices"@) == Some(PaletteAction::Devices));
    assert(spec_action_of("device"@) == Some(PaletteAction::Devices));
    assert(spec_action_of("list"@) == Some(PaletteAction::Devices));
    assert(spec_action_of("info"@) == Some(PaletteAction::Devices));
    assert(spec_action_of("d"@) == Some(PaletteAction::Devices));
    assert(spec_action_of("backups"@) == Some(PaletteAction::Backups));
    assert(spec_action_of("backup"@) == Some(PaletteAction::Backups));
    assert(spec_action_of("b"@) == Some(PaletteAction::Backups));
    assert(spec_action_of("provision"@) == Some(PaletteAction::Provision));
    assert(spec_action_of("make"@) == Some(PaletteAction::Provision));
    assert(spec_action_of("p"@) == Some(PaletteAction::Provision));
    assert(spec_action_of("convert"@) == Some(PaletteAction::OfflineConvert));
    assert(spec_action_of("offline-convert"@) == Some(PaletteAction::OfflineConvert));
    assert(spec_action_of("offline"@) == Some(PaletteAction::OfflineConvert));
    assert(spec_action_of("oc"@) == Some(PaletteAction::OfflineConvert));
    assert(spec_action_of("inspect"@) == Some(PaletteAction::Inspect));
    assert(spec_action_of("i"@) == Some(PaletteAction::Inspect));
    assert(spec_action_of("apply"@) == Some(PaletteAction::Apply));
    assert(spec_action_of("a"@) == Some(PaletteAction::Apply));
    assert(spec_action_of("restore"@) == Some(PaletteAction::Restore));
    assert(spec_action_of("r"@) == Some(PaletteAction::Restore));
    assert(spec_action_of("backup-create"@) == Some(PaletteAction::BackupCreate));
    assert(spec_action_of("create-backup"@) == Some(PaletteAction::BackupCreate));
    assert(spec_action_of("bc"@) == Some(PaletteAction::BackupCreate));
    assert(spec_action_of("backup-deep"@) == Some(PaletteAction::BackupCreateDeep));
    assert(spec_action_of("deep-backup"@) == Some(PaletteAction::BackupCreateDeep));
    assert(spec_action_of("bdp"@) == Some(PaletteAction::BackupCreateDeep));
    assert(spec_action_of("backup-verify"@) == Some(PaletteAction::BackupVerify));
    assert(spec_action_of("verify-backup"@) == Some(PaletteAction::BackupVerify));
    assert(spec_action_of("verify"@) == Some(PaletteAction::BackupVerify));
    assert(spec_action_of("v"@) == Some(PaletteAction::BackupVerify));
    assert(spec_action_of("backup-delete"@) == Some(PaletteAction::BackupDelete));
    assert(spec_action_of("delete-backup"@) == Some(PaletteAction::BackupDelete));
    assert(spec_action_of("delete"@) == Some(PaletteAction::BackupDelete));
    assert(spec_action_of("bd"@) == Some(PaletteAction::BackupDelete));
    assert(spec_action_of("backup-prune"@) == Some(PaletteAction::BackupPrune));
    assert(spec_action_of("prune"@) == Some(PaletteAction::BackupPrune));
    assert(spec_action_of("bp"@) == Some(PaletteAction::BackupPrune));
    assert(spec_action_of("refresh"@) == Some(PaletteAction::Refresh));
    assert(spec_action_of("reload"@) == Some(PaletteAction::Refresh));
    assert(spec_action_of("help"@) == Some(PaletteAction::Help));
    assert(spec_action_of("h"@) == Some(PaletteAction::Help));
    assert(spec_action_of("?"@) == Some(PaletteAction::Help));
    assert(spec_action_of("quit"@) == Some(PaletteAction::Quit));
    assert(spec_action_of("q"@) == Some(PaletteAction::Quit));
}

/// The command word of a line is its word in ASCII lower case, whatever spaces surround
/// it and whether a `:` leads it: for a word `w` without whitespace that does not start
/// with `:`, the lines `w`, ` w ` and `:w` all have the word `w` lower-cased.
pub proof fn lemma_command_word_normalises(w: Seq<char>)
    requires
        w.len() > 0,
        w[0] != ':',
        forall|i: int| 0 <= i < w.len() ==> !spec_is_whitespace(#[trigger] w[i]),
    ensures
        spec_command_word(w) == spec_ascii_lower(w),
        spec_command_word(seq![' '] + w + seq![' ']) == spec_ascii_lower(w),
        spec_command_word(seq![':'] + w) == spec_ascii_lower(w),
{
    assert(!spec_is_whitespace(w[0]));
    assert(!spec_is_whitespace(w.last()));
    assert(spec_lead_ws(w) == 0);
    assert(spec_trail_ws(w) == 0);
    assert(w.skip(0) =~= w);
    assert(w.take(w.len() as int) =~= w);
    assert(spec_trim(w) == w);
    assert(spec_lead_colons(w) == 0);
    assert(spec_command_word(w) == spec_ascii_lower(w));

    let padded = seq![' '] + w + seq![' '];
    assert(spec_is_whitespace(' '));
    assert(padded.drop_first() =~= w + seq![' ']);
    assert(spec_lead_ws(w + seq![' ']) == 0) by {
        assert((w + seq![' '])[0] == w[0]);
    }
    assert(spec_lead_ws(padded) == 1);
    let ts = padded.skip(1);
    assert(ts =~= w + seq![' ']);
    assert(ts.drop_last() =~= w);
    assert(spec_trail_ws(ts) == 1);
    assert(ts.take(ts.len() - 1) =~= w);
    assert(spec_trim(padded) == w);

    let colon = seq![':'] + w;
    assert(!spec_is_whitespace(':'));
    assert(spec_lead_ws(colon) == 0);
    assert(colon.last() == w.last());
    assert(spec_trail_ws(colon) == 0);
    assert(colon.skip(0) =~= colon);
    assert(colon.take(colon.len() as int) =~= colon);
    assert(spec_trim(colon) == colon);
    assert(colon.drop_first() =~= w);
    assert(spec_lead_colons(colon) == 1);
    assert(colon.skip(1) =~= w);
}

/// No action is named by an empty word.
proof fn lemma_empty_word_names_nothing()
    ensures
        spec_action_of(Seq::<char>::empty()) is None,
{
    let e = Seq::<char>::empty();
    reveal_strlit("devices");
    reveal_strlit("device");
    reveal_strlit("list");
    reveal_strlit("info");
    reveal_strlit("d");
    reveal_strlit("backups");
    reveal_strlit("backup");
    reveal_strlit("b");
    reveal_strlit("provision");
    reveal_strlit("make");
    reveal_strlit("p");
    reveal_strlit("convert");
    reveal_strlit("offline-convert");
    reveal_strlit("offline");
    reveal_strlit("oc");
    reveal_strlit("inspect");
    reveal_strlit("i");
    reveal_strlit("apply");
    reveal_strlit("a");
    reveal_strlit("restore");
    reveal_strlit("r");
    reveal_strlit("backup-create");
    reveal_strlit("create-backup");
    reveal_strlit("bc");
    reveal_strlit("backup-deep");
    reveal_strlit("deep-backup");
    reveal_strlit("bdp");
    reveal_strlit("backup-verify");
    reveal_strlit("verify-backup");
    reveal_strlit("verify");
    reveal_strlit("v");
    reveal_strlit("backup-delete");
    reveal_strlit("delete-backup");
    reveal_strlit("delete");
    reveal_strlit("bd");
    reveal_strlit("backup-prune");
    reveal_strlit("prune");
    reveal_strlit("bp");
    reveal_strlit("refresh");
    reveal_strlit("reload");
    reveal_strlit("help");
    reveal_strlit("h");
    reveal_strlit("?");
    reveal_strlit("quit");
    reveal_strlit("q");
    reveal_strlit("命令不能为空");
    reveal_strlit("未知 TUI 命令: ");
    assert(e.len() == 0);
}

/// Palette lines are compared by their command word alone: two lines with the same
/// word name the same action, and a line is refused exactly when its word names none.
pub proof fn lemma_command_depends_on_word(a: Seq<char>, b: Seq<char>)
    requires
        spec_command_word(a) == spec_command_word(b),
    ensures
        (spec_command_outcome(a) is Ok) == (spec_command_outcome(b) is Ok),
        spec_command_outcome(a) is Ok ==> spec_command_outcome(a) == spec_command_outcome(b),
        (spec_command_outcome(a) is Err) <==> spec_action_of(spec_command_word(a)) is None,
        spec_command_word(a).len() == 0 ==> spec_command_outcome(a) == Err::<
            PaletteAction,
            Seq<char>,
        >("命令不能为空"@),
{
    if spec_command_word(a).len() == 0 {
        assert(spec_command_word(a) =~= Seq::<char>::empty());
        lemma_empty_word_names_nothing();
    }
}

} // verus!
