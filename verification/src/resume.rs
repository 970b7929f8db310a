//! Carrying a confirmed write across a privilege elevation: the intent is written
//! into private command-line flags for the elevated restart and parsed back there.

use vstd::prelude::*;
use crate::state::{ExpectedIdentity, WriteIntent, WriteKind};
use crate::text::{concat, str_eq};

verus! {

pub const RESUME_KIND_FLAG: &'static str = "--_resume-kind";
pub const RESUME_DISK_FLAG: &'static str = "--_resume-disk";
pub const RESUME_BACKUP_FLAG: &'static str = "--_resume-backup";
pub const RESUME_ONLYID_FLAG: &'static str = "--_resume-onlyid";
pub const RESUME_DEVICE_ID_FLAG: &'static str = "--_resume-device-id";

pub open spec fn spec_kind_word(k: WriteKind) -> Seq<char> {
    match k {
        WriteKind::Apply => "apply"@,
        WriteKind::Restore => "restore"@,
        WriteKind::BackupCreate => "backup-create"@,
        WriteKind::BackupCreateDeep => "backup-create-deep"@,
    }
}

pub open spec fn spec_kind_of(word: Seq<char>) -> Option<WriteKind> {
    if word == "apply"@ {
        Some(WriteKind::Apply)
    } else if word == "restore"@ {
        Some(WriteKind::Restore)
    } else if word == "backup-create"@ {
        Some(WriteKind::BackupCreate)
    } else if word == "backup-create-deep"@ {
        Some(WriteKind::BackupCreateDeep)
    } else {
        None
    }
}

/// A write intent read back from the resume flags; the disk is still the pinned
/// selector text that the platform layer turns back into a disk number.
#[derive(Debug, Clone)]
pub struct ResumeArgs {
    pub kind: WriteKind,
    pub disk_selector: String,
    pub backup: Option<String>,
    pub expected_identity: Option<ExpectedIdentity>,
}

pub open spec fn spec_views(v: Seq<String>) -> Seq<Seq<char>> {
    v.map_values(|s: String| s@)
}

/// The arguments for the elevated restart: `tui`, the kind and pinned disk, then
/// the backup path and identity fields that are present.
pub open spec fn spec_resume_argv(intent: WriteIntent, selector: Seq<char>) -> Seq<Seq<char>> {
    let base = seq!["tui"@, "--_resume-kind"@, spec_kind_word(intent.kind), "--_resume-disk"@, selector];
    let with_backup = match intent.backup {
        Some(p) => base + seq!["--_resume-backup"@, p@],
        None => base,
    };
    match intent.expected_identity {
        Some(id) => {
            let a = match id.onlyid {
                Some(o) => with_backup + seq!["--_resume-onlyid"@, o@],
                None => with_backup,
            };
            match id.device_id {
                Some(d) => a + seq!["--_resume-device-id"@, d@],
                None => a,
            }
        },
        None => with_backup,
    }
}

fn push_str(v: &mut Vec<String>, s: &str)
    ensures
        spec_views(final(v)@) == spec_views(old(v)@).push(s@),
{
    let ghost before = spec_views(v@);
    v.push(s.to_owned());
    proof {
        assert(spec_views(v@) =~= before.push(s@));
    }
}

/// Serialize a confirmed write intent for the elevated restart; `disk_selector` is
/// the platform's pinned selector for the intent's disk.
pub fn resume_argv(intent: &WriteIntent, disk_selector: &str) -> (r: Vec<String>)
    ensures
        spec_views(r@) == spec_resume_argv(*intent, disk_selector@),
{
    proof {
        reveal_strlit("tui");
        reveal_strlit("--_resume-kind");
        reveal_strlit("--_resume-disk");
        reveal_strlit("--_resume-backup");
        reveal_strlit("--_resume-onlyid");
        reveal_strlit("--_resume-device-id");
    }
    let mut argv: Vec<String> = Vec::new();
    push_str(&mut argv, "tui");
    push_str(&mut argv, RESUME_KIND_FLAG);
    let word = match intent.kind {
        WriteKind::Apply => "apply",
        WriteKind::Restore => "restore",
        WriteKind::BackupCreate => "backup-create",
        WriteKind::BackupCreateDeep => "backup-create-deep",
    };
    push_str(&mut argv, word);
    push_str(&mut argv, RESUME_DISK_FLAG);
    push_str(&mut argv, disk_selector);
    let ghost base = spec_views(argv@);
    assert(base =~= seq!["tui"@, "--_resume-kind"@, spec_kind_word(intent.kind), "--_resume-disk"@, disk_selector@]);
    if let Some(path) = &intent.backup {
        push_str(&mut argv, RESUME_BACKUP_FLAG);
        push_str(&mut argv, path.as_str());
        assert(spec_views(argv@) =~= base + seq!["--_resume-backup"@, path@]);
    }
    let ghost with_backup = spec_views(argv@);
    if let Some(identity) = &intent.expected_identity {
        if let Some(onlyid) = &identity.onlyid {
            push_str(&mut argv, RESUME_ONLYID_FLAG);
            push_str(&mut argv, onlyid.as_str());
            assert(spec_views(argv@) =~= with_backup + seq!["--_resume-onlyid"@, onlyid@]);
        }
        let ghost a = spec_views(argv@);
        if let Some(device_id) = &identity.device_id {
            push_str(&mut argv, RESUME_DEVICE_ID_FLAG);
            push_str(&mut argv, device_id.as_str());
            assert(spec_views(argv@) =~= a + seq!["--_resume-device-id"@, device_id@]);
        }
    }
    argv
}

/// What the resume flags parsed so far have set.
pub struct ScanState {
    pub kind: Option<WriteKind>,
    pub disk: Option<String>,
    pub backup: Option<String>,
    pub onlyid: Option<String>,
    pub device_id: Option<String>,
    pub saw_resume: bool,
}

pub open spec fn spec_scan_start() -> ScanState {
    ScanState { kind: None, disk: None, backup: None, onlyid: None, device_id: None, saw_resume: false }
}

pub open spec fn spec_missing_value(flag: Seq<char>) -> Seq<char> {
    "错误: "@ + flag + " 缺少参数值"@
}

pub open spec fn spec_duplicate(flag: Seq<char>) -> Seq<char> {
    "错误: "@ + flag + " 重复指定"@
}

/// Reading the flags from position `i` on: the elevation marker is skipped, each
/// resume flag takes the next argument as its value and may appear once, and
/// anything else is refused.
pub open spec fn spec_scan(argv: Seq<String>, marker: Seq<char>, i: int, st: ScanState) -> Result<ScanState, Seq<char>>
    decreases argv.len() - i,
{
    if i < 0 || i >= argv.len() {
        Ok(st)
    } else {
        let arg = argv[i]@;
        if arg == marker {
            spec_scan(argv, marker, i + 1, st)
        } else if arg == "--_resume-kind"@ {
            if st.kind is Some {
                Err(spec_duplicate(arg))
            } else if i + 1 >= argv.len() {
                Err(spec_missing_value(arg))
            } else {
                match spec_kind_of(argv[i + 1]@) {
                    Some(k) => spec_scan(argv, marker, i + 2, ScanState { kind: Some(k), saw_resume: true, ..st }),
                    None => Err("错误: 非法 TUI resume kind: "@ + argv[i + 1]@),
                }
            }
        } else if arg == "--_resume-disk"@ {
            if st.disk is Some {
                Err(spec_duplicate(arg))
            } else if i + 1 >= argv.len() {
                Err(spec_missing_value(arg))
            } else {
                spec_scan(argv, marker, i + 2, ScanState { disk: Some(argv[i + 1]), saw_resume: true, ..st })
            }
        } else if arg == "--_resume-backup"@ {
            if st.backup is Some {
                Err(spec_duplicate(arg))
            } else if i + 1 >= argv.len() {
                Err(spec_missing_value(arg))
            } else {
                spec_scan(argv, marker, i + 2, ScanState { backup: Some(argv[i + 1]), saw_resume: true, ..st })
            }
        } else if arg == "--_resume-onlyid"@ {
            if st.onlyid is Some {
                Err(spec_duplicate(arg))
            } else if i + 1 >= argv.len() {
                Err(spec_missing_value(arg))
            } else {
                spec_scan(argv, marker, i + 2, ScanState { onlyid: Some(argv[i + 1]), saw_resume: true, ..st })
            }
        } else if arg == "--_resume-device-id"@ {
            if st.device_id is Some {
                Err(spec_duplicate(arg))
            } else if i + 1 >= argv.len() {
                Err(spec_missing_value(arg))
            } else {
                spec_scan(
                    argv,
                    marker,
                    i + 2,
                    ScanState { device_id: Some(argv[i + 1]), saw_resume: true, ..st },
                )
            }
        } else {
            Err("错误: tui 不认识内部 resume 参数 "@ + arg)
        }
    }
}

/// The intent the flags describe, `None` when there are no resume flags, or the
/// first problem: a flag read wrongly, the kind or disk missing, or a backup path
/// present exactly when the kind is not a restore.
pub open spec fn spec_parse_resume(argv: Seq<String>, marker: Seq<char>) -> Result<Option<ScanState>, Seq<char>> {
    let start = if argv.len() > 0 && argv[0]@ == "tui"@ {
        1int
    } else {
        0int
    };
    match spec_scan(argv, marker, start, spec_scan_start()) {
        Err(e) => Err(e),
        Ok(st) => if !st.saw_resume {
            Ok(None)
        } else if st.kind is None {
            Err("错误: 缺少 --_resume-kind"@)
        } else if st.disk is None {
            Err("错误: 缺少 --_resume-disk"@)
        } else if st.kind != Some(WriteKind::Restore) && st.backup is Some {
            Err("错误: 非 Restore resume 不允许携带备份路径"@)
        } else if st.kind == Some(WriteKind::Restore) && st.backup is None {
            Err("错误: restore resume 缺少 --_resume-backup"@)
        } else {
            Ok(Some(st))
        },
    }
}

/// The parsed intent that a final scan state describes.
pub open spec fn spec_args_of(st: ScanState) -> ResumeArgs {
    ResumeArgs {
        kind: st.kind->Some_0,
        disk_selector: st.disk->Some_0,
        backup: st.backup,
        expected_identity: if st.onlyid is Some || st.device_id is Some {
            Some(ExpectedIdentity { onlyid: st.onlyid, device_id: st.device_id })
        } else {
            None
        },
    }
}

fn flag_error(prefix: &str, flag: &str, suffix: &str) -> (r: String)
    ensures
        r@ == prefix@ + flag@ + suffix@,
{
    let a = concat(prefix, flag);
    concat(a.as_str(), suffix)
}

/// Parse the private flags of an elevated restart; `marker` is the elevation flag
/// that the restart also carries. No resume flags at all is `Ok(None)`; anything
/// partial, repeated or contradictory is an error.
pub fn parse_resume_args(argv: &[String], marker: &str) -> (r: Result<Option<ResumeArgs>, String>)
    ensures
        match spec_parse_resume(argv@, marker@) {
            Err(e) => r matches Err(m) && m@ == e,
            Ok(None) => r matches Ok(None),
            Ok(Some(st)) => r == Ok::<Option<ResumeArgs>, String>(Some(spec_args_of(st))),
        },
{
    proof {
        reveal_strlit("tui");
        reveal_strlit("--_resume-kind");
        reveal_strlit("--_resume-disk");
        reveal_strlit("--_resume-backup");
        reveal_strlit("--_resume-onlyid");
        reveal_strlit("--_resume-device-id");
    }
    let mut kind: Option<WriteKind> = None;
    let mut disk: Option<String> = None;
    let mut backup: Option<String> = None;
    let mut onlyid: Option<String> = None;
    let mut device_id: Option<String> = None;
    let mut saw_resume = false;
    let mut i: usize = if argv.len() > 0 && str_eq(argv[0].as_str(), "tui") {
        1
    } else {
        0
    };
    let ghost start = i as int;
    while i < argv.len()
        invariant
            i <= argv@.len() + 1,
            start == (if argv@.len() > 0 && argv@[0]@ == "tui"@ {
                1int
            } else {
                0int
            }),
            spec_scan(argv@, marker@, start, spec_scan_start()) == spec_scan(
                argv@,
                marker@,
                i as int,
                ScanState { kind, disk, backup, onlyid, device_id, saw_resume },
            ),
        decreases argv@.len() - i,
    {
        proof {
            reveal_strlit("--_resume-kind");
            reveal_strlit("--_resume-disk");
            reveal_strlit("--_resume-backup");
            reveal_strlit("--_resume-onlyid");
            reveal_strlit("--_resume-device-id");
        }
        let arg = argv[i].as_str();
        if str_eq(arg, marker) {
            i = i + 1;
        } else if str_eq(arg, RESUME_KIND_FLAG) {
            if kind.is_some() {
                return Err(flag_error("错误: ", RESUME_KIND_FLAG, " 重复指定"));
            }
            if i + 1 >= argv.len() {
                return Err(flag_error("错误: ", RESUME_KIND_FLAG, " 缺少参数值"));
            }
            let value = argv[i + 1].as_str();
            let k = if str_eq(value, "apply") {
                WriteKind::Apply
            } else if str_eq(value, "restore") {
                WriteKind::Restore
            } else if str_eq(value, "backup-create") {
                WriteKind::BackupCreate
            } else if str_eq(value, "backup-create-deep") {
                WriteKind::BackupCreateDeep
            } else {
                return Err(concat("错误: 非法 TUI resume kind: ", value));
            };
            kind = Some(k);
            saw_resume = true;
            i = i + 2;
        } else if str_eq(arg, RESUME_DISK_FLAG) {
            if disk.is_some() {
                return Err(flag_error("错误: ", RESUME_DISK_FLAG, " 重复指定"));
            }
            if i + 1 >= argv.len() {
                return Err(flag_error("错误: ", RESUME_DISK_FLAG, " 缺少参数值"));
            }
            disk = Some(argv[i + 1].clone());
            saw_resume = true;
            i = i + 2;
        } else if str_eq(arg, RESUME_BACKUP_FLAG) {
            if backup.is_some() {
                return Err(flag_error("错误: ", RESUME_BACKUP_FLAG, " 重复指定"));
            }
            if i + 1 >= argv.len() {
                return Err(flag_error("错误: ", RESUME_BACKUP_FLAG, " 缺少参数值"));
            }
            backup = Some(argv[i + 1].clone());
            saw_resume = true;
            i = i + 2;
        } else if str_eq(arg, RESUME_ONLYID_FLAG) {
            if onlyid.is_some() {
                return Err(flag_error("错误: ", RESUME_ONLYID_FLAG, " 重复指定"));
            }
            if i + 1 >= argv.len() {
                return Err(flag_error("错误: ", RESUME_ONLYID_FLAG, " 缺少参数值"));
            }
            onlyid = Some(argv[i + 1].clone());
            saw_resume = true;
            i = i + 2;
        } else if str_eq(arg, RESUME_DEVICE_ID_FLAG) {
            if device_id.is_some() {
                return Err(flag_error("错误: ", RESUME_DEVICE_ID_FLAG, " 重复指定"));
            }
            if i + 1 >= argv.len() {
                return Err(flag_error("错误: ", RESUME_DEVICE_ID_FLAG, " 缺少参数值"));
            }
            device_id = Some(argv[i + 1].clone());
            saw_resume = true;
            i = i + 2;
        } else {
            return Err(concat("错误: tui 不认识内部 resume 参数 ", arg));
        }
    }
    if !saw_resume {
        return Ok(None);
    }
    let kind = match kind {
        Some(k) => k,
        None => return Err(String::from_str("错误: 缺少 --_resume-kind")),
    };
    let disk = match disk {
        Some(d) => d,
        None => return Err(String::from_str("错误: 缺少 --_resume-disk")),
    };
    if kind != WriteKind::Restore && backup.is_some() {
        return Err(String::from_str("错误: 非 Restore resume 不允许携带备份路径"));
    }
    if kind == WriteKind::Restore && backup.is_none() {
        return Err(String::from_str("错误: restore resume 缺少 --_resume-backup"));
    }
    let expected_identity = if onlyid.is_some() || device_id.is_some() {
        Some(ExpectedIdentity { onlyid, device_id })
    } else {
        None
    };
    Ok(Some(ResumeArgs { kind, disk_selector: disk, backup, expected_identity }))
}

/// The arguments to restart with when the TUI must first gain privileges: none when
/// already elevated, the given ones when they name `tui`, else just `tui`.
pub fn startup_elevation_argv(argv: &[String], elevated: bool) -> (r: Option<Vec<String>>)
    ensures
        elevated ==> r is None,
        !elevated && argv@.len() > 0 && argv@[0]@ == "tui"@ ==> (r matches Some(v) && v@ == argv@),
        !elevated && !(argv@.len() > 0 && argv@[0]@ == "tui"@) ==> (r matches Some(v) && spec_views(v@)
            == seq!["tui"@]),
{
    if elevated {
        return None;
    }
    if argv.len() > 0 && str_eq(argv[0].as_str(), "tui") {
        let mut v: Vec<String> = Vec::new();
        let mut k: usize = 0;
        while k < argv.len()
            invariant
                k <= argv@.len(),
                v@ == argv@.take(k as int),
            decreases argv@.len() - k,
        {
            v.push(argv[k].clone());
            k = k + 1;
            proof {
                assert(v@ =~= argv@.take(k as int));
            }
        }
        proof {
            assert(argv@.take(argv@.len() as int) =~= argv@);
        }
        Some(v)
    } else {
        let mut v: Vec<String> = Vec::new();
        push_str(&mut v, "tui");
        proof {
            assert(spec_views(v@) =~= seq!["tui"@]);
        }
        Some(v)
    }
}


proof fn lemma_kind_word_round_trip(k: WriteKind)
    ensures
        spec_kind_of(spec_kind_word(k)) == Some(k),
{
    reveal_strlit("apply");
    reveal_strlit("restore");
    reveal_strlit("backup-create");
    reveal_strlit("backup-create-deep");
    assert("apply"@.len() == 5);
    assert("restore"@.len() == 7);
    assert("backup-create"@.len() == 13);
    assert("backup-create-deep"@.len() == 18);
}

/// A resume flag: one of the five private flags.
pub open spec fn spec_is_resume_flag(s: Seq<char>) -> bool {
    s == "--_resume-kind"@ || s == "--_resume-disk"@ || s == "--_resume-backup"@ || s
        == "--_resume-onlyid"@ || s == "--_resume-device-id"@
}

/// Resume parsing fails closed on a contradictory intent: when every flag reads
/// cleanly and a kind and disk are given, but a backup path is present for a kind
/// other than restore, or missing for a restore, the flags are refused.
pub proof fn lemma_resume_mismatch_rejected(argv: Seq<String>, marker: Seq<char>)
    requires
        ({
            let start = if argv.len() > 0 && argv[0]@ == "tui"@ { 1int } else { 0int };
            spec_scan(argv, marker, start, spec_scan_start()) matches Ok(st) && st.kind is Some
                && st.disk is Some && (st.kind == Some(WriteKind::Restore)) != (st.backup is Some)
        }),
    ensures
        spec_parse_resume(argv, marker) is Err,
{
    let start = if argv.len() > 0 && argv[0]@ == "tui"@ { 1int } else { 0int };
    lemma_scan_kind_implies_resume(argv, marker, start, spec_scan_start());
}

/// A scan that ends with a kind recorded has seen a resume flag.
proof fn lemma_scan_kind_implies_resume(argv: Seq<String>, marker: Seq<char>, i: int, st: ScanState)
    requires
        st.kind is Some ==> st.saw_resume,
    ensures
        spec_scan(argv, marker, i, st) matches Ok(f) ==> (f.kind is Some ==> f.saw_resume),
    decreases argv.len() - i,
{
    if i < 0 || i >= argv.len() {
    } else {
        let arg = argv[i]@;
        if arg == marker {
            lemma_scan_kind_implies_resume(argv, marker, i + 1, st);
        } else if i + 1 < argv.len() {
            if arg == "--_resume-kind"@ {
                if let Some(k) = spec_kind_of(argv[i + 1]@) {
                    lemma_scan_kind_implies_resume(argv, marker, i + 2, ScanState { kind: Some(k), saw_resume: true, ..st });
                }
            } else {
                lemma_scan_kind_implies_resume(argv, marker, i + 2, ScanState { disk: Some(argv[i + 1]), saw_resume: true, ..st });
                lemma_scan_kind_implies_resume(argv, marker, i + 2, ScanState { backup: Some(argv[i + 1]), saw_resume: true, ..st });
                lemma_scan_kind_implies_resume(argv, marker, i + 2, ScanState { onlyid: Some(argv[i + 1]), saw_resume: true, ..st });
                lemma_scan_kind_implies_resume(argv, marker, i + 2, ScanState { device_id: Some(argv[i + 1]), saw_resume: true, ..st });
            }
        }
    }
}

/// An intent survives the elevation boundary: the flags written for it parse back
/// to the same kind, disk selector, backup path and identity, provided the intent
/// is consistent (a backup path exactly for a restore, and an identity only when it
/// names something) and the elevation marker is not itself a resume flag.
pub proof fn lemma_resume_round_trip(intent: WriteIntent, selector: Seq<char>, marker: Seq<char>, argv: Seq<String>)
    requires
        spec_views(argv) == spec_resume_argv(intent, selector),
        !spec_is_resume_flag(marker),
        (intent.kind == WriteKind::Restore) == (intent.backup is Some),
        intent.expected_identity matches Some(id) ==> (id.onlyid is Some || id.device_id is Some),
    ensures
        spec_parse_resume(argv, marker) matches Ok(Some(st)) && ({
            let a = spec_args_of(st);
            &&& a.kind == intent.kind
            &&& a.disk_selector@ == selector
            &&& (a.backup is Some) == (intent.backup is Some)
            &&& (a.backup matches Some(b) ==> b@ == intent.backup->Some_0@)
            &&& (a.expected_identity is Some) == (intent.expected_identity is Some)
            &&& (a.expected_identity matches Some(id) ==> ({
                let want = intent.expected_identity->Some_0;
                &&& (id.onlyid is Some) == (want.onlyid is Some)
                &&& (id.onlyid matches Some(o) ==> o@ == want.onlyid->Some_0@)
                &&& (id.device_id is Some) == (want.device_id is Some)
                &&& (id.device_id matches Some(d) ==> d@ == want.device_id->Some_0@)
            }))
        }),
{
    reveal_strlit("tui");
    reveal_strlit("--_resume-kind");
    reveal_strlit("--_resume-disk");
    reveal_strlit("--_resume-backup");
    reveal_strlit("--_resume-onlyid");
    reveal_strlit("--_resume-device-id");
    lemma_kind_word_round_trip(intent.kind);
    assert("--_resume-disk"@[10] != "--_resume-kind"@[10]);
    assert("--_resume-onlyid"@[10] != "--_resume-backup"@[10]);
    assert("--_resume-kind"@.len() == 14 && "--_resume-disk"@.len() == 14);
    assert("--_resume-backup"@.len() == 16 && "--_resume-onlyid"@.len() == 16);
    assert("--_resume-device-id"@.len() == 19);
    let v = spec_views(argv);
    assert forall|k: int| 0 <= k < argv.len() implies #[trigger] argv[k]@ == v[k] by {}
    let n = argv.len() as int;
    let base = seq!["tui"@, "--_resume-kind"@, spec_kind_word(intent.kind), "--_resume-disk"@, selector];
    let with_backup = match intent.backup {
        Some(p) => base + seq!["--_resume-backup"@, p@],
        None => base,
    };
    assert(with_backup.len() >= 5);
    assert(with_backup.take(5) =~= base);
    let full = spec_resume_argv(intent, selector);
    match intent.expected_identity {
        Some(id) => {
            let a = match id.onlyid {
                Some(o) => with_backup + seq!["--_resume-onlyid"@, o@],
                None => with_backup,
            };
            assert(a.take(with_backup.len() as int) =~= with_backup);
            match id.device_id {
                Some(d) => {
                    assert(full == a + seq!["--_resume-device-id"@, d@]);
                    assert(full.take(a.len() as int) =~= a);
                },
                None => {},
            }
            assert(full.take(with_backup.len() as int) =~= with_backup);
        },
        None => {},
    }
    assert(full.take(5) =~= base) by {
        assert(full.take(with_backup.len() as int).take(5) =~= full.take(5));
    }
    assert(v.len() == full.len());
    assert(argv[0]@ == "tui"@);
    assert(argv[1]@ == "--_resume-kind"@);
    assert(argv[2]@ == spec_kind_word(intent.kind));
    assert(argv[3]@ == "--_resume-disk"@);
    assert(argv[4]@ == selector);
    let s0 = spec_scan_start();
    let s1 = ScanState { kind: Some(intent.kind), saw_resume: true, ..s0 };
    let s2 = ScanState { disk: Some(argv[4]), ..s1 };
    assert(spec_scan(argv, marker, 1, s0) == spec_scan(argv, marker, 3, s1));
    assert(spec_scan(argv, marker, 3, s1) == spec_scan(argv, marker, 5, s2));
    let p1: int = if intent.backup is Some {
        7
    } else {
        5
    };
    let s3 = if intent.backup is Some {
        ScanState { backup: Some(argv[6]), ..s2 }
    } else {
        s2
    };
    if intent.backup is Some {
        assert(argv[5]@ == "--_resume-backup"@);
        assert(argv[6]@ == intent.backup->Some_0@);
        assert(spec_scan(argv, marker, 5, s2) == spec_scan(argv, marker, 7, s3));
    }
    match intent.expected_identity {
        None => {
            assert(n == p1);
            assert(spec_scan(argv, marker, p1, s3) == Ok::<ScanState, Seq<char>>(s3));
        },
        Some(id) => {
            let p2: int = if id.onlyid is Some {
                p1 + 2
            } else {
                p1
            };
            let s4 = if id.onlyid is Some {
                ScanState { onlyid: Some(argv[p1 + 1]), ..s3 }
            } else {
                s3
            };
            if id.onlyid is Some {
                assert(argv[p1]@ == "--_resume-onlyid"@);
                assert(argv[p1 + 1]@ == id.onlyid->Some_0@);
                assert(spec_scan(argv, marker, p1, s3) == spec_scan(argv, marker, p2, s4));
            }
            let p3: int = if id.device_id is Some {
                p2 + 2
            } else {
                p2
            };
            let s5 = if id.device_id is Some {
                ScanState { device_id: Some(argv[p2 + 1]), ..s4 }
            } else {
                s4
            };
            if id.device_id is Some {
                assert(argv[p2]@ == "--_resume-device-id"@);
                assert(argv[p2 + 1]@ == id.device_id->Some_0@);
                assert(spec_scan(argv, marker, p2, s4) == spec_scan(argv, marker, p3, s5));
            }
            assert(n == p3);
            assert(spec_scan(argv, marker, p3, s5) == Ok::<ScanState, Seq<char>>(s5));
        },
    }
}
} // verus!
