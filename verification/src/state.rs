//! Application-wide state kept outside the engine: user settings, the
//! bounded application log and the latest display frame of each VM.
use vstd::prelude::*;
use crate::api::LogEntry;
use crate::util::text::{joined_under, path_join, plain_file_name, push_str};
use vstd::utf8::{decode_utf8, encode_utf8, is_char_boundary, valid_utf8};

verus! {

/// UI colour theme.
#[derive(Debug, Clone, Copy, PartialEq, Eq, Structural)]
pub enum Theme {
    Light,
    Dark,
    System,
}

/// User-editable application settings.
#[derive(Debug)]
pub struct AppSettings {
    /// UI colour theme.
    pub theme: Theme,
    /// Default VM storage directory.
    pub default_storage_dir: String,
    /// Default ISO library directory.
    pub default_iso_dir: String,
    /// Whether to start the background service automatically.
    pub auto_start_service: bool,
    /// Metrics collection interval in seconds.
    pub metrics_interval_secs: u64,
    /// Telemetry and crash reporting opt-in.
    pub telemetry_enabled: bool,
    /// Application language code (e.g. "en-US").
    pub language: String,
}

/// Calls `dirs_next::data_dir`: the user's data directory, when the platform
/// has one, as text. It depends on the environment, so nothing is claimed
/// of it.
#[verifier::external_body]
fn user_data_dir() -> Option<String> {
    match dirs_next::data_dir() {
        Some(d) => Some(d.to_string_lossy().to_string()),
        None => None,
    }
}

/// Whether `r` names `NovaVM/<leaf>` under the directory `data_dir`.
pub open spec fn under_app_dir(data_dir: Seq<char>, leaf: Seq<char>, r: Seq<char>) -> bool {
    exists|base: Seq<char>| joined_under(data_dir, "NovaVM"@, base) && #[trigger] joined_under(base, leaf, r)
}

/// Whether `d` is a directory text that the path claims cover: not empty,
/// not starting with a backslash.
pub open spec fn ordinary_dir(d: Seq<char>) -> bool {
    d.len() > 0 && d[0] != '\\'
}

/// The directory `leaf` of the application's data: `NovaVM/<leaf>` under the
/// user's data directory `data_dir`, or `./<leaf>` when there is none.
pub fn app_dir(data_dir: Option<&str>, leaf: &str) -> (r: String)
    ensures
        data_dir is None ==> r@ == "./"@ + leaf@,
        data_dir matches Some(d) ==> (ordinary_dir(d@) && plain_file_name(leaf@) ==> under_app_dir(d@, leaf@, r@)),
{
    match data_dir {
        Some(d) => {
            let base = path_join(d, "NovaVM");
            proof {
                reveal_strlit("NovaVM");
                assert(plain_file_name("NovaVM"@));
                if ordinary_dir(d@) {
                    assert(base@[0] == d@[0]);
                }
            }
            let r = path_join(base.as_str(), leaf);
            proof {
                if ordinary_dir(d@) && plain_file_name(leaf@) {
                    assert(joined_under(base@, leaf@, r@));
                }
            }
            r
        },
        None => {
            let mut s = String::from_str("./");
            push_str(&mut s, leaf);
            s
        },
    }
}

impl AppSettings {
    /// The default settings for a user whose data directory is `data_dir`:
    /// system theme, VMs under `NovaVM/vms` and ISOs under `NovaVM/iso`,
    /// service started automatically, metrics every second, no telemetry,
    /// language `en-US`.
    pub fn defaults_for(data_dir: Option<&str>) -> (r: Self)
        ensures
            r.theme == Theme::System,
            data_dir is None ==> r.default_storage_dir@ == "./vms"@ && r.default_iso_dir@ == "./iso"@,
            data_dir matches Some(d) ==> (ordinary_dir(d@) ==> under_app_dir(d@, "vms"@, r.default_storage_dir@)
                && under_app_dir(d@, "iso"@, r.default_iso_dir@)),
            r.auto_start_service,
            r.metrics_interval_secs == 1,
            !r.telemetry_enabled,
            r.language@ == "en-US"@,
    {
        proof {
            reveal_strlit("./");
            reveal_strlit("vms");
            reveal_strlit("iso");
            reveal_strlit("./vms");
            reveal_strlit("./iso");
            assert(plain_file_name("vms"@));
            assert(plain_file_name("iso"@));
        }
        AppSettings {
            theme: Theme::System,
            default_storage_dir: app_dir(data_dir, "vms"),
            default_iso_dir: app_dir(data_dir, "iso"),
            auto_start_service: true,
            metrics_interval_secs: 1,
            telemetry_enabled: false,
            language: String::from_str("en-US"),
        }
    }
}

impl Default for AppSettings {
    fn default() -> (r: Self)
        ensures
            r.theme == Theme::System,
            r.auto_start_service,
            r.metrics_interval_secs == 1,
            !r.telemetry_enabled,
            r.language@ == "en-US"@,
    {
        let d = user_data_dir();
        match d {
            Some(p) => AppSettings::defaults_for(Some(p.as_str())),
            None => AppSettings::defaults_for(None),
        }
    }
}

/// A rendered display frame of a VM.
#[derive(Debug)]
pub struct FramebufferFrame {
    /// Width in pixels.
    pub width: u32,
    /// Height in pixels.
    pub height: u32,
    /// Base64 of the raw RGBA bytes (width × height × 4, row-major).
    pub rgba_b64: String,
    /// Frame sequence number.
    pub seq: u64,
}

/// Where the application keeps its saved VM and disk records.
#[derive(Debug)]
pub struct Persistence {
    base_dir: String,
}

impl Persistence {
    /// The directory the records live in.
    pub closed spec fn dir(&self) -> Seq<char> {
        self.base_dir@
    }

    /// Records kept under `storage_dir`.
    pub fn at(storage_dir: &str) -> (r: Self)
        ensures
            r.dir() == storage_dir@,
    {
        Persistence { base_dir: String::from_str(storage_dir) }
    }

    /// The directory the records live in.
    pub fn base_dir(&self) -> (r: &str)
        ensures
            r@ == self.dir(),
    {
        self.base_dir.as_str()
    }

    /// The file holding the saved VM configurations (`vms.json`).
    pub fn vms_file(&self) -> (r: String)
        ensures
            !(self.dir().len() > 0 && self.dir()[0] == '\\') ==> joined_under(self.dir(), "vms.json"@, r@),
    {
        proof {
            reveal_strlit("vms.json");
            assert(plain_file_name("vms.json"@));
        }
        path_join(self.base_dir.as_str(), "vms.json")
    }

    /// The file holding the saved disk records (`disks.json`).
    pub fn disks_file(&self) -> (r: String)
        ensures
            !(self.dir().len() > 0 && self.dir()[0] == '\\') ==> joined_under(self.dir(), "disks.json"@, r@),
    {
        proof {
            reveal_strlit("disks.json");
            assert(plain_file_name("disks.json"@));
        }
        path_join(self.base_dir.as_str(), "disks.json")
    }
}

/// The most entries the application log keeps.
pub const MAX_LOG_ENTRIES: usize = 1000;

/// `str::to_uppercase` of `s`.
pub uninterp spec fn uppercase(s: Seq<char>) -> Seq<char>;

/// Calls `str::to_uppercase`: the Unicode uppercase mapping of `s`.
#[verifier::external_body]
fn to_uppercase(s: &str) -> (r: String)
    ensures
        r@ == uppercase(s@),
{
    s.to_uppercase()
}

/// Calls `chrono::Utc::now` and formats it as `YYYY-MM-DD HH:MM:SS`. It
/// depends on the time, so nothing is claimed of it.
#[verifier::external_body]
fn utc_now_text() -> String {
    chrono::Utc::now().format("%Y-%m-%d %H:%M:%S").to_string()
}

/// The entry logged with these fields.
pub open spec fn logged(e: LogEntry, timestamp: Seq<char>, level: Seq<char>, target: Seq<char>, message: Seq<char>) -> bool {
    &&& e.timestamp@ == timestamp
    &&& e.level@ == uppercase(level)
    &&& e.target@ == target
    &&& e.message@ == message
}

/// The application log: the most recent entries, oldest first, never more
/// than `MAX_LOG_ENTRIES`.
#[derive(Debug)]
pub struct AppLog {
    entries: Vec<LogEntry>,
}

impl AppLog {
    /// The entries, oldest first.
    pub closed spec fn entries(&self) -> Seq<LogEntry> {
        self.entries@
    }

    /// The log holds at most `MAX_LOG_ENTRIES` entries.
    pub open spec fn wf(&self) -> bool {
        self.entries().len() <= MAX_LOG_ENTRIES
    }

    /// An empty log.
    pub fn new() -> (r: Self)
        ensures
            r.wf(),
            r.entries().len() == 0,
    {
        AppLog { entries: Vec::new() }
    }

    /// The entries, oldest first.
    pub fn entries_vec(&self) -> (r: &Vec<LogEntry>)
        ensures
            r@ == self.entries(),
    {
        &self.entries
    }

    /// How many entries the log holds.
    pub fn len(&self) -> (r: usize)
        ensures
            r == self.entries().len(),
    {
        self.entries.len()
    }

    /// Forget every entry.
    pub fn clear(&mut self)
        ensures
            final(self).wf(),
            final(self).entries().len() == 0,
    {
        self.entries = Vec::new();
    }

    /// Log `message` from `target` at `level` (stored upper-cased), stamped
    /// `timestamp`. When the log is full the oldest entry is dropped.
    pub fn push_at(&mut self, level: &str, target: &str, message: &str, timestamp: String)
        requires
            old(self).wf(),
        ensures
            final(self).wf(),
            ({
                let before = old(self).entries();
                let after = final(self).entries();
                let dropped: int = if before.len() == MAX_LOG_ENTRIES { 1 } else { 0 };
                &&& after.len() == before.len() + 1 - dropped
                &&& logged(after.last(), timestamp@, level@, target@, message@)
                &&& after.drop_last() == before.subrange(dropped, before.len() as int)
            }),
    {
        let ghost ts = timestamp@;
        let entry = LogEntry {
            timestamp,
            level: to_uppercase(level),
            target: String::from_str(target),
            message: String::from_str(message),
        };
        let ghost before = self.entries@;
        self.entries.push(entry);
        if self.entries.len() > MAX_LOG_ENTRIES {
            let _ = self.entries.remove(0);
        }
        proof {
            let dropped: int = if before.len() == MAX_LOG_ENTRIES { 1 } else { 0 };
            assert(self.entries@.drop_last() =~= before.subrange(dropped, before.len() as int));
        }
    }

    /// The log as the application starts: four INFO entries announcing the
    /// start of NovaVM `version`, the engine, the network switches and
    /// readiness.
    pub fn startup(version: &str) -> (r: Self)
        ensures
            r.wf(),
            r.entries().len() == 4,
            r.entries()[0].level@ == uppercase("INFO"@) && r.entries()[0].target@ == "novavm_app"@
                && r.entries()[0].message@ == "NovaVM "@ + version@ + " starting"@,
            r.entries()[1].target@ == "engine"@
                && r.entries()[1].message@ == "Virtualization engine initialized with native hypervisor support"@,
            r.entries()[2].target@ == "network"@
                && r.entries()[2].message@ == "Virtual network switches configured: VMnet0 (Bridged), VMnet1 (Host-Only), VMnet8 (NAT)"@,
            r.entries()[3].target@ == "novavm_app"@ && r.entries()[3].message@ == "NovaVM application ready"@,
            forall|i: int| 0 <= i < 4 ==> #[trigger] r.entries()[i].level@ == uppercase("INFO"@),
    {
        let mut log = AppLog::new();
        let mut first = String::from_str("NovaVM ");
        push_str(&mut first, version);
        push_str(&mut first, " starting");
        log.push_log("INFO", "novavm_app", first.as_str());
        let ghost e1 = log.entries();
        assert(e1.len() == 1 && e1[0] == e1.last());
        log.push_log("INFO", "engine", "Virtualization engine initialized with native hypervisor support");
        let ghost e2 = log.entries();
        assert(e2.drop_last() == e1.subrange(0, 1));
        assert(e2.len() == 2);
        assert(e2.drop_last()[0] == e2[0]);
        assert(e2[0] == e1[0] && e2[1] == e2.last());
        log.push_log("INFO", "network", "Virtual network switches configured: VMnet0 (Bridged), VMnet1 (Host-Only), VMnet8 (NAT)");
        let ghost e3 = log.entries();
        assert(e3.drop_last() == e2.subrange(0, 2));
        assert(e3.len() == 3);
        assert(e3.drop_last()[0] == e3[0] && e3.drop_last()[1] == e3[1]);
        assert(e3[0] == e2[0] && e3[1] == e2[1] && e3[2] == e3.last());
        log.push_log("INFO", "novavm_app", "NovaVM application ready");
        let ghost e4 = log.entries();
        assert(e4.drop_last() == e3.subrange(0, 3));
        assert(e4.len() == 4);
        assert(e4.drop_last()[0] == e4[0] && e4.drop_last()[1] == e4[1] && e4.drop_last()[2] == e4[2]);
        assert(e4[0] == e3[0] && e4[1] == e3[1] && e4[2] == e3[2] && e4[3] == e4.last());
        log
    }

    /// Log `message` from `target` at `level`, stamped with the current time.
    pub fn push_log(&mut self, level: &str, target: &str, message: &str)
        requires
            old(self).wf(),
        ensures
            final(self).wf(),
            ({
                let before = old(self).entries();
                let after = final(self).entries();
                let dropped: int = if before.len() == MAX_LOG_ENTRIES { 1 } else { 0 };
                &&& after.len() == before.len() + 1 - dropped
                &&& after.last().level@ == uppercase(level@)
                &&& after.last().target@ == target@
                &&& after.last().message@ == message@
                &&& after.drop_last() == before.subrange(dropped, before.len() as int)
            }),
    {
        let now = utc_now_text();
        self.push_at(level, target, message, now);
    }
}

/// The most bytes of serial output kept per VM.
pub const SERIAL_BUFFER_CAP: usize = 1_048_576;

/// Calls `std::str::from_utf8`: the text `data` encodes when it is valid
/// UTF-8, as the standard library documents.
#[verifier::external_body]
fn utf8_text(data: &[u8]) -> (r: Option<String>)
    ensures
        r is Some <==> valid_utf8(data@),
        r matches Some(t) ==> t@ == decode_utf8(data@),
{
    match std::str::from_utf8(data) {
        Ok(t) => Some(t.to_string()),
        Err(_) => None,
    }
}

/// Encoding a concatenation concatenates the encodings.
proof fn lemma_encode_concat(a: Seq<char>, b: Seq<char>)
    ensures
        encode_utf8(a + b) == encode_utf8(a) + encode_utf8(b),
    decreases a.len(),
{
    if a.len() == 0 {
        assert(a + b =~= b);
        assert(encode_utf8(a) =~= Seq::<u8>::empty());
        assert(encode_utf8(a) + encode_utf8(b) =~= encode_utf8(b));
    } else {
        assert((a + b).drop_first() =~= a.drop_first() + b);
        assert((a + b)[0] == a[0]);
        lemma_encode_concat(a.drop_first(), b);
        assert(encode_utf8(a + b) =~= encode_utf8(a) + encode_utf8(b));
    }
}

/// The text buffered for `id` in `bs`, if any.
pub open spec fn buffer_in(bs: Seq<(u128, String)>, id: u128) -> Option<Seq<char>> {
    if exists|i: int| 0 <= i < bs.len() && bs[i].0 == id {
        Some(bs[choose|i: int| 0 <= i < bs.len() && bs[i].0 == id].1@)
    } else {
        None
    }
}

/// The last `SERIAL_BUFFER_CAP` bytes of `b` (all of it when shorter).
pub open spec fn keep_tail(b: Seq<u8>) -> Seq<u8> {
    if b.len() > SERIAL_BUFFER_CAP {
        b.subrange(b.len() - SERIAL_BUFFER_CAP, b.len() as int)
    } else {
        b
    }
}

/// Serial console output captured per VM, at most `SERIAL_BUFFER_CAP`
/// bytes each (the oldest bytes go first).
#[derive(Debug)]
pub struct SerialBuffers {
    bufs: Vec<(u128, String)>,
}

impl SerialBuffers {
    /// The text buffered for VM `id`, if it has a buffer.
    pub closed spec fn buffer(&self, id: u128) -> Option<Seq<char>> {
        buffer_in(self.bufs@, id)
    }

    /// The text buffered for VM `id` (empty when none).
    pub open spec fn text_of(&self, id: u128) -> Seq<char> {
        match self.buffer(id) {
            Some(t) => t,
            None => Seq::empty(),
        }
    }

    pub closed spec fn wf(&self) -> bool {
        forall|i: int, j: int| 0 <= i < self.bufs@.len() && 0 <= j < self.bufs@.len() && i != j
            ==> self.bufs@[i].0 != self.bufs@[j].0
    }

    /// No VM has buffered output.
    pub fn new() -> (r: Self)
        ensures
            r.wf(),
            forall|id: u128| r.buffer(id) is None,
    {
        SerialBuffers { bufs: Vec::new() }
    }

    fn position(&self, id: u128) -> (r: Option<usize>)
        ensures
            r is None ==> !(exists|i: int| 0 <= i < self.bufs@.len() && self.bufs@[i].0 == id),
            r matches Some(i) ==> i < self.bufs@.len() && self.bufs@[i as int].0 == id,
    {
        let mut i: usize = 0;
        while i < self.bufs.len()
            invariant
                i <= self.bufs@.len(),
                forall|k: int| 0 <= k < i ==> self.bufs@[k].0 != id,
            decreases self.bufs@.len() - i,
        {
            if self.bufs[i].0 == id {
                return Some(i);
            }
            i = i + 1;
        }
        None
    }

    /// Append the output `data` of VM `vm_id` when it is valid UTF-8 (other
    /// data is dropped), then keep only the last `SERIAL_BUFFER_CAP` bytes.
    /// The cut must fall between characters.
    pub fn push_serial_output(&mut self, vm_id: u128, data: &[u8])
        requires
            old(self).wf(),
            valid_utf8(data@) ==> {
                let joined = encode_utf8(old(self).text_of(vm_id)) + data@;
                joined.len() > SERIAL_BUFFER_CAP ==> is_char_boundary(joined, joined.len() - SERIAL_BUFFER_CAP)
            },
        ensures
            final(self).wf(),
            !valid_utf8(data@) ==> forall|id: u128| final(self).buffer(id) == old(self).buffer(id),
            valid_utf8(data@) ==> {
                &&& final(self).buffer(vm_id) is Some
                &&& encode_utf8(final(self).text_of(vm_id)) == keep_tail(encode_utf8(old(self).text_of(vm_id)) + data@)
                &&& encode_utf8(final(self).text_of(vm_id)).len() <= SERIAL_BUFFER_CAP
                &&& forall|id: u128| id != vm_id ==> final(self).buffer(id) == old(self).buffer(id)
            },
    {
        let text = match utf8_text(data) {
            Some(t) => t,
            None => {
                return;
            },
        };
        proof {
            vstd::utf8::decode_utf8_encode_utf8(data@);
        }
        let ghost exists_before = exists|k: int| 0 <= k < self.bufs@.len() && self.bufs@[k].0 == vm_id;
        let (i, mut s) = match self.position(vm_id) {
            Some(i) => {
                proof {
                    let k = choose|k: int| 0 <= k < self.bufs@.len() && self.bufs@[k].0 == vm_id;
                    assert(k == i);
                }
                let (_, s) = self.bufs.remove(i);
                (i, s)
            },
            None => (self.bufs.len(), String::new()),
        };
        let ghost before = s@;
        assert(before == old(self).text_of(vm_id));
        push_str(&mut s, text.as_str());
        proof {
            lemma_encode_concat(before, text@);
        }
        let ghost joined = encode_utf8(s@);
        assert(joined == encode_utf8(old(self).text_of(vm_id)) + data@);
        let sv = s.as_str();
        let n = sv.as_bytes().len();
        assert(encode_utf8(sv@) == joined);
        assert(n == joined.len());
        assert(valid_utf8(data@));
        if n > SERIAL_BUFFER_CAP {
            assert(is_char_boundary(joined, joined.len() - SERIAL_BUFFER_CAP));
            let cut = n - SERIAL_BUFFER_CAP;
            let (_, tail) = sv.split_at(cut);
            s = String::from_str(tail);
        }
        assert(encode_utf8(s@) == keep_tail(joined));
        let ghost entry = (vm_id, s);
        self.bufs.insert(i, (vm_id, s));
        proof {
            if exists_before {
                assert(self.bufs@ =~= old(self).bufs@.update(i as int, entry));
            } else {
                assert(self.bufs@ =~= old(self).bufs@.push(entry));
            }
            assert(self.bufs@[i as int] == entry);
            assert forall|a: int, b: int| 0 <= a < self.bufs@.len() && 0 <= b < self.bufs@.len() && a != b
                implies self.bufs@[a].0 != self.bufs@[b].0 by {
                if a != i && b != i {
                    assert(old(self).bufs@[a].0 != old(self).bufs@[b].0);
                } else if a == i && exists_before {
                    assert(old(self).bufs@[i as int].0 == vm_id);
                    assert(old(self).bufs@[b].0 != old(self).bufs@[i as int].0);
                } else if b == i && exists_before {
                    assert(old(self).bufs@[i as int].0 == vm_id);
                    assert(old(self).bufs@[a].0 != old(self).bufs@[i as int].0);
                } else if a == i {
                    assert(old(self).bufs@[b].0 != vm_id);
                } else {
                    assert(old(self).bufs@[a].0 != vm_id);
                }
            }
            assert forall|other: u128| other != vm_id implies self.buffer(other) == old(self).buffer(other) by {
                if exists|k: int| 0 <= k < old(self).bufs@.len() && old(self).bufs@[k].0 == other {
                    let k = choose|k: int| 0 <= k < old(self).bufs@.len() && old(self).bufs@[k].0 == other;
                    assert(self.bufs@[k].0 == other);
                }
                if exists|k: int| 0 <= k < self.bufs@.len() && self.bufs@[k].0 == other {
                    let k = choose|k: int| 0 <= k < self.bufs@.len() && self.bufs@[k].0 == other;
                    assert(old(self).bufs@[k].0 == other);
                }
            }
            let k = choose|k: int| 0 <= k < self.bufs@.len() && self.bufs@[k].0 == vm_id;
            assert(k == i);
        }
    }

    /// Take VM `vm_id`'s buffered output, leaving it without a buffer.
    pub fn drain_serial_output(&mut self, vm_id: u128) -> (r: String)
        requires
            old(self).wf(),
        ensures
            final(self).wf(),
            r@ == old(self).text_of(vm_id),
            final(self).buffer(vm_id) is None,
            forall|id: u128| id != vm_id ==> final(self).buffer(id) == old(self).buffer(id),
    {
        match self.position(vm_id) {
            None => String::new(),
            Some(i) => {
                proof {
                    let k = choose|k: int| 0 <= k < self.bufs@.len() && self.bufs@[k].0 == vm_id;
                    assert(k == i);
                }
                let (_, s) = self.bufs.remove(i);
                proof {
                    assert forall|other: u128| other != vm_id implies self.buffer(other) == old(self).buffer(other) by {
                        if exists|k: int| 0 <= k < old(self).bufs@.len() && old(self).bufs@[k].0 == other {
                            let k = choose|k: int| 0 <= k < old(self).bufs@.len() && old(self).bufs@[k].0 == other;
                            if k < i { assert(self.bufs@[k].0 == other); } else { assert(self.bufs@[k - 1].0 == other); }
                        }
                        if exists|k: int| 0 <= k < self.bufs@.len() && self.bufs@[k].0 == other {
                            let k = choose|k: int| 0 <= k < self.bufs@.len() && self.bufs@[k].0 == other;
                            if k < i { assert(old(self).bufs@[k].0 == other); } else { assert(old(self).bufs@[k + 1].0 == other); }
                        }
                    }
                    if exists|k: int| 0 <= k < self.bufs@.len() && self.bufs@[k].0 == vm_id {
                        let k = choose|k: int| 0 <= k < self.bufs@.len() && self.bufs@[k].0 == vm_id;
                        if k < i { assert(old(self).bufs@[k].0 == vm_id); } else { assert(old(self).bufs@[k + 1].0 == vm_id); }
                    }
                }
                s
            },
        }
    }
}

} // verus!
