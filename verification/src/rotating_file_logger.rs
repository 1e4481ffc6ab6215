//! The rotating file writer: a size-bounded writer that either archives the
//! active file into a numbered backup chain or stops persisting, when the
//! configured size limit is reached.
//!
//! The writer here is the arbiter of every rotation decision and carries the
//! whole retained-file state as plain data: the bytes of the active file, the
//! numbered backups (`backups[i]` models the file `.{i+1}`), and the target
//! of the "latest" pointer. A caller that keeps real files mirrors each
//! operation onto the filesystem; every decision and every state change is
//! made, and proved, here.

use vstd::prelude::*;
use vstd::slice::slice_to_vec;
use vstd::string::StringExecFns;

use crate::config::RotatingFileConfig;
use crate::text::{spec_strip_suffix_all, strip_suffix_all};

verus! {

/// The largest size limit, in MB, whose byte count still fits in a `u64`.
pub const SIZE_MB_LIMIT: u64 = 17592186044415;

/// A rotating-writer configuration is well-formed when its size limit in
/// bytes fits the counter.
pub open spec fn config_wf(c: RotatingFileConfig) -> bool {
    c.max_size_mb <= SIZE_MB_LIMIT
}

/// The size limit in bytes.
pub open spec fn spec_max_bytes(c: RotatingFileConfig) -> int {
    c.max_size_mb * 1048576
}

/// Executable size limit in bytes.
pub fn max_size_bytes(c: &RotatingFileConfig) -> (r: u64)
    requires
        config_wf(*c),
    ensures
        r as int == spec_max_bytes(*c),
{
    proof {
        assert(c.max_size_mb * 1048576 <= 17592186044415u64 * 1048576) by (nonlinear_arith)
            requires
                c.max_size_mb <= 17592186044415u64,
        ;
    }
    c.max_size_mb * 1024 * 1024
}

/// The session file name: the base name without its `.log` suffixes, an
/// underscore, the timestamp, and `.log`.
pub open spec fn spec_timestamped(base: Seq<char>, ts: Seq<char>) -> Seq<char> {
    spec_strip_suffix_all(base, ".log"@) + "_"@ + ts + ".log"@
}

/// The name of the "latest" pointer entry for a base file name.
pub open spec fn spec_latest_name(base: Seq<char>) -> Seq<char> {
    spec_strip_suffix_all(base, ".log"@) + "_latest.log"@
}

/// Build the timestamped session file name.
pub fn timestamped_filename(base: &str, ts: &str) -> (r: String)
    ensures
        r@ == spec_timestamped(base@, ts@),
{
    let mut r = strip_suffix_all(base, ".log");
    r.append("_");
    r.append(ts);
    r.append(".log");
    r
}

/// Build the name of the "latest" pointer entry.
pub fn latest_filename(base: &str) -> (r: String)
    ensures
        r@ == spec_latest_name(base@),
{
    let mut r = strip_suffix_all(base, ".log");
    r.append("_latest.log");
    r
}

/// Relies on chrono's `Local::now` and `DateTime::format` for the session
/// timestamp (`%Y%m%d_%H%M%S`); the result depends on the wall clock, so
/// nothing is promised of it.
#[verifier::external_body]
fn current_timestamp() -> String {
    chrono::Local::now().format("%Y%m%d_%H%M%S").to_string()
}

/// Most backups a writer retains: one below `max_files`, but never below
/// one (a rotation always produces the `.1` file, whatever the setting).
pub open spec fn spec_backup_cap(mf: int) -> int {
    if mf <= 1 {
        1
    } else {
        mf - 1
    }
}

/// How many old backups survive a rotation.
pub open spec fn spec_keep(mf: int) -> int {
    if mf <= 2 {
        0
    } else {
        mf - 2
    }
}

/// The backup chain after one rotation: the closed active file becomes `.1`,
/// the old backups shift up one index, and whatever would pass `max_files`
/// is dropped.
pub open spec fn spec_rotated_backups(
    active: Seq<u8>,
    backups: Seq<Seq<u8>>,
    mf: int,
) -> Seq<Seq<u8>> {
    seq![active] + backups.take(
        if backups.len() <= spec_keep(mf) {
            backups.len() as int
        } else {
            spec_keep(mf)
        },
    )
}

/// The rotated chain starts with the just-closed file and respects the
/// retention bound.
pub proof fn lemma_rotated_backups(active: Seq<u8>, backups: Seq<Seq<u8>>, mf: int)
    ensures
        spec_rotated_backups(active, backups, mf)[0] == active,
        spec_rotated_backups(active, backups, mf).len() <= spec_backup_cap(mf),
        mf >= 1 ==> spec_rotated_backups(active, backups, mf).len() <= mf,
{
}

/// The rotating writer and its retained-file state.
///
/// `active` models the bytes of the currently open file, `backups[i]` the
/// numbered file `.{i+1}`, and `latest_target` the file the "latest"
/// pointer resolves to.
#[derive(Debug)]
pub struct RotatingWriter {
    pub config: RotatingFileConfig,
    pub active_name: String,
    pub latest_target: String,
    pub current_size: u64,
    pub active: Vec<u8>,
    pub backups: Vec<Vec<u8>>,
}

impl RotatingWriter {
    /// The backup chain as byte sequences: `backups_view()[i]` models the
    /// contents of the numbered file `.{i+1}`.
    pub open spec fn backups_view(&self) -> Seq<Seq<u8>> {
        self.backups@.map_values(|b: Vec<u8>| b@)
    }

    /// The writer's invariant: the size counter equals the bytes actually
    /// held by the active file, the backup chain respects the retention
    /// bound, and the "latest" pointer names the active file.
    pub open spec fn wf(&self) -> bool {
        &&& config_wf(self.config)
        &&& self.current_size as int == self.active@.len()
        &&& self.backups@.len() <= spec_backup_cap(self.config.max_files as int)
        &&& self.latest_target@ == self.active_name@
    }

    /// Open a fresh writer whose session file name carries the given
    /// timestamp. The new file is empty and the "latest" pointer is set to
    /// it.
    pub fn open_with_timestamp(config: RotatingFileConfig, ts: &str) -> (w: Self)
        requires
            config_wf(config),
        ensures
            w.wf(),
            w.config == config,
            w.active@ == Seq::<u8>::empty(),
            w.current_size == 0,
            w.backups_view() == Seq::<Seq<u8>>::empty(),
            w.active_name@ == spec_timestamped(config.filename@, ts@),
            w.latest_target@ == w.active_name@,
    {
        let name = timestamped_filename(config.filename.as_str(), ts);
        let latest = name.clone();
        let w = RotatingWriter {
            config,
            active_name: name,
            latest_target: latest,
            current_size: 0,
            active: Vec::new(),
            backups: Vec::new(),
        };
        proof {
            assert(w.backups_view() =~= Seq::<Seq<u8>>::empty());
            assert(w.active@ =~= Seq::<u8>::empty());
        }
        w
    }

    /// Open a fresh writer for this session, stamped with the current time.
    pub fn new(config: RotatingFileConfig) -> (w: Self)
        requires
            config_wf(config),
        ensures
            w.wf(),
            w.config == config,
            w.active@ == Seq::<u8>::empty(),
            w.current_size == 0,
            w.backups_view() == Seq::<Seq<u8>>::empty(),
            w.latest_target@ == w.active_name@,
    {
        let ts = current_timestamp();
        Self::open_with_timestamp(config, ts.as_str())
    }

    /// Would accepting `incoming` more bytes reach the size limit?
    pub fn should_rotate(&self, incoming: usize) -> (r: bool)
        requires
            self.wf(),
        ensures
            r == (self.current_size as int + incoming as int >= spec_max_bytes(self.config)),
    {
        let mb = max_size_bytes(&self.config);
        if self.current_size >= mb {
            true
        } else {
            incoming as u64 >= mb - self.current_size
        }
    }

    /// Archive the active file: it becomes backup `.1`, the old backups
    /// shift up (dropping what would pass the retention bound), the active
    /// file starts again empty, and the "latest" pointer is refreshed to the
    /// (unchanged) active file name.
    pub fn rotate(&mut self)
        requires
            old(self).wf(),
        ensures
            final(self).wf(),
            final(self).config == old(self).config,
            final(self).active_name == old(self).active_name,
            final(self).latest_target@ == final(self).active_name@,
            final(self).active@ == Seq::<u8>::empty(),
            final(self).current_size == 0,
            final(self).backups_view() == spec_rotated_backups(
                old(self).active@,
                old(self).backups_view(),
                old(self).config.max_files as int,
            ),
    {
        let keep: usize = if self.config.max_files <= 2 {
            0
        } else {
            self.config.max_files - 2
        };
        self.backups.truncate(keep);
        let closed = slice_to_vec(self.active.as_slice());
        self.backups.insert(0, closed);
        self.active = Vec::new();
        self.current_size = 0;
        self.latest_target = self.active_name.clone();
        proof {
            let mf = self.config.max_files as int;
            let obs = old(self).backups_view();
            let cut = if obs.len() <= spec_keep(mf) {
                obs.len() as int
            } else {
                spec_keep(mf)
            };
            assert(self.backups_view() =~= seq![old(self).active@] + obs.take(cut));
            assert(self.active@ =~= Seq::<u8>::empty());
        }
    }

    /// The size of the active file after a write in truncate mode: unchanged
    /// once the limit would be reached, grown by the whole write otherwise.
    pub open spec fn truncate_write_size(size: int, len: int, mb: int) -> int {
        if size + len >= mb {
            size
        } else {
            size + len
        }
    }

    /// Accept `buf`. When the limit is not reached the bytes are appended
    /// whole; when it is, truncate mode discards them (still reporting the
    /// full count, so callers see no spurious error) and archive mode
    /// rotates first and starts the new file with exactly these bytes.
    pub fn write(&mut self, buf: &[u8]) -> (n: usize)
        requires
            old(self).wf(),
        ensures
            n == buf@.len(),
            final(self).wf(),
            final(self).config == old(self).config,
            final(self).active_name == old(self).active_name,
            final(self).latest_target@ == old(self).latest_target@,
            old(self).current_size as int + buf@.len() < spec_max_bytes(old(self).config) ==> {
                &&& final(self).active@ == old(self).active@ + buf@
                &&& final(self).backups == old(self).backups
                &&& final(self).current_size as int == old(self).current_size as int
                    + buf@.len()
            },
            (old(self).current_size as int + buf@.len() >= spec_max_bytes(old(self).config)
                && old(self).config.truncate_on_limit) ==> *final(self) == *old(self),
            (old(self).current_size as int + buf@.len() >= spec_max_bytes(old(self).config)
                && !old(self).config.truncate_on_limit) ==> {
                &&& final(self).backups_view() == spec_rotated_backups(
                    old(self).active@,
                    old(self).backups_view(),
                    old(self).config.max_files as int,
                )
                &&& final(self).active@ == buf@
                &&& final(self).current_size as int == buf@.len()
            },
            old(self).config.truncate_on_limit ==> final(self).current_size as int
                == Self::truncate_write_size(
                old(self).current_size as int,
                buf@.len() as int,
                spec_max_bytes(old(self).config),
            ),
    {
        let len = buf.len();
        if self.should_rotate(len) {
            if self.config.truncate_on_limit {
                return len;
            }
            self.rotate();
        }
        let mut add = slice_to_vec(buf);
        self.active.append(&mut add);
        self.current_size = self.active.len() as u64;
        len
    }
}

/// In truncate mode a file at or under the limit
/// stays at or under the limit, whatever is written.
pub proof fn lemma_truncate_never_exceeds(size: int, len: int, mb: int)
    requires
        0 <= size <= mb,
        0 <= len,
    ensures
        RotatingWriter::truncate_write_size(size, len, mb) <= mb,
{
}

/// The retention law for the whole life of a writer: well-formedness (which every method
/// preserves) bounds the numbered backup chain by `max_files`, for any
/// setting of at least one file.
pub proof fn lemma_retained_bound(w: &RotatingWriter)
    requires
        w.wf(),
        w.config.max_files >= 1,
    ensures
        w.backups@.len() <= w.config.max_files,
{
}

/// The "latest" pointer of a well-formed writer always resolves to the
/// currently active file; rotation and opening both re-establish it.
pub proof fn lemma_latest_resolves_to_active(w: &RotatingWriter)
    requires
        w.wf(),
    ensures
        w.latest_target@ == w.active_name@,
{
}

/// Contents after a sequence of whole-buffer appends, one write at a time.
pub open spec fn append_all(c: Seq<u8>, ls: Seq<Seq<u8>>) -> Seq<u8>
    decreases ls.len(),
{
    if ls.len() == 0 {
        c
    } else {
        append_all(c + ls[0], ls.skip(1))
    }
}

/// The serialization law's sequential core: writes that each append their buffer whole (as
/// `write` does below the limit) produce exactly the concatenation of those
/// buffers, in order — lines from distinct writers never interleave within
/// one another, whatever order the writes are serialized in.
pub proof fn lemma_appends_concatenate(c: Seq<u8>, ls: Seq<Seq<u8>>)
    ensures
        append_all(c, ls) == c + ls.flatten(),
    decreases ls.len(),
{
    if ls.len() == 0 {
        assert(ls.flatten() == Seq::<u8>::empty());
        assert(append_all(c, ls) =~= c + ls.flatten());
    } else {
        lemma_appends_concatenate(c + ls[0], ls.skip(1));
        assert(ls.drop_first() == ls.skip(1));
        assert((c + ls[0]) + ls.skip(1).flatten() =~= c + (ls[0] + ls.skip(1).flatten()));
        assert(ls.flatten() == ls.first() + ls.drop_first().flatten());
    }
}

/// Builder for a rotating-writer configuration.
pub struct RotatingFileLoggerBuilder {
    pub config: RotatingFileConfig,
}

impl RotatingFileLoggerBuilder {
    /// Set the log directory.
    pub fn with_directory(self, dir: &str) -> (r: Self)
        ensures
            r.config.log_directory@ == dir@,
            r.config.filename == self.config.filename,
            r.config.max_files == self.config.max_files,
            r.config.max_size_mb == self.config.max_size_mb,
            r.config.console_output == self.config.console_output,
            r.config.truncate_on_limit == self.config.truncate_on_limit,
    {
        let mut c = self.config;
        c.log_directory = dir.to_owned();
        RotatingFileLoggerBuilder { config: c }
    }

    /// Set the base file name.
    pub fn with_filename(self, filename: &str) -> (r: Self)
        ensures
            r.config.filename@ == filename@,
            r.config.log_directory == self.config.log_directory,
            r.config.max_files == self.config.max_files,
            r.config.max_size_mb == self.config.max_size_mb,
            r.config.console_output == self.config.console_output,
            r.config.truncate_on_limit == self.config.truncate_on_limit,
    {
        let mut c = self.config;
        c.filename = filename.to_owned();
        RotatingFileLoggerBuilder { config: c }
    }

    /// Set the retained-file count.
    pub fn with_max_files(self, max: usize) -> (r: Self)
        ensures
            r.config.max_files == max,
            r.config.log_directory == self.config.log_directory,
            r.config.filename == self.config.filename,
            r.config.max_size_mb == self.config.max_size_mb,
            r.config.console_output == self.config.console_output,
            r.config.truncate_on_limit == self.config.truncate_on_limit,
    {
        let mut c = self.config;
        c.max_files = max;
        RotatingFileLoggerBuilder { config: c }
    }

    /// Set the size limit in MB.
    pub fn with_max_size_mb(self, size: u64) -> (r: Self)
        ensures
            r.config.max_size_mb == size,
            r.config.log_directory == self.config.log_directory,
            r.config.filename == self.config.filename,
            r.config.max_files == self.config.max_files,
            r.config.console_output == self.config.console_output,
            r.config.truncate_on_limit == self.config.truncate_on_limit,
    {
        let mut c = self.config;
        c.max_size_mb = size;
        RotatingFileLoggerBuilder { config: c }
    }

    /// Set console mirroring.
    pub fn with_console(self, enabled: bool) -> (r: Self)
        ensures
            r.config.console_output == enabled,
            r.config.log_directory == self.config.log_directory,
            r.config.filename == self.config.filename,
            r.config.max_files == self.config.max_files,
            r.config.max_size_mb == self.config.max_size_mb,
            r.config.truncate_on_limit == self.config.truncate_on_limit,
    {
        let mut c = self.config;
        c.console_output = enabled;
        RotatingFileLoggerBuilder { config: c }
    }

    /// Set the limit policy: truncate (true) or archive (false).
    pub fn with_truncate_on_limit(self, truncate: bool) -> (r: Self)
        ensures
            r.config.truncate_on_limit == truncate,
            r.config.log_directory == self.config.log_directory,
            r.config.filename == self.config.filename,
            r.config.max_files == self.config.max_files,
            r.config.max_size_mb == self.config.max_size_mb,
            r.config.console_output == self.config.console_output,
    {
        let mut c = self.config;
        c.truncate_on_limit = truncate;
        RotatingFileLoggerBuilder { config: c }
    }
}

/// Entry point for building a rotating file writer configuration.
pub struct RotatingFileLogger;

impl RotatingFileLogger {
    /// Start building from the default configuration.
    pub fn init() -> (b: RotatingFileLoggerBuilder)
        ensures
            b.config.log_directory@ == "logs"@,
            b.config.filename@ == "app.log"@,
            b.config.max_files == 10,
            b.config.max_size_mb == 5,
            b.config.console_output == true,
            b.config.truncate_on_limit == true,
    {
        RotatingFileLoggerBuilder { config: RotatingFileConfig::default() }
    }
}

} // verus!
