use vstd::prelude::*;

use crate::strategy::HotReloadStrategy;

verus! {

/// Why a reload attempt failed. The message is for diagnostics only.
#[derive(Clone, Debug, PartialEq, Eq)]
pub enum ReloadError {
    /// The source could not be read (missing file, permission denied).
    LoadFailure(String),
    /// The source was read but could not be decoded.
    FormatFailure(String),
    /// The watched source was deleted between the check and the reload.
    SourceGoneFailure(String),
}

/// Freshly loaded content, with the name of the format that decoded it.
#[derive(Clone, Debug)]
pub struct FormatValue<D> {
    pub data: D,
    pub format: String,
}

/// Produces an independent copy of a reload capability: same source,
/// internal cursors reset.
pub trait ReloadClone<D>: Sized {
    fn cloned(&self) -> Self;
}

/// Implemented by each asset source that can be watched for changes.
pub trait Reload<D>: ReloadClone<D> {
    /// Checks, cheaply, whether the backing source changed since the last load.
    fn needs_reload(&self) -> bool;

    /// The asset's name, for diagnostics.
    fn name(&self) -> String;

    /// The format's name, for diagnostics.
    fn format(&self) -> &'static str;

    /// Loads the asset again. One attempt per instance: it is consumed.
    fn reload(self) -> Result<FormatValue<D>, ReloadError>;
}

/// One loaded asset. `reload_source` is present only for assets loaded from
/// a source that can be watched.
pub struct AssetEntry<D, R> {
    pub key: u64,
    pub content: D,
    pub reload_source: Option<R>,
}

/// A failed reload, recorded against the asset it concerns.
#[derive(Clone, Debug)]
pub struct ReloadFailure {
    pub key: u64,
    pub name: String,
    pub format: &'static str,
    pub error: ReloadError,
}

/// What the reload pass did with one asset.
#[derive(Clone, Debug)]
pub enum ReloadStatus {
    /// The asset has no watched source, or its source did not change.
    Skipped,
    /// The content was replaced by freshly loaded content.
    Reloaded,
    /// The reload failed; the previous content is kept.
    Failed(ReloadFailure),
}

/// The entry after a reload attempt that returned `outcome`: fresh content on
/// success, the entry unchanged on failure.
pub open spec fn applied<D, R>(entry: AssetEntry<D, R>, outcome: Result<FormatValue<D>, ReloadError>) -> AssetEntry<D, R> {
    match outcome {
        Ok(v) => AssetEntry { key: entry.key, content: v.data, reload_source: entry.reload_source },
        Err(_) => entry,
    }
}

/// Swaps in the content of a successful reload attempt; keeps the entry
/// whole when the attempt failed.
pub fn apply_outcome<D, R>(
    entry: &mut AssetEntry<D, R>,
    outcome: Result<FormatValue<D>, ReloadError>,
) -> (r: Result<(), ReloadError>)
    ensures
        *final(entry) == applied(*old(entry), outcome),
        match outcome {
            Ok(_) => r is Ok,
            Err(e) => r == Err::<(), ReloadError>(e),
        },
{
    match outcome {
        Ok(v) => {
            entry.content = v.data;
            Ok(())
        },
        Err(e) => Err(e),
    }
}

/// Turns the answer of one reload attempt into the entry's new state and a
/// status: the fresh content on success, the entry unchanged and the error
/// recorded against its key, `name` and `format` on failure.
pub fn finish_reload<D, R>(
    entry: &mut AssetEntry<D, R>,
    name: String,
    format: &'static str,
    outcome: Result<FormatValue<D>, ReloadError>,
) -> (r: ReloadStatus)
    ensures
        *final(entry) == applied(*old(entry), outcome),
        outcome is Ok <==> r is Reloaded,
        outcome matches Err(e) ==> r == ReloadStatus::Failed(
            ReloadFailure { key: old(entry).key, name, format, error: e },
        ),
{
    let key = entry.key;
    match apply_outcome(entry, outcome) {
        Ok(()) => ReloadStatus::Reloaded,
        Err(error) => ReloadStatus::Failed(ReloadFailure { key, name, format, error }),
    }
}

/// Acts on the answer `changed` of the entry's source to `needs_reload`:
/// an entry without a source, or whose source did not change, is skipped and
/// left as it is; otherwise a clone of the source is consumed by one reload
/// attempt, whose answer `finish_reload` applies. The stored source is kept.
pub fn reload_if_changed<D, R: Reload<D>>(entry: &mut AssetEntry<D, R>, changed: bool) -> (r:
    ReloadStatus)
    ensures
        (old(entry).reload_source is None || !changed) <==> r is Skipped,
        !(r is Reloaded) ==> *final(entry) == *old(entry),
        final(entry).key == old(entry).key,
        final(entry).reload_source == old(entry).reload_source,
        r matches ReloadStatus::Failed(f) ==> f.key == old(entry).key,
{
    let attempt = match &entry.reload_source {
        Some(source) => {
            if changed {
                Some(source.cloned())
            } else {
                None
            }
        },
        None => None,
    };
    match attempt {
        None => ReloadStatus::Skipped,
        Some(attempt) => {
            let name = attempt.name();
            let format = attempt.format();
            finish_reload(entry, name, format, attempt.reload())
        },
    }
}

/// Asks the entry's source, if any, whether it changed, and acts on the answer.
fn reload_entry<D, R: Reload<D>>(entry: &mut AssetEntry<D, R>) -> (r: ReloadStatus)
    ensures
        final(entry).key == old(entry).key,
        final(entry).reload_source == old(entry).reload_source,
        old(entry).reload_source is None ==> r is Skipped,
        !(r is Reloaded) ==> *final(entry) == *old(entry),
        r matches ReloadStatus::Failed(f) ==> f.key == old(entry).key,
{
    let changed = match &entry.reload_source {
        Some(source) => source.needs_reload(),
        None => false,
    };
    reload_if_changed(entry, changed)
}

/// The reload pass of one frame. When `strategy` says no reload is due at
/// `current_frame`, nothing is touched and no status is returned. Otherwise
/// every entry is visited, in order, and gets one status: an entry without a
/// watched source is skipped, and an entry whose reload failed keeps its
/// content, while the pass goes on with the next entry. Each entry's status
/// is the one `reload_if_changed` gives for its source's `needs_reload` answer.
pub fn reload_pass<D, R: Reload<D>>(
    strategy: &HotReloadStrategy,
    current_frame: u64,
    entries: &mut Vec<AssetEntry<D, R>>,
) -> (r: Vec<ReloadStatus>)
    ensures
        !strategy@.is_due(current_frame) ==> r@.len() == 0 && final(entries)@ == old(entries)@,
        strategy@.is_due(current_frame) ==> r@.len() == old(entries)@.len(),
        final(entries)@.len() == old(entries)@.len(),
        forall|i: int|
            0 <= i < old(entries)@.len() ==> {
                &&& (#[trigger] final(entries)@[i]).key == old(entries)@[i].key
                &&& final(entries)@[i].reload_source == old(entries)@[i].reload_source
            },
        forall|i: int|
            0 <= i < r@.len() ==> {
                &&& old(entries)@[i].reload_source is None ==> #[trigger] r@[i] is Skipped
                &&& !(r@[i] is Reloaded) ==> final(entries)@[i] == old(entries)@[i]
                &&& r@[i] matches ReloadStatus::Failed(f) ==> f.key == old(entries)@[i].key
            },
{
    let mut statuses: Vec<ReloadStatus> = Vec::new();
    if !strategy.needs_reload(current_frame) {
        return statuses;
    }
    let n = entries.len();
    let mut i: usize = 0;
    while i < n
        invariant
            0 <= i <= n,
            n == old(entries)@.len(),
            entries@.len() == n,
            statuses@.len() == i,
            forall|j: int| i <= j < n ==> #[trigger] entries@[j] == old(entries)@[j],
            forall|j: int|
                0 <= j < n ==> {
                    &&& (#[trigger] entries@[j]).key == old(entries)@[j].key
                    &&& entries@[j].reload_source == old(entries)@[j].reload_source
                },
            forall|j: int|
                0 <= j < i ==> {
                    &&& old(entries)@[j].reload_source is None ==> #[trigger] statuses@[j] is Skipped
                    &&& !(statuses@[j] is Reloaded) ==> entries@[j] == old(entries)@[j]
                    &&& statuses@[j] matches ReloadStatus::Failed(f) ==> f.key == old(entries)@[j].key
                },
        decreases n - i,
    {
        let status = reload_entry(&mut entries[i]);
        statuses.push(status);
        i = i + 1;
    }
    statuses
}

} // verus!
