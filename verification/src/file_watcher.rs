//! Single-path change watching with soft cancellation.
//!
//! Exactly one path is watched at a time; starting a new watch supersedes
//! the old one.  The host spawns one monitoring task per started watch and
//! the task polls the shared watched path: the decisions that task takes —
//! whether a debounced event batch warrants a notification, and whether the
//! task must stop because its bound path was superseded — are the verified
//! functions here.  The subscription to raw file-system events itself lives
//! with the host.

use vstd::prelude::*;
use vstd::string::StringExecFns;

verus! {

/// The shared watcher state: the currently watched path, or nothing when
/// idle.
pub struct FileWatcher {
    pub current_path: Option<String>,
}

impl FileWatcher {
    /// An idle watcher.
    pub fn new() -> (w: FileWatcher)
        ensures
            w.current_path is None,
    {
        FileWatcher { current_path: None }
    }
}

/// An idle watcher, ready to be shared with the monitoring tasks.
pub fn init() -> (w: FileWatcher)
    ensures
        w.current_path is None,
{
    FileWatcher::new()
}

/// Relies on std::path::Path::exists: whether the path points at an entity
/// on disk.  The outcome depends on the file system, so nothing is promised
/// of it.
#[verifier::external_body]
fn path_exists(path: &String) -> bool {
    std::path::Path::new(path.as_str()).exists()
}

/// Record `path` as the watched target when it exists on disk, superseding
/// any prior watch; refuse it otherwise, leaving the watcher unchanged.
pub fn apply_start(w: &mut FileWatcher, path: String, exists: bool) -> (r: Result<(), String>)
    ensures
        exists ==> r is Ok && final(w).current_path == Some(path),
        !exists ==> (r matches Err(m) && m@ == "Path does not exist: "@ + path@ && *final(w)
            == *old(w)),
{
    if exists {
        w.current_path = Some(path);
        Ok(())
    } else {
        let mut message = "Path does not exist: ".to_owned();
        message.append(path.as_str());
        Err(message)
    }
}

/// Start watching `path`: fails when the path is missing on disk, otherwise
/// the path becomes the watched target, superseding any prior one.  The
/// caller then runs the monitoring task; a task bound to the superseded path
/// stops on its next poll (see `should_stop`).
pub fn start_watching(path: String, w: &mut FileWatcher) -> (r: Result<(), String>)
    ensures
        r is Ok ==> final(w).current_path == Some(path),
        r is Err ==> *final(w) == *old(w),
{
    let exists = path_exists(&path);
    apply_start(w, path, exists)
}

/// Stop watching: clears the watched path and returns at once, without
/// waiting for the monitoring task to observe it.  On an idle watcher this
/// is a no-op and no error.
pub fn stop_watching(w: &mut FileWatcher) -> (r: Result<(), String>)
    ensures
        r is Ok,
        final(w).current_path is None,
{
    w.current_path = None;
    Ok(())
}

/// The kinds of file-system events, reduced to what the watcher reacts to.
#[derive(Debug, Clone, Copy, PartialEq, Eq, Structural)]
pub enum WatchEventKind {
    Create,
    Modify,
    Remove,
    Other,
}

/// One debounced file-system event: its kind and the paths it touched.
#[derive(Debug, Clone)]
pub struct WatchEvent {
    pub kind: WatchEventKind,
    pub paths: Vec<String>,
}

/// A kind the watcher notifies on: a creation, modification or removal.
pub open spec fn spec_relevant(kind: WatchEventKind) -> bool {
    kind == WatchEventKind::Create || kind == WatchEventKind::Modify || kind
        == WatchEventKind::Remove
}

/// The event is a relevant change of `watched`.
pub open spec fn spec_event_hits(e: WatchEvent, watched: Seq<char>) -> bool {
    spec_relevant(e.kind) && (exists|i: int|
        0 <= i < e.paths@.len() && (#[trigger] e.paths@[i])@ == watched)
}

/// Some event of the batch is a relevant change of `watched`.
pub open spec fn spec_batch_hits(batch: Seq<WatchEvent>, watched: Seq<char>) -> bool {
    exists|i: int| 0 <= i < batch.len() && spec_event_hits(#[trigger] batch[i], watched)
}

/// The notification a debounced batch produces: the watched path when some
/// relevant event of the batch touches it, and nothing otherwise — in
/// particular nothing when no path is watched.
pub open spec fn spec_notification(batch: Seq<WatchEvent>, current: Option<String>) -> Option<
    Seq<char>,
> {
    if current matches Some(w) && spec_batch_hits(batch, w@) {
        Some(current->0@)
    } else {
        None
    }
}

/// Decide what a debounced event batch means for the currently watched path:
/// at most one notification per batch, carrying the watched path.
pub fn notification_for(batch: &Vec<WatchEvent>, current: &Option<String>) -> (r: Option<String>)
    ensures
        (match r {
            Some(p) => Some(p@),
            None => None,
        }) == spec_notification(batch@, *current),
{
    let watched = match current {
        Some(w) => w,
        None => {
            return None;
        },
    };
    let mut i: usize = 0;
    while i < batch.len()
        invariant
            i <= batch@.len(),
            *current == Some(*watched),
            forall|k: int| 0 <= k < i ==> !spec_event_hits(#[trigger] batch@[k], watched@),
        decreases batch@.len() - i,
    {
        let event = &batch[i];
        let relevant = event.kind == WatchEventKind::Create || event.kind
            == WatchEventKind::Modify || event.kind == WatchEventKind::Remove;
        if relevant {
            let mut j: usize = 0;
            while j < event.paths.len()
                invariant
                    i < batch@.len(),
                    *event == batch@[i as int],
                    spec_relevant(event.kind),
                    *current == Some(*watched),
                    j <= event.paths@.len(),
                    forall|k: int| 0 <= k < j ==> (#[trigger] event.paths@[k])@ != watched@,
                decreases event.paths@.len() - j,
            {
                if event.paths[j] == *watched {
                    proof {
                        assert(spec_event_hits(batch@[i as int], watched@));
                        assert(spec_batch_hits(batch@, watched@));
                    }
                    return Some(watched.clone());
                }
                j = j + 1;
            }
        }
        i = i + 1;
    }
    None
}

/// The poll decision of a monitoring task bound to `bound`: stop as soon as
/// the shared watched path no longer equals it.
pub open spec fn spec_should_stop(bound: Seq<char>, current: Option<String>) -> bool {
    !(current matches Some(c) && c@ == bound)
}

/// Decide whether a task bound to `bound` must stop, by comparing it with
/// the shared watched path.
pub fn should_stop(bound: &String, current: &Option<String>) -> (stop: bool)
    ensures
        stop == spec_should_stop(bound@, *current),
{
    match current {
        Some(c) => !(*c == *bound),
        None => true,
    }
}

/// Supersession: once the shared watched path holds a new target, a task
/// still bound to the old one decides to stop on its next poll, and no
/// debounced batch produces a notification for the old path — whatever a
/// batch produces names the new target.
pub proof fn lemma_supersession(
    current: Option<String>,
    old_path: Seq<char>,
    new_path: Seq<char>,
    batch: Seq<WatchEvent>,
)
    requires
        current matches Some(c) && c@ == new_path,
        old_path != new_path,
    ensures
        spec_should_stop(old_path, current),
        spec_notification(batch, current) != Some(old_path),
{
}

} // verus!
