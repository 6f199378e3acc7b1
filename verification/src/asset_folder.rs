//! Loading every asset of a folder: which handles are still loading, which are done.

use vstd::prelude::*;
use vstd::string::*;

verus! {

/// How far loading the assets of a folder got.
#[derive(Clone, Copy, PartialEq, Eq, Hash, Debug, Structural)]
pub enum LoadState {
    Idle,
    Loading,
    HandlesPresent,
    Finished,
}

impl Default for LoadState {
    fn default() -> (s: LoadState)
        ensures
            s == LoadState::Idle,
    {
        LoadState::Idle
    }
}

impl LoadState {
    pub fn idle() -> (s: LoadState)
        ensures
            s == LoadState::Idle,
    {
        LoadState::Idle
    }

    pub fn loading() -> (s: LoadState)
        ensures
            s == LoadState::Loading,
    {
        LoadState::Loading
    }

    pub fn handles_present() -> (s: LoadState)
        ensures
            s == LoadState::HandlesPresent,
    {
        LoadState::HandlesPresent
    }

    pub fn finished() -> (s: LoadState)
        ensures
            s == LoadState::Finished,
    {
        LoadState::Finished
    }

    pub fn is_finished(&self) -> (r: bool)
        ensures
            r == (*self == LoadState::Finished),
    {
        *self == LoadState::Finished
    }
}

/// Where loading one asset stands.
#[derive(Clone, Copy, PartialEq, Eq, Debug, Structural)]
pub enum AssetLoadStatus {
    Pending,
    Loaded,
    Failed,
}

/// The identifier an asset is filed under: the characters of its file name before the
/// first `'.'`, or the whole name when it has none (`world.lozo.ron` is filed as `world`).
pub open spec fn is_id_of(id: Seq<char>, file_name: Seq<char>) -> bool {
    &&& id.len() <= file_name.len()
    &&& id == file_name.take(id.len() as int)
    &&& !id.contains('.')
    &&& (id.len() == file_name.len() || file_name[id.len() as int] == '.')
}

/// The identifier of the asset stored in the file `file_name`: the name up to its first dot.
pub fn asset_id(file_name: &str) -> (id: String)
    ensures
        is_id_of(id@, file_name@),
{
    let n = file_name.unicode_len();
    let mut k: usize = 0;
    while k < n
        invariant
            k <= n,
            n == file_name@.len(),
            forall|j: int| 0 <= j < k ==> file_name@[j] != '.',
        ensures
            k <= n,
            forall|j: int| 0 <= j < k ==> file_name@[j] != '.',
            k == n || file_name@[k as int] == '.',
        decreases n - k,
    {
        if file_name.get_char(k) == '.' {
            break;
        }
        k = k + 1;
    }
    let id = String::from_str(file_name.substring_char(0, k));
    proof {
        assert(id@ =~= file_name@.take(k as int));
        if id@.contains('.') {
            let j = choose|j: int| 0 <= j < id@.len() && id@[j] == '.';
            assert(file_name@[j] == '.');
        }
    }
    id
}

/// The assets of a folder sorted by how their loading went.
pub struct FolderUpdate<H> {
    /// Handles still loading, in their original order.
    pub still_loading: Vec<H>,
    /// Loaded assets with the identifier they are filed under, in their original order.
    pub loaded: Vec<(String, H)>,
    /// How many handles settled, loaded or failed: the progress made.
    pub settled: usize,
}

/// The entries of `items` with status `status`, in order.
pub open spec fn with_status<H>(items: Seq<(H, String, AssetLoadStatus)>, status: AssetLoadStatus) -> Seq<
    (H, String, AssetLoadStatus),
>
    decreases items.len(),
{
    if items.len() == 0 {
        Seq::empty()
    } else {
        let rest = with_status(items.drop_last(), status);
        if items.last().2 == status {
            rest.push(items.last())
        } else {
            rest
        }
    }
}

/// Sorts the assets of a loading folder, each given as its handle, its file name and how
/// its loading stands: those pending keep loading, loaded ones are handed out with their
/// identifier, and every loaded or failed one counts as progress.
pub fn fill_asset_map<H>(loading: Vec<(H, String, AssetLoadStatus)>) -> (update: FolderUpdate<H>)
    ensures
        update.still_loading@.len() == with_status(loading@, AssetLoadStatus::Pending).len(),
        forall|k: int|
            0 <= k < update.still_loading@.len() ==> #[trigger] update.still_loading@[k] == with_status(
                loading@,
                AssetLoadStatus::Pending,
            )[k].0,
        update.loaded@.len() == with_status(loading@, AssetLoadStatus::Loaded).len(),
        forall|k: int|
            0 <= k < update.loaded@.len() ==> {
                let entry = with_status(loading@, AssetLoadStatus::Loaded)[k];
                &&& (#[trigger] update.loaded@[k]).1 == entry.0
                &&& is_id_of(update.loaded@[k].0@, entry.1@)
            },
        update.settled == loading@.len() - with_status(loading@, AssetLoadStatus::Pending).len(),
{
    let ghost items = loading@;
    let total = loading.len();
    let mut still_loading: Vec<H> = Vec::new();
    let mut loaded: Vec<(String, H)> = Vec::new();
    let mut settled: usize = 0;
    let mut rest = loading;
    let mut i: usize = 0;
    while rest.len() > 0
        invariant
            i + rest@.len() == items.len(),
            items.len() == total,
            rest@ == items.skip(i as int),
            still_loading@.len() == with_status(items.take(i as int), AssetLoadStatus::Pending).len(),
            forall|k: int|
                0 <= k < still_loading@.len() ==> #[trigger] still_loading@[k] == with_status(
                    items.take(i as int),
                    AssetLoadStatus::Pending,
                )[k].0,
            loaded@.len() == with_status(items.take(i as int), AssetLoadStatus::Loaded).len(),
            forall|k: int|
                0 <= k < loaded@.len() ==> {
                    let entry = with_status(items.take(i as int), AssetLoadStatus::Loaded)[k];
                    &&& (#[trigger] loaded@[k]).1 == entry.0
                    &&& is_id_of(loaded@[k].0@, entry.1@)
                },
            settled == i - with_status(items.take(i as int), AssetLoadStatus::Pending).len(),
            with_status(items.take(i as int), AssetLoadStatus::Pending).len() <= i,
        decreases rest@.len(),
    {
        let (handle, file_name, status) = rest.remove(0);
        proof {
            assert(items.take(i + 1).drop_last() =~= items.take(i as int));
            assert(items.take(i + 1).last() == items[i as int]);
        }
        match status {
            AssetLoadStatus::Pending => {
                still_loading.push(handle);
            },
            AssetLoadStatus::Loaded => {
                let id = asset_id(file_name.as_str());
                loaded.push((id, handle));
                settled = settled + 1;
            },
            AssetLoadStatus::Failed => {
                settled = settled + 1;
            },
        }
        i = i + 1;
    }
    proof {
        assert(items.take(items.len() as int) =~= items);
    }
    FolderUpdate { still_loading, loaded, settled }
}

} // verus!
