//! The recording store: an ordered manifest of capture entries.
//!
//! Each entry names one recording session and tracks how many capture
//! bytes have been accounted to it, together with a lifecycle tag. At
//! most one entry is `Current` (actively receiving bytes) at any time;
//! every operation below preserves that invariant. The backing files
//! and the persistence of the manifest to stable storage are the
//! caller's concern: this module owns the manifest logic alone.

use vstd::prelude::*;

verus! {

use vstd::pervasive::VecAdditionalExecFns;

/// Lifecycle tag of a manifest entry. `Current` marks the single entry
/// actively receiving capture bytes; the transition to `Closed` is
/// irreversible.
#[derive(Clone, Copy, PartialEq, Eq, Structural, Debug)]
pub enum EntryType {
    Current,
    Closed,
}

/// One recording session in the manifest: a unique name (derived by the
/// caller from the creation time), the number of capture bytes accounted
/// so far, and the lifecycle tag.
#[derive(Debug)]
pub struct Entry {
    pub name: String,
    pub size_bytes: u64,
    pub entry_type: EntryType,
}

/// Ghost image of an [`Entry`]: the name as a character sequence and the
/// size as an unbounded integer.
#[verifier::ext_equal]
pub struct EntryModel {
    pub name: Seq<char>,
    pub size_bytes: int,
    pub entry_type: EntryType,
}

impl View for Entry {
    type V = EntryModel;

    open spec fn view(&self) -> EntryModel {
        EntryModel { name: self.name@, size_bytes: self.size_bytes as int, entry_type: self.entry_type }
    }
}

/// Ghost image of the whole manifest: the ordered entry list and the
/// index of the current entry, if one exists.
#[verifier::ext_equal]
pub struct StoreModel {
    pub entries: Seq<EntryModel>,
    pub current: Option<int>,
}

/// Whether some entry in `m` already carries `name`.
pub open spec fn store_has_name(m: StoreModel, name: Seq<char>) -> bool {
    exists|j: int| 0 <= j < m.entries.len() && #[trigger] m.entries[j].name == name
}

/// Whether the current entry of `m`, if any, carries `name`.
pub open spec fn current_has_name(m: StoreModel, name: Seq<char>) -> bool {
    match m.current {
        Some(c) => 0 <= c < m.entries.len() && m.entries[c].name == name,
        None => false,
    }
}

/// Well-formedness of the manifest: the current index (if any) is in
/// bounds and marks the one `Current` entry, every other entry is
/// `Closed`, and entry names are unique.
pub open spec fn wf_model(m: StoreModel) -> bool {
    &&& match m.current {
        Some(c) => {
            &&& 0 <= c < m.entries.len()
            &&& m.entries[c].entry_type == EntryType::Current
            &&& forall|j: int|
                0 <= j < m.entries.len() && j != c ==> #[trigger] m.entries[j].entry_type
                    == EntryType::Closed
        },
        None => forall|j: int|
            0 <= j < m.entries.len() ==> #[trigger] m.entries[j].entry_type == EntryType::Closed,
    }
    &&& forall|j: int, k: int|
        0 <= j < k < m.entries.len() ==> #[trigger] m.entries[j].name != #[trigger] m.entries[k].name
}

/// The manifest after closing the current entry: its tag becomes
/// `Closed`, its recorded size is kept, and no entry is current. With no
/// current entry the manifest is untouched.
pub open spec fn close_current_model(m: StoreModel) -> StoreModel {
    match m.current {
        Some(c) => StoreModel {
            entries: m.entries.update(
                c,
                EntryModel {
                    name: m.entries[c].name,
                    size_bytes: m.entries[c].size_bytes,
                    entry_type: EntryType::Closed,
                },
            ),
            current: None,
        },
        None => m,
    }
}

/// The manifest after allocating a fresh entry: it is appended with size
/// zero, marked `Current`, and becomes the current entry.
pub open spec fn new_entry_model(m: StoreModel, name: Seq<char>) -> StoreModel {
    StoreModel {
        entries: m.entries.push(
            EntryModel { name, size_bytes: 0, entry_type: EntryType::Current },
        ),
        current: Some(m.entries.len() as int),
    }
}

/// The manifest after a start of recording: any current entry is closed
/// first, then a fresh current entry named `name` is appended. A start
/// while capture is already active thus behaves as an implicit
/// stop-then-start; the superseded entry is closed with its size intact
/// rather than left dangling.
pub open spec fn start_model(m: StoreModel, name: Seq<char>) -> StoreModel {
    new_entry_model(close_current_model(m), name)
}

/// The manifest after recording `size_bytes` for the current entry.
pub open spec fn update_size_model(m: StoreModel, size_bytes: int) -> StoreModel {
    match m.current {
        Some(c) => StoreModel {
            entries: m.entries.update(
                c,
                EntryModel {
                    name: m.entries[c].name,
                    size_bytes,
                    entry_type: m.entries[c].entry_type,
                },
            ),
            current: Some(c),
        },
        None => m,
    }
}

/// The manifest after removing the entry at index `i`: later entries
/// shift down one place and the current index follows them; deleting the
/// current entry leaves no entry current.
pub open spec fn delete_entry_model(m: StoreModel, i: int) -> StoreModel {
    StoreModel {
        entries: m.entries.remove(i),
        current: match m.current {
            Some(c) => if c == i {
                None
            } else if c > i {
                Some(c - 1)
            } else {
                Some(c)
            },
            None => None,
        },
    }
}

/// Errors surfaced by the manifest operations.
#[derive(Clone, Copy, PartialEq, Eq, Structural, Debug)]
pub enum RecordingStoreError {
    /// The addressed entry is not the current one.
    NotCurrentError,
    /// No entry carries the given name.
    NoSuchEntryError,
}

/// The recording store: the manifest of capture entries. Constructed
/// once at process start; the caller persists it on every mutation and
/// guards it with a reader/writer lock when shared.
pub struct RecordingStore {
    entries: Vec<Entry>,
    current_entry: Option<usize>,
}

impl View for RecordingStore {
    type V = StoreModel;

    closed spec fn view(&self) -> StoreModel {
        StoreModel {
            entries: self.entries@.map_values(|e: Entry| e@),
            current: match self.current_entry {
                Some(i) => Some(i as int),
                None => None,
            },
        }
    }
}

impl RecordingStore {
    /// Well-formedness of the store, stated on its ghost image.
    pub open spec fn wf(&self) -> bool {
        wf_model(self@)
    }

    /// An empty store: no entries, nothing current.
    pub fn new() -> (s: RecordingStore)
        ensures
            s.wf(),
            s@.entries.len() == 0,
            s@.current is None,
    {
        RecordingStore { entries: Vec::new(), current_entry: None }
    }

    /// Allocates a fresh entry named `name`, marks it current and
    /// returns its index. The store does not close a previously current
    /// entry on its own: the caller must have closed it first, and must
    /// hand in a name not already taken (names derive from the creation
    /// time). The caller creates the two backing files before calling,
    /// so a filesystem failure leaves the manifest unchanged.
    pub fn new_entry(&mut self, name: String) -> (idx: usize)
        requires
            old(self).wf(),
            old(self)@.current is None,
            !store_has_name(old(self)@, name@),
        ensures
            final(self).wf(),
            final(self)@ == new_entry_model(old(self)@, name@),
            idx == old(self)@.entries.len(),
    {
        let idx: usize = self.entries.len();
        self.entries.push(Entry { name, size_bytes: 0, entry_type: EntryType::Current });
        self.current_entry = Some(idx);
        proof {
            assert(self@.entries =~= new_entry_model(old(self)@, name@).entries);
            assert(self@ =~= new_entry_model(old(self)@, name@));
        }
        idx
    }

    /// Records the cumulative byte size of the entry at `index`. Succeeds
    /// exactly when `index` is the current entry — a stale writer racing
    /// a newer entry is turned away with `NotCurrentError` and the
    /// manifest is untouched.
    pub fn update_entry_size(&mut self, index: usize, size_bytes: u64) -> (r: Result<
        (),
        RecordingStoreError,
    >)
        requires
            old(self).wf(),
        ensures
            final(self).wf(),
            r is Ok <==> old(self)@.current == Some(index as int),
            r is Ok ==> final(self)@ == update_size_model(old(self)@, size_bytes as int),
            r is Err ==> final(self)@ == old(self)@ && r->Err_0 == RecordingStoreError::NotCurrentError,
    {
        let is_current: bool = match self.current_entry {
            Some(c) => c == index,
            None => false,
        };
        if is_current {
            let name = self.entries[index].name.clone();
            let entry_type = self.entries[index].entry_type;
            self.entries.set(index, Entry { name, size_bytes, entry_type });
            proof {
                assert(self@.entries =~= update_size_model(old(self)@, size_bytes as int).entries);
                assert(self@ =~= update_size_model(old(self)@, size_bytes as int));
            }
            Ok(())
        } else {
            Err(RecordingStoreError::NotCurrentError)
        }
    }

    /// Closes the current entry: its tag becomes `Closed` and its size
    /// stays as last recorded. Safe to call with nothing current — the
    /// store is then left exactly as it was, so a second call in a row
    /// is a no-op.
    pub fn close_current_entry(&mut self)
        requires
            old(self).wf(),
        ensures
            final(self).wf(),
            final(self)@ == close_current_model(old(self)@),
            final(self)@.current is None,
    {
        match self.current_entry {
            Some(c) => {
                let name = self.entries[c].name.clone();
                let size_bytes = self.entries[c].size_bytes;
                self.entries.set(c, Entry { name, size_bytes, entry_type: EntryType::Closed });
                self.current_entry = None;
                proof {
                    assert(self@.entries =~= close_current_model(old(self)@).entries);
                    assert(self@ =~= close_current_model(old(self)@));
                }
            },
            None => {},
        }
    }

    /// Read-only lookup of the current entry, as its index paired with a
    /// borrow of the entry itself.
    pub fn get_current_entry(&self) -> (r: Option<(usize, &Entry)>)
        requires
            self.wf(),
        ensures
            match r {
                Some(p) => self@.current == Some(p.0 as int) && p.1@ == self@.entries[p.0 as int],
                None => self@.current is None,
            },
    {
        match self.current_entry {
            Some(c) => Some((c, &self.entries[c])),
            None => None,
        }
    }

    /// Read-only lookup by name: the index of the entry carrying `name`,
    /// or `None` if no entry does.
    pub fn entry_for_name(&self, name: &String) -> (r: Option<usize>)
        ensures
            match r {
                Some(i) => i < self@.entries.len() && self@.entries[i as int].name == name@,
                None => !store_has_name(self@, name@),
            },
    {
        let n: usize = self.entries.len();
        let mut i: usize = 0;
        while i < n
            invariant
                n == self@.entries.len(),
                i <= n,
                forall|j: int| 0 <= j < i ==> #[trigger] self@.entries[j].name != name@,
            decreases n - i,
        {
            if self.entries[i].name == *name {
                return Some(i);
            }
            i = i + 1;
        }
        None
    }

    /// Borrow of the entry at `index`.
    pub fn entry_at(&self, index: usize) -> (e: &Entry)
        requires
            index < self@.entries.len(),
        ensures
            e@ == self@.entries[index as int],
    {
        &self.entries[index]
    }

    /// Number of entries in the manifest.
    pub fn len(&self) -> (n: usize)
        ensures
            n == self@.entries.len(),
    {
        self.entries.len()
    }

    /// Removes the entry named `name` from the manifest and reports the
    /// lifecycle tag it had, so callers can react when the current entry
    /// went away (stop capture, signal the indicator). The caller removes
    /// the two backing files afterwards. With no entry of that name the
    /// manifest is untouched and `NoSuchEntryError` comes back.
    pub fn delete_entry(&mut self, name: &String) -> (r: Result<EntryType, RecordingStoreError>)
        requires
            old(self).wf(),
        ensures
            final(self).wf(),
            r is Err <==> !store_has_name(old(self)@, name@),
            r is Err ==> final(self)@ == old(self)@ && r->Err_0
                == RecordingStoreError::NoSuchEntryError,
            r is Ok ==> exists|i: int|
                {
                    &&& 0 <= i < old(self)@.entries.len()
                    &&& #[trigger] old(self)@.entries[i].name == name@
                    &&& final(self)@ == delete_entry_model(old(self)@, i)
                    &&& r->Ok_0 == old(self)@.entries[i].entry_type
                },
            r is Ok ==> (r->Ok_0 == EntryType::Current <==> current_has_name(old(self)@, name@)),
    {
        match self.entry_for_name(name) {
            None => Err(RecordingStoreError::NoSuchEntryError),
            Some(i) => {
                let ghost m: StoreModel = self@;
                let ghost gi: int = i as int;
                let entry_type = self.entries[i].entry_type;
                self.entries.remove(i);
                match self.current_entry {
                    Some(c) => {
                        if c == i {
                            self.current_entry = None;
                        } else if c > i {
                            self.current_entry = Some(c - 1);
                        }
                    },
                    None => {},
                }
                proof {
                    assert(self@.entries =~= delete_entry_model(m, gi).entries);
                    assert(self@ =~= delete_entry_model(m, gi));
                    lemma_delete_entry_wf(m, gi);
                    if entry_type == EntryType::Current {
                        assert(m.entries[gi].entry_type == EntryType::Current);
                        match m.current {
                            Some(c) => {
                                if c != gi {
                                    assert(m.entries[gi].entry_type == EntryType::Closed);
                                }
                            },
                            None => {
                                assert(m.entries[gi].entry_type == EntryType::Closed);
                            },
                        }
                        assert(m.current == Some(gi));
                    }
                    match m.current {
                        Some(c) => {
                            if m.entries[c].name == name@ {
                                assert(c == gi);
                            }
                        },
                        None => {},
                    }
                }
                Ok(entry_type)
            },
        }
    }

    /// Removes every entry from the manifest. Capture is not stopped
    /// here: the caller must stop it first, or files would be deleted
    /// out from under an open writer.
    pub fn delete_all_entries(&mut self)
        ensures
            final(self).wf(),
            final(self)@.entries.len() == 0,
            final(self)@.current is None,
    {
        self.entries = Vec::new();
        self.current_entry = None;
    }
}

/// Closing the current entry changes no entry's name: a name is taken
/// after the close exactly when it was taken before.
pub proof fn lemma_close_preserves_names(m: StoreModel, name: Seq<char>)
    requires
        wf_model(m),
    ensures
        store_has_name(close_current_model(m), name) == store_has_name(m, name),
        close_current_model(m).entries.len() == m.entries.len(),
{
    let d = close_current_model(m);
    assert forall|j: int| 0 <= j < m.entries.len() implies #[trigger] d.entries[j].name
        == m.entries[j].name by {}
    if store_has_name(m, name) {
        let j = choose|j: int| 0 <= j < m.entries.len() && #[trigger] m.entries[j].name == name;
        assert(d.entries[j].name == name);
    }
    if store_has_name(d, name) {
        let j = choose|j: int| 0 <= j < d.entries.len() && #[trigger] d.entries[j].name == name;
        assert(m.entries[j].name == name);
    }
}

/// At most one entry is `Current` at any time: in a well-formed
/// manifest, any two current indices coincide.
pub proof fn lemma_at_most_one_current(m: StoreModel, i: int, j: int)
    requires
        wf_model(m),
        0 <= i < m.entries.len(),
        0 <= j < m.entries.len(),
        m.entries[i].entry_type == EntryType::Current,
        m.entries[j].entry_type == EntryType::Current,
    ensures
        i == j,
{
}

/// Closing the current entry twice in a row is a no-op the second time:
/// the first close leaves nothing current, and closing with nothing
/// current changes nothing.
pub proof fn lemma_close_current_idempotent(m: StoreModel)
    ensures
        close_current_model(close_current_model(m)) == close_current_model(m),
{
}

/// Deleting an entry preserves well-formedness.
pub proof fn lemma_delete_entry_wf(m: StoreModel, i: int)
    requires
        wf_model(m),
        0 <= i < m.entries.len(),
    ensures
        wf_model(delete_entry_model(m, i)),
{
    let d = delete_entry_model(m, i);
    assert forall|j: int, k: int| 0 <= j < k < d.entries.len() implies #[trigger] d.entries[j].name
        != #[trigger] d.entries[k].name by {
        let j0 = if j < i { j } else { j + 1 };
        let k0 = if k < i { k } else { k + 1 };
        assert(d.entries[j] == m.entries[j0]);
        assert(d.entries[k] == m.entries[k0]);
    }
    match d.current {
        Some(c) => {
            let c0 = if c < i { c } else { c + 1 };
            assert(d.entries[c] == m.entries[c0]);
            assert forall|j: int| 0 <= j < d.entries.len() && j != c implies #[trigger] d.entries[j].entry_type
                == EntryType::Closed by {
                let j0 = if j < i { j } else { j + 1 };
                assert(d.entries[j] == m.entries[j0]);
            }
        },
        None => {
            assert forall|j: int| 0 <= j < d.entries.len() implies #[trigger] d.entries[j].entry_type
                == EntryType::Closed by {
                let j0 = if j < i { j } else { j + 1 };
                assert(d.entries[j] == m.entries[j0]);
            }
        },
    }
}

/// Deleting an entry other than the current one never affects which
/// recording is current: the current entry keeps its name, size and tag
/// at the (possibly shifted) current index.
pub proof fn lemma_delete_noncurrent_preserves_current(m: StoreModel, i: int)
    requires
        wf_model(m),
        0 <= i < m.entries.len(),
        m.current != Some(i),
    ensures
        wf_model(delete_entry_model(m, i)),
        m.current is Some <==> delete_entry_model(m, i).current is Some,
        m.current matches Some(c) ==> delete_entry_model(m, i).entries[delete_entry_model(
            m,
            i,
        ).current->Some_0] == m.entries[c],
{
    lemma_delete_entry_wf(m, i);
}

/// Deleting the current entry leaves no entry current.
pub proof fn lemma_delete_current_clears_current(m: StoreModel, i: int)
    requires
        wf_model(m),
        0 <= i < m.entries.len(),
        m.current == Some(i),
    ensures
        wf_model(delete_entry_model(m, i)),
        delete_entry_model(m, i).current is None,
{
    lemma_delete_entry_wf(m, i);
}

} // verus!
