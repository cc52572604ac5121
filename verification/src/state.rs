use vstd::prelude::*;

verus! {

/// What the keyboard currently drives.
#[derive(Clone, Copy, Debug, PartialEq, Eq, Structural)]
pub enum InputMode {
    /// Keys switch views and move the selection.
    Normal,
    /// Keys choose the column the process table is sorted by.
    ProcessSort,
    /// Keys type the process filter.
    ProcessFilter,
    /// Keys confirm or cancel killing the selected process.
    ProcessKill,
}

/// The map that `entries` stands for: each name bound to its history, a
/// later entry winning over an earlier one with the same name.
pub open spec fn entries_map<H>(entries: Seq<(String, H)>) -> Map<Seq<char>, H>
    decreases entries.len(),
{
    if entries.len() == 0 {
        Map::empty()
    } else {
        let last = entries.last();
        entries_map(entries.drop_last()).insert(last.0@, last.1)
    }
}

/// Whether no two entries carry the same name.
pub open spec fn distinct_names<H>(entries: Seq<(String, H)>) -> bool {
    forall|i: int, j: int|
        0 <= i < entries.len() && 0 <= j < entries.len() && i != j ==> entries[i].0@ != entries[j].0@
}

proof fn lemma_entries_map<H>(entries: Seq<(String, H)>)
    requires
        distinct_names(entries),
    ensures
        forall|k: Seq<char>|
            #[trigger] entries_map(entries).contains_key(k) <==> exists|i: int|
                0 <= i < entries.len() && entries[i].0@ == k,
        forall|i: int|
            0 <= i < entries.len() ==> entries_map(entries)[#[trigger] entries[i].0@] == entries[i].1,
    decreases entries.len(),
{
    if entries.len() > 0 {
        let init = entries.drop_last();
        assert(distinct_names(init));
        lemma_entries_map(init);
        assert forall|k: Seq<char>|
            #[trigger] entries_map(entries).contains_key(k) implies exists|i: int|
                0 <= i < entries.len() && entries[i].0@ == k by {
            if k == entries.last().0@ {
                assert(entries[entries.len() - 1].0@ == k);
            } else {
                assert(entries_map(init).contains_key(k));
                let i = choose|i: int| 0 <= i < init.len() && init[i].0@ == k;
                assert(init[i] == entries[i]);
                assert(entries[i].0@ == k);
            }
        }
        assert forall|k: Seq<char>|
            (exists|i: int| 0 <= i < entries.len() && entries[i].0@ == k) implies #[trigger] entries_map(
                entries,
            ).contains_key(k) by {
            let i = choose|i: int| 0 <= i < entries.len() && entries[i].0@ == k;
            if i < init.len() {
                assert(init[i].0@ == k);
            }
        }
        assert forall|i: int| 0 <= i < entries.len() implies entries_map(entries)[#[trigger] entries[i].0@]
            == entries[i].1 by {
            if i < init.len() {
                assert(init[i] == entries[i]);
                assert(entries[i].0@ != entries.last().0@);
            }
        }
    }
}

/// The histories of the devices of one kind (disks or network interfaces),
/// each kept under its device's name.
pub struct DeviceHistories<H> {
    entries: Vec<(String, H)>,
}

impl<H> DeviceHistories<H> {
    #[verifier::type_invariant]
    spec fn names_are_distinct(self) -> bool {
        distinct_names(self.entries@)
    }

    /// Each device name with its history.
    pub closed spec fn view(&self) -> Map<Seq<char>, H> {
        entries_map(self.entries@)
    }

    /// No histories yet.
    pub fn new() -> (r: Self)
        ensures
            r.view() == Map::<Seq<char>, H>::empty(),
    {
        DeviceHistories { entries: Vec::new() }
    }

    /// The history kept for the device called `name`, if there is one.
    pub fn get(&self, name: &String) -> (r: Option<&H>)
        ensures
            r == (if self.view().contains_key(name@) {
                Some(&self.view()[name@])
            } else {
                None
            }),
    {
        proof {
            use_type_invariant(self);
            lemma_entries_map(self.entries@);
        }
        let n = self.entries.len();
        let mut i: usize = 0;
        while i < n
            invariant
                n == self.entries@.len(),
                i <= n,
                forall|j: int| 0 <= j < i ==> self.entries@[j].0@ != name@,
            decreases n - i,
        {
            if self.entries[i].0 == *name {
                proof {
                    use_type_invariant(self);
                    lemma_entries_map(self.entries@);
                    assert(self.view()[self.entries@[i as int].0@] == self.entries@[i as int].1);
                }
                return Some(&self.entries[i].1);
            }
            i += 1;
        }
        None
    }

    /// Keeps `history` for the device called `name`, in place of any history
    /// kept for it before.
    pub fn insert(&mut self, name: String, history: H)
        ensures
            final(self).view() == old(self).view().insert(name@, history),
    {
        proof {
            use_type_invariant(&*self);
        }
        let mut entries: Vec<(String, H)> = Vec::new();
        std::mem::swap(&mut entries, &mut self.entries);
        let ghost before = entries@;
        proof {
            lemma_entries_map(before);
        }
        let n = entries.len();
        let mut i: usize = 0;
        while i < n
            invariant
                n == entries@.len(),
                entries@ == before,
                i <= n,
                forall|j: int| 0 <= j < i ==> entries@[j].0@ != name@,
            ensures
                i <= n,
                i < n ==> entries@[i as int].0@ == name@,
                forall|j: int| 0 <= j < i ==> entries@[j].0@ != name@,
            decreases n - i,
        {
            if entries[i].0 == name {
                break;
            }
            i += 1;
        }
        if i < n {
            let ghost key = name@;
            entries.set(i, (name, history));
            proof {
                let after = entries@;
                assert(distinct_names(after)) by {
                    assert forall|a: int, b: int|
                        0 <= a < after.len() && 0 <= b < after.len() && a != b implies after[a].0@
                        != after[b].0@ by {
                        if a != i {
                            assert(after[a] == before[a]);
                        }
                        if b != i {
                            assert(after[b] == before[b]);
                        }
                    }
                }
                lemma_entries_map(after);
                assert(entries_map(after) =~= entries_map(before).insert(key, history)) by {
                    assert forall|k: Seq<char>|
                        #[trigger] entries_map(after).contains_key(k) <==> entries_map(
                            before,
                        ).insert(key, history).contains_key(k) by {
                        if entries_map(after).contains_key(k) {
                            let j = choose|j: int| 0 <= j < after.len() && after[j].0@ == k;
                            assert(before[j].0@ == k);
                        }
                        if entries_map(before).contains_key(k) {
                            let j = choose|j: int| 0 <= j < before.len() && before[j].0@ == k;
                            assert(after[j].0@ == k);
                        }
                    }
                    assert forall|k: Seq<char>| #[trigger]
                        entries_map(after).contains_key(k) implies entries_map(after)[k]
                        == entries_map(before).insert(key, history)[k] by {
                        let j = choose|j: int| 0 <= j < after.len() && after[j].0@ == k;
                        if j != i {
                            assert(before[j] == after[j]);
                        }
                    }
                }
            }
        } else {
            let ghost key = name@;
            entries.push((name, history));
            proof {
                let after = entries@;
                assert(after.drop_last() =~= before);
                assert(distinct_names(after)) by {
                    assert forall|a: int, b: int|
                        0 <= a < after.len() && 0 <= b < after.len() && a != b implies after[a].0@
                        != after[b].0@ by {
                        if a < before.len() && b < before.len() {
                            assert(after[a] == before[a]);
                            assert(after[b] == before[b]);
                        } else if a < before.len() {
                            assert(after[a] == before[a]);
                        } else {
                            assert(after[b] == before[b]);
                        }
                    }
                }
            }
        }
        self.entries = entries;
    }
}


/// A lookup after an insertion finds what was inserted under that name, and
/// what the histories held under every other name.
pub proof fn lemma_lookup_after_insert<H>(
    before: DeviceHistories<H>,
    after: DeviceHistories<H>,
    name: Seq<char>,
    history: H,
    other: Seq<char>,
)
    requires
        after.view() == before.view().insert(name, history),
    ensures
        after.view().contains_key(name),
        after.view()[name] == history,
        other != name ==> after.view().contains_key(other) == before.view().contains_key(other),
        other != name && before.view().contains_key(other) ==> after.view()[other]
            == before.view()[other],
{
}

/// The part of the dashboard's state that the overview's layout, device
/// selection and process table header read. `D` and `N` are the histories
/// kept for a disk and for a network interface.
pub struct AppState<D, N> {
    /// Whether the CPU panel shows one bar per core.
    pub show_per_core: bool,
    /// The number of CPU cores, once the CPU has been read.
    pub cpu_core_count: Option<usize>,
    /// The number of GPUs shown.
    pub gpu_count: usize,
    /// The disks' device names, in display order.
    pub disk_names: Vec<String>,
    /// The position of the selected disk in `disk_names`.
    pub selected_disk_index: usize,
    /// The history of each disk, under its device name.
    pub disk_histories: DeviceHistories<D>,
    /// The network interfaces' names, in display order.
    pub network_names: Vec<String>,
    /// The position of the selected interface in `network_names`.
    pub selected_network_index: usize,
    /// The history of each network interface, under its name.
    pub network_histories: DeviceHistories<N>,
    /// How many disks and interfaces the panels list at most.
    pub network_max_visible: usize,
    /// What the keyboard currently drives.
    pub input_mode: InputMode,
    /// The text the process table is filtered by.
    pub process_filter: String,
    /// The position of the selected process in the filtered table.
    pub process_selected_index: usize,
}

fn lookup_selected<'a, H>(names: &Vec<String>, index: usize, histories: &'a DeviceHistories<H>) -> (r: Option<&'a H>)
    ensures
        r == (if index < names.len() && histories.view().contains_key(names@[index as int]@) {
            Some(&histories.view()[names@[index as int]@])
        } else {
            None
        }),
{
    if index < names.len() {
        histories.get(&names[index])
    } else {
        None
    }
}

/// The history of the selected disk, if the selection points at a disk and
/// a history is kept for it.
pub fn selected_disk_history<D, N>(state: &AppState<D, N>) -> (r: Option<&D>)
    ensures
        r == (if state.selected_disk_index < state.disk_names.len() && state.disk_histories.view().contains_key(
            state.disk_names@[state.selected_disk_index as int]@,
        ) {
            Some(&state.disk_histories.view()[state.disk_names@[state.selected_disk_index as int]@])
        } else {
            None
        }),
{
    lookup_selected(&state.disk_names, state.selected_disk_index, &state.disk_histories)
}

/// The history of the selected network interface, if the selection points
/// at an interface and a history is kept for it.
pub fn selected_network_history<D, N>(state: &AppState<D, N>) -> (r: Option<&N>)
    ensures
        r == (if state.selected_network_index < state.network_names.len()
            && state.network_histories.view().contains_key(
            state.network_names@[state.selected_network_index as int]@,
        ) {
            Some(&state.network_histories.view()[state.network_names@[state.selected_network_index as int]@])
        } else {
            None
        }),
{
    lookup_selected(&state.network_names, state.selected_network_index, &state.network_histories)
}

} // verus!
