//! What the runtime of Android is given when it starts.
use crate::runtime_commands::RuntimeSlot;
use crate::text::same_text;
use vstd::prelude::*;

verus! {

pub const MAX_LOGCAT_BYTES: usize = 2_097_152;

pub const MAX_BOOTSTRAP_BYTES: usize = 65_536;

/// The snapshot of the system log that is reported: none where it is empty or
/// too long.
pub fn kept_logcat(snapshot: Option<String>) -> (kept: Option<String>)
    ensures
        kept == (match snapshot {
            Some(text) => if 0 < crate::report_logs::bytes_of(text@) <= MAX_LOGCAT_BYTES {
                Some(text)
            } else {
                None
            },
            None => None,
        }),
{
    match snapshot {
        Some(text) => {
            let length: usize = text.as_str().as_bytes().len();
            if 0 < length && length <= MAX_LOGCAT_BYTES {
                Some(text)
            } else {
                None
            }
        },
        None => None,
    }
}

/// Whether what was handed over can be looked at: that takes a descriptor and
/// a text of a bounded size.
pub fn admits_bootstrap(descriptor: i32, text: Option<&str>) -> (admitted: bool)
    ensures
        admitted == (descriptor >= 0 && (text matches Some(text) && crate::report_logs::bytes_of(
            text@,
        ) <= MAX_BOOTSTRAP_BYTES)),
{
    match text {
        Some(text) => descriptor >= 0 && text.as_bytes().len() <= MAX_BOOTSTRAP_BYTES,
        None => false,
    }
}

/// Where a runtime keeps what it knows.
#[derive(Debug)]
pub struct RuntimePath {
    pub slot: RuntimeSlot,
    pub runtime_version: String,
    pub namespace: String,
    pub preferences: String,
}

#[verifier::ext_equal]
pub struct RuntimePathView {
    pub slot: RuntimeSlot,
    pub runtime_version: Seq<char>,
    pub namespace: Seq<char>,
    pub preferences: Seq<char>,
}

impl View for RuntimePath {
    type V = RuntimePathView;

    open spec fn view(&self) -> RuntimePathView {
        RuntimePathView {
            slot: self.slot,
            runtime_version: self.runtime_version@,
            namespace: self.namespace@,
            preferences: self.preferences@,
        }
    }
}

impl RuntimePath {
    pub fn same_as(&self, other: &RuntimePath) -> (same: bool)
        ensures
            same == (self@ == other@),
    {
        self.slot == other.slot && same_text(
            self.runtime_version.as_str(),
            other.runtime_version.as_str(),
        ) && same_text(self.namespace.as_str(), other.namespace.as_str()) && same_text(
            self.preferences.as_str(),
            other.preferences.as_str(),
        )
    }
}

pub open spec fn is_path_of(path: RuntimePathView, slot: RuntimeSlot, version: Seq<char>) -> bool {
    path.slot == slot && path.runtime_version == version
}

/// The place of the first path of a runtime, or the number of paths.
pub open spec fn place_of_runtime(
    paths: Seq<RuntimePath>,
    slot: RuntimeSlot,
    version: Seq<char>,
    from: int,
) -> int
    decreases paths.len() - from,
{
    if from >= paths.len() {
        paths.len() as int
    } else if is_path_of(paths[from]@, slot, version) {
        from
    } else {
        place_of_runtime(paths, slot, version, from + 1)
    }
}

/// The place of the storage of the runtime that was selected: none where it
/// has none.
pub fn selected_runtime(paths: &Vec<RuntimePath>, slot: RuntimeSlot, version: &str) -> (selected: Option<
    usize,
>)
    ensures
        ({
            let place = place_of_runtime(paths@, slot, version@, 0);
            selected == (if place < paths@.len() {
                Some(place as usize)
            } else {
                None
            })
        }),
{
    let mut index: usize = 0;
    while index < paths.len()
        invariant
            index <= paths@.len(),
            place_of_runtime(paths@, slot, version@, 0) == place_of_runtime(
                paths@,
                slot,
                version@,
                index as int,
            ),
        decreases paths@.len() - index,
    {
        let path = &paths[index];
        if path.slot == slot && same_text(path.runtime_version.as_str(), version) {
            return Some(index);
        }
        index += 1;
    }
    None
}

pub open spec fn other_than(selected: RuntimePathView) -> spec_fn(RuntimePathView) -> bool {
    |path: RuntimePathView| path != selected
}

pub open spec fn shown_paths(paths: Seq<RuntimePath>) -> Seq<RuntimePathView> {
    paths.map_values(|path: RuntimePath| path@)
}

pub open spec fn paths_at(paths: Seq<RuntimePath>, places: Seq<usize>) -> Seq<RuntimePathView> {
    places.map_values(|place: usize| paths[place as int]@)
}

/// The paths other than one, in their order.
pub open spec fn paths_except(paths: Seq<RuntimePath>, selected: RuntimePathView) -> Seq<
    RuntimePathView,
> {
    shown_paths(paths).filter(other_than(selected))
}

/// The places of the storage of the other runtimes, which is kept.
pub fn retained_runtimes(paths: &Vec<RuntimePath>, selected: usize) -> (retained: Vec<usize>)
    requires
        selected < paths@.len(),
    ensures
        forall|i: int| 0 <= i < retained@.len() ==> #[trigger] retained@[i] < paths@.len(),
        paths_at(paths@, retained@) == paths_except(paths@, paths@[selected as int]@),
{
    let ghost chosen = paths@[selected as int]@;
    let mut retained: Vec<usize> = Vec::new();
    let mut index: usize = 0;
    proof {
        reveal(Seq::filter);
        assert(shown_paths(paths@.take(0)) =~= Seq::empty());
        assert(paths_at(paths@, retained@) =~= Seq::empty());
    }
    while index < paths.len()
        invariant
            index <= paths@.len(),
            selected < paths@.len(),
            chosen == paths@[selected as int]@,
            forall|i: int| 0 <= i < retained@.len() ==> #[trigger] retained@[i] < paths@.len(),
            paths_at(paths@, retained@) == paths_except(paths@.take(index as int), chosen),
        decreases paths@.len() - index,
    {
        let ghost before = retained@;
        proof {
            reveal(Seq::filter);
            let longer = shown_paths(paths@.take(index + 1));
            assert(longer.drop_last() =~= shown_paths(paths@.take(index as int)));
            assert(longer.last() == paths@[index as int]@);
        }
        if !paths[index].same_as(&paths[selected]) {
            retained.push(index);
            assert(paths_at(paths@, retained@) =~= paths_at(paths@, before).push(
                paths@[index as int]@,
            ));
        }
        index += 1;
    }
    assert(paths@.take(index as int) =~= paths@);
    retained
}

/// What the selected runtime uses is never among what is kept of the others.
pub proof fn law_selected_runtime_is_not_retained(
    paths: Seq<RuntimePath>,
    selected: RuntimePathView,
)
    ensures
        !paths_except(paths, selected).contains(selected),
{
    let keep = other_than(selected);
    let views = shown_paths(paths);
    assert forall|i: int| 0 <= i < views.filter(keep).len() implies views.filter(keep)[i]
        != selected by {
        views.lemma_filter_pred(keep, i);
    }
}

} // verus!
