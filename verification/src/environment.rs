//! Scrubbing of the process environment.
//!
//! Every environment variable whose name is not on the allow-list is removed
//! before untrusted code runs. Reading the environment and removing a variable
//! are the caller's: this module takes the table of variables and says which are
//! kept, which are removed, and which of those to remove are badly formed and
//! deserve a warning. A badly formed variable is removed like any other.

use crate::bytes::{bytes_eq, contains_byte, copy_of, has_byte};
use vstd::prelude::*;

verus! {

/// The byte `=`.
pub const EQUALS: u8 = 0x3d;

/// An environment variable: its name and its value.
#[derive(Debug, Clone, PartialEq, Eq)]
pub struct EnvironmentEntry {
    /// The name of the variable.
    pub key: Vec<u8>,
    /// The value of the variable.
    pub value: Vec<u8>,
}

/// An [`EnvironmentEntry`] with its name and value as sequences of bytes.
pub struct EntryView {
    pub key: Seq<u8>,
    pub value: Seq<u8>,
}

impl View for EnvironmentEntry {
    type V = EntryView;

    open spec fn view(&self) -> EntryView {
        EntryView { key: self.key@, value: self.value@ }
    }
}

/// What can be wrong with an environment variable.
#[derive(Debug, Clone, Copy, PartialEq, Eq, Structural)]
pub enum MalformedReason {
    /// The name is empty.
    KeyEmpty,
    /// The name holds `=`.
    KeyContainsEquals,
    /// The name holds a NUL byte.
    KeyContainsNul,
    /// The value holds a NUL byte.
    ValueContainsNul,
}

impl MalformedReason {
    /// The text of [`MalformedReason::message`].
    pub open spec fn spec_message(self) -> Seq<char> {
        match self {
            MalformedReason::KeyEmpty => "key is empty"@,
            MalformedReason::KeyContainsEquals => "key contains '='"@,
            MalformedReason::KeyContainsNul => "key contains null character"@,
            MalformedReason::ValueContainsNul => "value contains null character"@,
        }
    }

    /// The reason in words.
    pub fn message(&self) -> (msg: &'static str)
        ensures
            msg@ == self.spec_message(),
    {
        match self {
            MalformedReason::KeyEmpty => "key is empty",
            MalformedReason::KeyContainsEquals => "key contains '='",
            MalformedReason::KeyContainsNul => "key contains null character",
            MalformedReason::ValueContainsNul => "value contains null character",
        }
    }
}

/// A warning about a badly formed variable that is about to be removed.
#[derive(Debug, Clone, PartialEq, Eq)]
pub struct ScrubWarning {
    /// Position of the variable in the table.
    pub index: usize,
    /// The name of the variable.
    pub key: Vec<u8>,
    /// The value of the variable.
    pub value: Vec<u8>,
    /// Everything that is wrong with the variable.
    pub reasons: Vec<MalformedReason>,
}

/// A [`ScrubWarning`] with its contents as sequences.
pub struct WarningView {
    pub index: int,
    pub key: Seq<u8>,
    pub value: Seq<u8>,
    pub reasons: Seq<MalformedReason>,
}

impl View for ScrubWarning {
    type V = WarningView;

    open spec fn view(&self) -> WarningView {
        WarningView {
            index: self.index as int,
            key: self.key@,
            value: self.value@,
            reasons: self.reasons@,
        }
    }
}

/// What scrubbing a table of variables comes to.
#[derive(Debug, Clone, PartialEq, Eq)]
pub struct Scrub {
    /// The variables that stay, in the order of the table.
    pub retained: Vec<EnvironmentEntry>,
    /// The names to remove, in the order of the table.
    pub removed: Vec<Vec<u8>>,
    /// The warnings to log, in the order of the table.
    pub warnings: Vec<ScrubWarning>,
}

/// The entries of a table, each by its view.
pub open spec fn entries(table: Seq<EnvironmentEntry>) -> Seq<EntryView> {
    table.map_values(|e: EnvironmentEntry| e@)
}

/// The names of a list, each by its view.
pub open spec fn names(list: Seq<Vec<u8>>) -> Seq<Seq<u8>> {
    list.map_values(|n: Vec<u8>| n@)
}

/// The warnings of a list, each by its view.
pub open spec fn warnings(list: Seq<ScrubWarning>) -> Seq<WarningView> {
    list.map_values(|w: ScrubWarning| w@)
}

/// The names of the entries.
pub open spec fn keys(table: Seq<EntryView>) -> Seq<Seq<u8>> {
    table.map_values(|e: EntryView| e.key)
}

/// Everything that is wrong with an entry: the reasons that apply, in the order
/// in which [`MalformedReason`] lists them.
pub open spec fn reasons_of(entry: EntryView) -> Seq<MalformedReason> {
    (if entry.key.len() == 0 {
        seq![MalformedReason::KeyEmpty]
    } else {
        Seq::empty()
    }) + (if has_byte(entry.key, EQUALS) {
        seq![MalformedReason::KeyContainsEquals]
    } else {
        Seq::empty()
    }) + (if has_byte(entry.key, 0) {
        seq![MalformedReason::KeyContainsNul]
    } else {
        Seq::empty()
    }) + (if has_byte(entry.value, 0) {
        seq![MalformedReason::ValueContainsNul]
    } else {
        Seq::empty()
    })
}

/// An entry is well formed when its name is not empty and holds neither `=` nor
/// a NUL byte, and its value holds no NUL byte.
pub open spec fn is_well_formed(entry: EntryView) -> bool {
    &&& entry.key.len() > 0
    &&& !has_byte(entry.key, EQUALS)
    &&& !has_byte(entry.key, 0)
    &&& !has_byte(entry.value, 0)
}

/// Whether an entry stays: its name is on the allow-list.
pub open spec fn stays(allow_list: Seq<Seq<u8>>) -> spec_fn(EntryView) -> bool {
    |e: EntryView| allow_list.contains(e.key)
}

/// Whether an entry goes: its name is not on the allow-list.
pub open spec fn goes(allow_list: Seq<Seq<u8>>) -> spec_fn(EntryView) -> bool {
    |e: EntryView| !allow_list.contains(e.key)
}

/// The entries that stay.
pub open spec fn retained_of(table: Seq<EntryView>, allow_list: Seq<Seq<u8>>) -> Seq<EntryView> {
    table.filter(stays(allow_list))
}

/// The names of the entries that go.
pub open spec fn removed_of(table: Seq<EntryView>, allow_list: Seq<Seq<u8>>) -> Seq<Seq<u8>> {
    keys(table.filter(goes(allow_list)))
}

/// Whether the entry draws a warning: it goes, and it is not well formed.
pub open spec fn draws_warning(entry: EntryView, allow_list: Seq<Seq<u8>>) -> bool {
    !allow_list.contains(entry.key) && !is_well_formed(entry)
}

/// The warning that the entry at `index` draws.
pub open spec fn warning_for(index: int, entry: EntryView) -> WarningView {
    WarningView { index, key: entry.key, value: entry.value, reasons: reasons_of(entry) }
}

/// The warnings that a table draws: one for each entry that goes and is not
/// well formed, in the order of the table.
pub open spec fn warnings_of(table: Seq<EntryView>, allow_list: Seq<Seq<u8>>) -> Seq<WarningView>
    decreases table.len(),
{
    if table.len() == 0 {
        Seq::empty()
    } else {
        let earlier = warnings_of(table.drop_last(), allow_list);
        if draws_warning(table.last(), allow_list) {
            earlier.push(warning_for(table.len() - 1, table.last()))
        } else {
            earlier
        }
    }
}

/// The name of the one variable that is kept by default: `RUST_LOG`.
pub open spec fn default_allowed_name() -> Seq<u8> {
    seq![0x52u8, 0x55u8, 0x53u8, 0x54u8, 0x5fu8, 0x4cu8, 0x4fu8, 0x47u8]
}

/// Whether `key` is on the allow-list.
pub fn is_allowed(key: &Vec<u8>, allow_list: &Vec<Vec<u8>>) -> (allowed: bool)
    ensures
        allowed == names(allow_list@).contains(key@),
{
    let mut i: usize = 0;
    while i < allow_list.len()
        invariant
            i <= allow_list.len(),
            forall|j: int| 0 <= j < i ==> names(allow_list@)[j] != key@,
        decreases allow_list.len() - i,
    {
        if bytes_eq(&allow_list[i], key) {
            assert(names(allow_list@)[i as int] == key@);
            return true;
        }
        i += 1;
    }
    false
}

/// Every name of the table is on the allow-list: nothing is left to remove.
pub open spec fn is_scrubbed(table: Seq<EntryView>, allow_list: Seq<Seq<u8>>) -> bool {
    forall|i: int| 0 <= i < table.len() ==> allow_list.contains((#[trigger] table[i]).key)
}

/// Whether every name of the table is on the allow-list.
pub fn check_scrubbed(table: &Vec<EnvironmentEntry>, allow_list: &Vec<Vec<u8>>) -> (clean: bool)
    ensures
        clean == is_scrubbed(entries(table@), names(allow_list@)),
{
    let mut i: usize = 0;
    while i < table.len()
        invariant
            i <= table.len(),
            forall|j: int|
                0 <= j < i ==> names(allow_list@).contains((#[trigger] entries(table@)[j]).key),
        decreases table.len() - i,
    {
        if !is_allowed(&table[i].key, allow_list) {
            assert(!names(allow_list@).contains(entries(table@)[i as int].key));
            return false;
        }
        i += 1;
    }
    true
}

/// Everything that is wrong with `entry`; nothing, if it is well formed.
pub fn malformed_reasons(entry: &EnvironmentEntry) -> (reasons: Vec<MalformedReason>)
    ensures
        reasons@ == reasons_of(entry@),
        reasons@.len() == 0 <==> is_well_formed(entry@),
{
    let mut reasons: Vec<MalformedReason> = Vec::new();
    if entry.key.len() == 0 {
        reasons.push(MalformedReason::KeyEmpty);
    }
    if contains_byte(&entry.key, EQUALS) {
        reasons.push(MalformedReason::KeyContainsEquals);
    }
    if contains_byte(&entry.key, 0) {
        reasons.push(MalformedReason::KeyContainsNul);
    }
    if contains_byte(&entry.value, 0) {
        reasons.push(MalformedReason::ValueContainsNul);
    }
    assert(reasons@ =~= reasons_of(entry@));
    reasons
}

/// Scrubs a table of environment variables: every variable whose name is not
/// on `allow_list` is to be removed. A variable to be removed that is not well
/// formed draws a warning, and is removed all the same.
pub fn scrub_environment(table: &Vec<EnvironmentEntry>, allow_list: &Vec<Vec<u8>>) -> (scrub: Scrub)
    ensures
        entries(scrub.retained@) == retained_of(entries(table@), names(allow_list@)),
        names(scrub.removed@) == removed_of(entries(table@), names(allow_list@)),
        warnings(scrub.warnings@) == warnings_of(entries(table@), names(allow_list@)),
{
    let mut retained: Vec<EnvironmentEntry> = Vec::new();
    let mut removed: Vec<Vec<u8>> = Vec::new();
    let mut warned: Vec<ScrubWarning> = Vec::new();
    let ghost all = entries(table@);
    let ghost allow = names(allow_list@);
    let mut i: usize = 0;
    proof {
        reveal(Seq::filter);
        assert(all.subrange(0, 0) =~= Seq::<EntryView>::empty());
        assert(entries(retained@) =~= retained_of(all.subrange(0, 0), allow));
        assert(names(removed@) =~= removed_of(all.subrange(0, 0), allow));
        assert(warnings(warned@) =~= warnings_of(all.subrange(0, 0), allow));
    }
    while i < table.len()
        invariant
            i <= table.len(),
            all == entries(table@),
            allow == names(allow_list@),
            entries(retained@) == retained_of(all.subrange(0, i as int), allow),
            names(removed@) == removed_of(all.subrange(0, i as int), allow),
            warnings(warned@) == warnings_of(all.subrange(0, i as int), allow),
        decreases table.len() - i,
    {
        let entry = &table[i];
        let ghost before = all.subrange(0, i as int);
        let ghost now = all.subrange(0, i + 1);
        let ghost old_retained = retained@;
        let ghost old_removed = removed@;
        let ghost old_warned = warned@;
        proof {
            assert(now =~= before.push(entry@));
            assert(now.drop_last() =~= before);
            before.lemma_filter_push(entry@, stays(allow));
            before.lemma_filter_push(entry@, goes(allow));
        }
        if is_allowed(&entry.key, allow_list) {
            retained.push(EnvironmentEntry { key: copy_of(&entry.key), value: copy_of(&entry.value) });
            proof {
                assert(entries(retained@) =~= entries(old_retained).push(entry@));
            }
        } else {
            let reasons = malformed_reasons(entry);
            if reasons.len() > 0 {
                warned.push(
                    ScrubWarning {
                        index: i,
                        key: copy_of(&entry.key),
                        value: copy_of(&entry.value),
                        reasons,
                    },
                );
                proof {
                    assert(warnings(warned@) =~= warnings(old_warned).push(
                        warning_for(i as int, entry@),
                    ));
                }
            }
            removed.push(copy_of(&entry.key));
            proof {
                assert(names(removed@) =~= names(old_removed).push(entry@.key));
                assert(keys(before.filter(goes(allow)).push(entry@)) =~= keys(
                    before.filter(goes(allow)),
                ).push(entry@.key));
            }
        }
        i += 1;
    }
    proof {
        assert(all.subrange(0, table@.len() as int) =~= all);
    }
    Scrub { retained, removed, warnings: warned }
}

/// Scrubs a table of environment variables, keeping only `RUST_LOG`.
pub fn remove_env_vars(table: &Vec<EnvironmentEntry>) -> (scrub: Scrub)
    ensures
        entries(scrub.retained@) == retained_of(entries(table@), seq![default_allowed_name()]),
        names(scrub.removed@) == removed_of(entries(table@), seq![default_allowed_name()]),
        warnings(scrub.warnings@) == warnings_of(entries(table@), seq![default_allowed_name()]),
{
    let allow_list = default_allow_list();
    scrub_environment(table, &allow_list)
}

/// The allow-list that holds `RUST_LOG` and nothing else.
pub fn default_allow_list() -> (allow_list: Vec<Vec<u8>>)
    ensures
        names(allow_list@) == seq![default_allowed_name()],
{
    let mut name: Vec<u8> = Vec::new();
    name.push(0x52);
    name.push(0x55);
    name.push(0x53);
    name.push(0x54);
    name.push(0x5f);
    name.push(0x4c);
    name.push(0x4f);
    name.push(0x47);
    assert(name@ =~= default_allowed_name());
    let mut allow_list: Vec<Vec<u8>> = Vec::new();
    allow_list.push(name);
    assert(names(allow_list@) =~= seq![default_allowed_name()]);
    allow_list
}

/// After scrubbing, the names that are left are exactly the names of the table
/// that are on the allow-list.
pub proof fn lemma_retained_keys_are_allowed_keys(table: Seq<EntryView>, allow_list: Seq<Seq<u8>>)
    ensures
        keys(retained_of(table, allow_list)).to_set() == keys(table).to_set().intersect(
            allow_list.to_set(),
        ),
{
    let kept = retained_of(table, allow_list);
    let left = keys(kept).to_set();
    let right = keys(table).to_set().intersect(allow_list.to_set());
    assert forall|k: Seq<u8>| left.contains(k) implies right.contains(k) by {
        let j = choose|j: int| 0 <= j < keys(kept).len() && keys(kept)[j] == k;
        table.lemma_filter_pred(stays(allow_list), j);
        assert(kept.contains(kept[j]));
        table.lemma_filter_contains_rev(stays(allow_list), kept[j]);
        let i = choose|i: int| 0 <= i < table.len() && table[i] == kept[j];
        assert(keys(table)[i] == k);
    }
    assert forall|k: Seq<u8>| right.contains(k) implies left.contains(k) by {
        let i = choose|i: int| 0 <= i < keys(table).len() && keys(table)[i] == k;
        assert(stays(allow_list)(table[i]));
        table.lemma_filter_contains(stays(allow_list), i);
        let j = choose|j: int| 0 <= j < kept.len() && kept[j] == table[i];
        assert(keys(kept)[j] == k);
    }
    assert(left =~= right);
}

/// Every variable of the table is either kept or removed.
pub proof fn lemma_every_entry_stays_or_goes(table: Seq<EntryView>, allow_list: Seq<Seq<u8>>)
    ensures
        retained_of(table, allow_list).len() + removed_of(table, allow_list).len() == table.len(),
    decreases table.len(),
{
    reveal(Seq::filter);
    if table.len() > 0 {
        lemma_every_entry_stays_or_goes(table.drop_last(), allow_list);
    }
}

/// A name that is not on the allow-list is not left after scrubbing, and is
/// among the names to remove if the table holds it.
pub proof fn lemma_disallowed_key_is_removed(
    table: Seq<EntryView>,
    allow_list: Seq<Seq<u8>>,
    i: int,
)
    requires
        0 <= i < table.len(),
        !allow_list.contains(table[i].key),
    ensures
        !keys(retained_of(table, allow_list)).contains(table[i].key),
        removed_of(table, allow_list).contains(table[i].key),
{
    let kept = retained_of(table, allow_list);
    if keys(kept).contains(table[i].key) {
        let j = choose|j: int| 0 <= j < keys(kept).len() && keys(kept)[j] == table[i].key;
        table.lemma_filter_pred(stays(allow_list), j);
    }
    let gone = table.filter(goes(allow_list));
    assert(goes(allow_list)(table[i]));
    table.lemma_filter_contains(goes(allow_list), i);
    let j = choose|j: int| 0 <= j < gone.len() && gone[j] == table[i];
    assert(keys(gone)[j] == table[i].key);
}

/// What the warnings of a table are: each is about an entry that goes and is
/// not well formed, and gives that entry's position, name, value and reasons;
/// they come in the order of the table.
pub proof fn lemma_warnings_describe_malformed_entries(
    table: Seq<EntryView>,
    allow_list: Seq<Seq<u8>>,
)
    ensures
        warnings_of(table, allow_list).len() <= table.len(),
        forall|j: int|
            0 <= j < warnings_of(table, allow_list).len() ==> {
                let w = #[trigger] warnings_of(table, allow_list)[j];
                &&& 0 <= w.index < table.len()
                &&& draws_warning(table[w.index], allow_list)
                &&& w == warning_for(w.index, table[w.index])
                &&& w.reasons.len() > 0
            },
        forall|j: int, k: int|
            0 <= j < k < warnings_of(table, allow_list).len() ==> #[trigger] warnings_of(
                table,
                allow_list,
            )[j].index < #[trigger] warnings_of(table, allow_list)[k].index,
    decreases table.len(),
{
    if table.len() > 0 {
        let shorter = table.drop_last();
        lemma_warnings_describe_malformed_entries(shorter, allow_list);
        let earlier = warnings_of(shorter, allow_list);
        let all = warnings_of(table, allow_list);
        lemma_malformed_entry_has_reasons(table.last());
        assert forall|j: int| 0 <= j < all.len() implies {
            let w = #[trigger] all[j];
            &&& 0 <= w.index < table.len()
            &&& draws_warning(table[w.index], allow_list)
            &&& w == warning_for(w.index, table[w.index])
            &&& w.reasons.len() > 0
        } by {
            if j < earlier.len() {
                let w = earlier[j];
                assert(all[j] == w);
                assert(shorter[w.index] == table[w.index]);
            }
        }
        assert forall|j: int, k: int| 0 <= j < k < all.len() implies #[trigger] all[j].index
            < #[trigger] all[k].index by {
            if k < earlier.len() {
                assert(all[j] == earlier[j]);
                assert(all[k] == earlier[k]);
            } else {
                assert(all[j] == earlier[j]);
            }
        }
    }
}

/// An entry has reasons against it exactly when it is not well formed.
pub proof fn lemma_malformed_entry_has_reasons(entry: EntryView)
    ensures
        reasons_of(entry).len() == 0 <==> is_well_formed(entry),
{
}

/// An entry that goes and is not well formed draws exactly one warning, which
/// names it; the entry goes all the same.
pub proof fn lemma_one_warning_per_malformed_entry(
    table: Seq<EntryView>,
    allow_list: Seq<Seq<u8>>,
    i: int,
)
    requires
        0 <= i < table.len(),
        !allow_list.contains(table[i].key),
        !is_well_formed(table[i]),
    ensures
        exists|j: int|
            {
                &&& 0 <= j < warnings_of(table, allow_list).len()
                &&& #[trigger] warnings_of(table, allow_list)[j] == warning_for(i, table[i])
                &&& forall|k: int|
                    0 <= k < warnings_of(table, allow_list).len() && k != j
                        ==> #[trigger] warnings_of(table, allow_list)[k].index != i
            },
        removed_of(table, allow_list).contains(table[i].key),
    decreases table.len(),
{
    lemma_disallowed_key_is_removed(table, allow_list, i);
    lemma_warnings_describe_malformed_entries(table, allow_list);
    let all = warnings_of(table, allow_list);
    let shorter = table.drop_last();
    let earlier = warnings_of(shorter, allow_list);
    let j = if i == table.len() - 1 {
        all.len() - 1
    } else {
        lemma_one_warning_per_malformed_entry(shorter, allow_list, i);
        choose|j: int| 0 <= j < earlier.len() && #[trigger] earlier[j] == warning_for(i, shorter[i])
    };
    assert(0 <= j < all.len());
    assert(all[j] == warning_for(i, table[i]));
    assert forall|k: int| 0 <= k < all.len() && k != j implies #[trigger] all[k].index != i by {
        if k < j {
            assert(all[k].index < all[j].index);
        } else {
            assert(all[j].index < all[k].index);
        }
    }
}

/// An entry that is well formed, or that is kept, draws no warning.
pub proof fn lemma_no_warning_without_cause(
    table: Seq<EntryView>,
    allow_list: Seq<Seq<u8>>,
    i: int,
)
    requires
        0 <= i < table.len(),
        is_well_formed(table[i]) || allow_list.contains(table[i].key),
    ensures
        forall|j: int|
            0 <= j < warnings_of(table, allow_list).len() ==> #[trigger] warnings_of(
                table,
                allow_list,
            )[j].index != i,
{
    lemma_warnings_describe_malformed_entries(table, allow_list);
}

/// What is kept by a scrubbing holds nothing that is left to remove.
pub proof fn lemma_retained_is_scrubbed(table: Seq<EntryView>, allow_list: Seq<Seq<u8>>)
    ensures
        is_scrubbed(retained_of(table, allow_list), allow_list),
{
    let kept = retained_of(table, allow_list);
    assert forall|i: int| 0 <= i < kept.len() implies allow_list.contains(
        (#[trigger] kept[i]).key,
    ) by {
        table.lemma_filter_pred(stays(allow_list), i);
    }
}

} // verus!
