//! The fixed catalog of refresh intervals offered in the settings window.
//!
//! Fourteen entries, from ten seconds to one hour, each a display label
//! paired with a duration in milliseconds. The catalog is immutable at
//! runtime; a stored duration is mapped back to its catalog index by a
//! linear scan, falling back to the first (ten-second) entry when the
//! duration is not in the catalog.

use vstd::prelude::*;

verus! {

/// Number of entries in the interval catalog.
pub const CATALOG_LEN: usize = 14;

/// Index of the entry a lookup falls back to when the duration is absent.
pub const DEFAULT_CATALOG_INDEX: usize = 0;

/// One selectable entry of a dropdown: a display label and the value it
/// stands for.
#[derive(Clone, Copy)]
pub struct ComboBoxModel<T> {
    pub label: &'static str,
    pub value: T,
}

impl<T> ComboBoxModel<T> {
    pub fn new(label: &'static str, value: T) -> (m: ComboBoxModel<T>)
        ensures
            m.label == label,
            m.value == value,
    {
        ComboBoxModel { label, value }
    }
}

/// The duration in milliseconds of the catalog entry at index `i`.
pub open spec fn catalog_value(i: int) -> u32 {
    if i == 0 {
        10000
    } else if i == 1 {
        15000
    } else if i == 2 {
        20000
    } else if i == 3 {
        30000
    } else if i == 4 {
        45000
    } else if i == 5 {
        60000
    } else if i == 6 {
        120000
    } else if i == 7 {
        300000
    } else if i == 8 {
        600000
    } else if i == 9 {
        900000
    } else if i == 10 {
        1200000
    } else if i == 11 {
        1800000
    } else if i == 12 {
        2700000
    } else {
        3600000
    }
}

/// The display label of the catalog entry at index `i`.
pub open spec fn catalog_label(i: int) -> Seq<char> {
    if i == 0 {
        "Every 10 seconds"@
    } else if i == 1 {
        "Every 15 seconds"@
    } else if i == 2 {
        "Every 20 seconds"@
    } else if i == 3 {
        "Every 30 seconds"@
    } else if i == 4 {
        "Every 45 seconds"@
    } else if i == 5 {
        "Every minute"@
    } else if i == 6 {
        "Every 2 minutes"@
    } else if i == 7 {
        "Every 5 minutes"@
    } else if i == 8 {
        "Every 10 minutes"@
    } else if i == 9 {
        "Every 15 minutes"@
    } else if i == 10 {
        "Every 20 minutes"@
    } else if i == 11 {
        "Every 30 minutes"@
    } else if i == 12 {
        "Every 45 minutes"@
    } else {
        "Every hour"@
    }
}

/// Whether some catalog entry has duration `interval`.
pub open spec fn catalog_has_interval(interval: u32) -> bool {
    exists|i: int| 0 <= i < CATALOG_LEN && catalog_value(i) == interval
}

/// The catalog index that a stored duration selects: the first entry whose
/// duration equals `interval`, or the default index when none matches.
pub open spec fn spec_index_from_interval(interval: u32) -> int {
    if interval == 10000 {
        0
    } else if interval == 15000 {
        1
    } else if interval == 20000 {
        2
    } else if interval == 30000 {
        3
    } else if interval == 45000 {
        4
    } else if interval == 60000 {
        5
    } else if interval == 120000 {
        6
    } else if interval == 300000 {
        7
    } else if interval == 600000 {
        8
    } else if interval == 900000 {
        9
    } else if interval == 1200000 {
        10
    } else if interval == 1800000 {
        11
    } else if interval == 2700000 {
        12
    } else if interval == 3600000 {
        13
    } else {
        DEFAULT_CATALOG_INDEX as int
    }
}

/// Builds the catalog, in order, as the settings dropdown shows it.
pub fn duration_model() -> (model: Vec<ComboBoxModel<u32>>)
    ensures
        model@.len() == CATALOG_LEN,
        forall|i: int|
            0 <= i < CATALOG_LEN ==> (#[trigger] model@[i]).value == catalog_value(i)
                && model@[i].label@ == catalog_label(i),
{
    let mut model: Vec<ComboBoxModel<u32>> = Vec::new();
    model.push(ComboBoxModel::new("Every 10 seconds", 10000));
    model.push(ComboBoxModel::new("Every 15 seconds", 15000));
    model.push(ComboBoxModel::new("Every 20 seconds", 20000));
    model.push(ComboBoxModel::new("Every 30 seconds", 30000));
    model.push(ComboBoxModel::new("Every 45 seconds", 45000));
    model.push(ComboBoxModel::new("Every minute", 60000));
    model.push(ComboBoxModel::new("Every 2 minutes", 120000));
    model.push(ComboBoxModel::new("Every 5 minutes", 300000));
    model.push(ComboBoxModel::new("Every 10 minutes", 600000));
    model.push(ComboBoxModel::new("Every 15 minutes", 900000));
    model.push(ComboBoxModel::new("Every 20 minutes", 1200000));
    model.push(ComboBoxModel::new("Every 30 minutes", 1800000));
    model.push(ComboBoxModel::new("Every 45 minutes", 2700000));
    model.push(ComboBoxModel::new("Every hour", 3600000));
    model
}

/// Maps a stored duration back to the catalog index to preselect in the
/// dropdown: the first matching entry, or the default (ten-second) entry
/// when the duration is not in the catalog.
pub fn get_index_from_interval(interval: u32) -> (idx: usize)
    ensures
        idx == spec_index_from_interval(interval),
        idx < CATALOG_LEN,
        catalog_has_interval(interval) ==> catalog_value(idx as int) == interval,
        !catalog_has_interval(interval) ==> idx == DEFAULT_CATALOG_INDEX,
{
    let model = duration_model();
    let mut i: usize = 0;
    while i < CATALOG_LEN
        invariant
            i <= CATALOG_LEN,
            model@.len() == CATALOG_LEN,
            forall|k: int|
                0 <= k < CATALOG_LEN ==> (#[trigger] model@[k]).value == catalog_value(k),
            forall|j: int| 0 <= j < i ==> catalog_value(j) != interval,
        decreases CATALOG_LEN - i,
    {
        if model[i].value == interval {
            return i;
        }
        i = i + 1;
    }
    proof {
        assert(catalog_value(0) != interval);
        assert(catalog_value(1) != interval);
        assert(catalog_value(2) != interval);
        assert(catalog_value(3) != interval);
        assert(catalog_value(4) != interval);
        assert(catalog_value(5) != interval);
        assert(catalog_value(6) != interval);
        assert(catalog_value(7) != interval);
        assert(catalog_value(8) != interval);
        assert(catalog_value(9) != interval);
        assert(catalog_value(10) != interval);
        assert(catalog_value(11) != interval);
        assert(catalog_value(12) != interval);
        assert(catalog_value(13) != interval);
    }
    DEFAULT_CATALOG_INDEX
}

/// Law: for every catalog entry, looking its duration up returns that
/// entry's index (and hence its label); looking up a duration absent from
/// the catalog returns the default entry's index.
pub proof fn lemma_catalog_lookup()
    ensures
        forall|i: int|
            0 <= i < CATALOG_LEN ==> #[trigger] spec_index_from_interval(catalog_value(i)) == i,
        forall|interval: u32|
            !catalog_has_interval(interval) ==> #[trigger] spec_index_from_interval(interval)
                == DEFAULT_CATALOG_INDEX,
        forall|interval: u32|
            #[trigger] catalog_has_interval(interval) ==> catalog_value(
                spec_index_from_interval(interval),
            ) == interval,
{
    assert forall|i: int|
        0 <= i < CATALOG_LEN implies #[trigger] spec_index_from_interval(catalog_value(i))
        == i by {
        assert(catalog_value(0) == 10000);
    }
    assert forall|interval: u32|
        !catalog_has_interval(interval) implies #[trigger] spec_index_from_interval(interval)
        == DEFAULT_CATALOG_INDEX by {
        assert(catalog_value(0) == 10000);
        assert(catalog_value(1) == 15000);
        assert(catalog_value(2) == 20000);
        assert(catalog_value(3) == 30000);
        assert(catalog_value(4) == 45000);
        assert(catalog_value(5) == 60000);
        assert(catalog_value(6) == 120000);
        assert(catalog_value(7) == 300000);
        assert(catalog_value(8) == 600000);
        assert(catalog_value(9) == 900000);
        assert(catalog_value(10) == 1200000);
        assert(catalog_value(11) == 1800000);
        assert(catalog_value(12) == 2700000);
        assert(catalog_value(13) == 3600000);
    }
}

} // verus!
