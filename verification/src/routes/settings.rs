//! The settings endpoints: a table of key/value pairs with one row per key.

use crate::models::Setting;
use crate::progress::opt_text;
use crate::text::same_text;
use vstd::prelude::*;

verus! {

/// The body of a request to set one setting.
#[derive(Clone, Debug)]
pub struct SetSettingRequest {
    pub value: String,
}

/// The position of the first row with the given key.
pub open spec fn key_position(settings: Seq<Setting>, key: Seq<char>) -> Option<int>
    decreases settings.len(),
{
    if settings.len() == 0 {
        None
    } else {
        match key_position(settings.drop_last(), key) {
            Some(i) => Some(i),
            None => if settings.last().key@ == key {
                Some(settings.len() - 1)
            } else {
                None
            },
        }
    }
}

/// The value stored under a key, if any.
pub open spec fn lookup_spec(settings: Seq<Setting>, key: Seq<char>) -> Option<Seq<char>> {
    match key_position(settings, key) {
        Some(i) => Some(settings[i].value@),
        None => None,
    }
}

/// How storing a value changes the table: the row of the key takes the value
/// and the time, or a row is added at the end where the key had none; every
/// other row stays as it is.
pub open spec fn set_spec(
    before: Seq<Setting>,
    after: Seq<Setting>,
    key: Seq<char>,
    value: Seq<char>,
    now: Seq<char>,
) -> bool {
    let at = match key_position(before, key) {
        Some(i) => i,
        None => before.len() as int,
    };
    &&& after.len() == if key_position(before, key).is_some() {
        before.len()
    } else {
        before.len() + 1
    }
    &&& after[at].key@ == key
    &&& after[at].value@ == value
    &&& after[at].updated_at@ == now
    &&& forall|j: int| 0 <= j < before.len() && j != at ==> #[trigger] after[j] == before[j]
}

/// No key has two rows.
pub open spec fn keys_unique(settings: Seq<Setting>) -> bool {
    forall|i: int, j: int|
        0 <= i < j < settings.len() ==> (#[trigger] settings[i]).key@ != (
        #[trigger] settings[j]).key@
}

pub proof fn lemma_key_position(settings: Seq<Setting>, key: Seq<char>)
    ensures
        match key_position(settings, key) {
            Some(i) => 0 <= i < settings.len() && settings[i].key@ == key && forall|j: int|
                0 <= j < i ==> (#[trigger] settings[j]).key@ != key,
            None => forall|j: int| 0 <= j < settings.len() ==> (#[trigger] settings[j]).key@ != key,
        },
    decreases settings.len(),
{
    if settings.len() > 0 {
        lemma_key_position(settings.drop_last(), key);
        assert forall|j: int| 0 <= j < settings.len() - 1 implies settings.drop_last()[j]
            == settings[j] by {}
        match key_position(settings.drop_last(), key) {
            Some(i) => {
                assert forall|j: int| 0 <= j < i implies (#[trigger] settings[j]).key@ != key by {
                    assert(settings.drop_last()[j] == settings[j]);
                }
            },
            None => {
                assert forall|j: int| 0 <= j < settings.len() - 1 implies (
                #[trigger] settings[j]).key@ != key by {
                    assert(settings.drop_last()[j] == settings[j]);
                }
            },
        }
    }
}

fn find_key(settings: &Vec<Setting>, key: &str) -> (r: Option<usize>)
    ensures
        match r {
            Some(i) => key_position(settings@, key@) == Some(i as int) && i < settings.len(),
            None => key_position(settings@, key@).is_none(),
        },
{
    let mut i: usize = 0;
    proof {
        lemma_key_position(settings@, key@);
    }
    while i < settings.len()
        invariant
            i <= settings.len(),
            forall|j: int| 0 <= j < i ==> (#[trigger] settings@[j]).key@ != key@,
        decreases settings.len() - i,
    {
        if same_text(settings[i].key.as_str(), key) {
            proof {
                lemma_key_position(settings@, key@);
            }
            return Some(i);
        }
        i += 1;
    }
    proof {
        lemma_key_position(settings@, key@);
    }
    None
}

/// The value stored under a key, if any.
pub fn get_setting(settings: &Vec<Setting>, key: &str) -> (value: Option<String>)
    ensures
        opt_text(value) == lookup_spec(settings@, key@),
{
    match find_key(settings, key) {
        Some(i) => Some(settings[i].value.clone()),
        None => None,
    }
}

/// Stores a value under a key: the row of the key takes the value and the
/// time; where the key has no row yet, one is added. Returns the row.
pub fn set_setting(settings: &mut Vec<Setting>, key: &str, req: &SetSettingRequest, now: &str) -> (row:
    Setting)
    requires
        keys_unique(old(settings)@),
    ensures
        keys_unique(final(settings)@),
        row.key@ == key@ && row.value@ == req.value@ && row.updated_at@ == now@,
        lookup_spec(final(settings)@, key@) == Some(req.value@),
        set_spec(old(settings)@, final(settings)@, key@, req.value@, now@),
{
    let found = find_key(settings, key);
    proof {
        lemma_key_position(settings@, key@);
    }
    match found {
        Some(i) => {
            settings[i].value = req.value.clone();
            settings[i].updated_at = now.to_string();
        },
        None => {
            settings.push(
                Setting { key: key.to_string(), value: req.value.clone(), updated_at: now.to_string() },
            );
        },
    }
    proof {
        lemma_key_position(settings@, key@);
    }
    Setting { key: key.to_string(), value: req.value.clone(), updated_at: now.to_string() }
}

} // verus!
