//! Control registry: lookup of a configured control by physical key or by
//! name, and structural validation of a device configuration.

use vstd::prelude::*;
use crate::types::{CommandKind, Config, ConfigModel, Control, ControlModel};

verus! {

/// Whether some control in `cs` is bound to `key`.
pub open spec fn key_found(cs: Seq<ControlModel>, key: u8) -> bool {
    exists|i: int| 0 <= i < cs.len() && cs[i].key == key
}

/// The index of the first control bound to `key` (meaningful only when
/// `key_found` holds).
pub open spec fn key_index(cs: Seq<ControlModel>, key: u8) -> int
    decreases cs.len(),
{
    if cs.len() == 0 {
        0
    } else if cs[0].key == key {
        0
    } else {
        1 + key_index(cs.drop_first(), key)
    }
}

/// Whether some control in `cs` carries `name`.
pub open spec fn name_found(cs: Seq<ControlModel>, name: Seq<char>) -> bool {
    exists|i: int| 0 <= i < cs.len() && cs[i].name == name
}

/// The index of the first control carrying `name` (meaningful only when
/// `name_found` holds).
pub open spec fn name_index(cs: Seq<ControlModel>, name: Seq<char>) -> int
    decreases cs.len(),
{
    if cs.len() == 0 {
        0
    } else if cs[0].name == name {
        0
    } else {
        1 + name_index(cs.drop_first(), name)
    }
}

/// An index that matches `key` and is preceded by no match is the first match.
pub proof fn lemma_key_index_is_first(cs: Seq<ControlModel>, key: u8, i: int)
    requires
        0 <= i < cs.len(),
        cs[i].key == key,
        forall|j: int| 0 <= j < i ==> cs[j].key != key,
    ensures
        key_index(cs, key) == i,
        key_found(cs, key),
    decreases cs.len(),
{
    if i == 0 {
    } else {
        assert(cs[0].key != key);
        assert(cs.drop_first()[i - 1] == cs[i]);
        assert(forall|j: int| 0 <= j < i - 1 ==> cs.drop_first()[j] == cs[j + 1]);
        lemma_key_index_is_first(cs.drop_first(), key, i - 1);
    }
}

/// When `key` occurs at all, its first index is in range, matches, and is
/// preceded by no match.
pub proof fn lemma_key_index_works(cs: Seq<ControlModel>, key: u8)
    requires
        key_found(cs, key),
    ensures
        0 <= key_index(cs, key) < cs.len(),
        cs[key_index(cs, key)].key == key,
        forall|j: int| 0 <= j < key_index(cs, key) ==> cs[j].key != key,
    decreases cs.len(),
{
    if cs[0].key == key {
    } else {
        let w = choose|i: int| 0 <= i < cs.len() && cs[i].key == key;
        assert(cs.drop_first()[w - 1] == cs[w]);
        assert(key_found(cs.drop_first(), key));
        lemma_key_index_works(cs.drop_first(), key);
        assert(forall|j: int| 0 <= j < cs.drop_first().len() ==> cs.drop_first()[j] == cs[j + 1]);
        let k = key_index(cs.drop_first(), key);
        assert(key_index(cs, key) == 1 + k);
        assert(cs[1 + k] == cs.drop_first()[k]);
        assert forall|j: int| 0 <= j < 1 + k implies cs[j].key != key by {
            if j > 0 {
                assert(cs[j] == cs.drop_first()[j - 1]);
            }
        }
    }
}

/// An index that matches `name` and is preceded by no match is the first match.
pub proof fn lemma_name_index_is_first(cs: Seq<ControlModel>, name: Seq<char>, i: int)
    requires
        0 <= i < cs.len(),
        cs[i].name == name,
        forall|j: int| 0 <= j < i ==> cs[j].name != name,
    ensures
        name_index(cs, name) == i,
        name_found(cs, name),
    decreases cs.len(),
{
    if i == 0 {
    } else {
        assert(cs[0].name != name);
        assert(cs.drop_first()[i - 1] == cs[i]);
        assert(forall|j: int| 0 <= j < i - 1 ==> cs.drop_first()[j] == cs[j + 1]);
        lemma_name_index_is_first(cs.drop_first(), name, i - 1);
    }
}

/// When `name` occurs at all, its first index is in range, matches, and is
/// preceded by no match.
pub proof fn lemma_name_index_works(cs: Seq<ControlModel>, name: Seq<char>)
    requires
        name_found(cs, name),
    ensures
        0 <= name_index(cs, name) < cs.len(),
        cs[name_index(cs, name)].name == name,
        forall|j: int| 0 <= j < name_index(cs, name) ==> cs[j].name != name,
    decreases cs.len(),
{
    if cs[0].name == name {
    } else {
        let w = choose|i: int| 0 <= i < cs.len() && cs[i].name == name;
        assert(cs.drop_first()[w - 1] == cs[w]);
        assert(name_found(cs.drop_first(), name));
        lemma_name_index_works(cs.drop_first(), name);
        assert(forall|j: int| 0 <= j < cs.drop_first().len() ==> cs.drop_first()[j] == cs[j + 1]);
        let k = name_index(cs.drop_first(), name);
        assert(name_index(cs, name) == 1 + k);
        assert(cs[1 + k] == cs.drop_first()[k]);
        assert forall|j: int| 0 <= j < 1 + k implies cs[j].name != name by {
            if j > 0 {
                assert(cs[j] == cs.drop_first()[j - 1]);
            }
        }
    }
}

/// Index of the first control bound to `key`, if any.
pub fn find_by_key(controls: &Vec<Control>, key: u8) -> (r: Option<usize>)
    ensures
        match r {
            Some(i) => {
                &&& key_found(controls.deep_view(), key)
                &&& i == key_index(controls.deep_view(), key)
                &&& i < controls.len()
                &&& controls[i as int]@.key == key
            },
            None => !key_found(controls.deep_view(), key),
        },
{
    let ghost cs = controls.deep_view();
    let mut i: usize = 0;
    while i < controls.len()
        invariant
            i <= controls.len(),
            cs == controls.deep_view(),
            forall|j: int| 0 <= j < i ==> cs[j].key != key,
        decreases controls.len() - i,
    {
        if controls[i].key == key {
            proof {
                lemma_key_index_is_first(cs, key, i as int);
            }
            return Some(i);
        }
        i += 1;
    }
    proof {
        assert forall|j: int| 0 <= j < cs.len() implies cs[j].key != key by {}
    }
    None
}

/// Index of the first control carrying `name`, if any.
pub fn find_by_name(controls: &Vec<Control>, name: &String) -> (r: Option<usize>)
    ensures
        match r {
            Some(i) => {
                &&& name_found(controls.deep_view(), name@)
                &&& i == name_index(controls.deep_view(), name@)
                &&& i < controls.len()
                &&& controls[i as int]@.name == name@
            },
            None => !name_found(controls.deep_view(), name@),
        },
{
    let ghost cs = controls.deep_view();
    let mut i: usize = 0;
    while i < controls.len()
        invariant
            i <= controls.len(),
            cs == controls.deep_view(),
            forall|j: int| 0 <= j < i ==> cs[j].name != name@,
        decreases controls.len() - i,
    {
        if controls[i].name == *name {
            proof {
                lemma_name_index_is_first(cs, name@, i as int);
            }
            return Some(i);
        }
        i += 1;
    }
    None
}

/// Structural faults a configuration can carry.
#[derive(Clone, Copy, Debug, PartialEq, Eq, Structural)]
pub enum ConfigError {
    /// The control at this index binds a command whose shape disagrees with
    /// the control's kind.
    CommandShapeMismatch { index: usize },
    /// The control at this index reuses a key already bound by an earlier
    /// control.
    DuplicateKey { index: usize },
}

/// A configuration is well formed when every control's command shape matches
/// its kind and no two controls share a physical key.
pub open spec fn config_wf(c: ConfigModel) -> bool {
    &&& forall|i: int|
        0 <= i < c.controls.len() ==> (#[trigger] c.controls[i]).command.kind() == c.controls[i].kind
    &&& forall|i: int, j: int|
        0 <= i < j < c.controls.len() ==> (#[trigger] c.controls[i]).key != (#[trigger] c.controls[j]).key
}

/// Checks the structural invariants of a device configuration: every
/// control's command binding has the shape of its declared kind, and no two
/// controls are bound to the same key.
pub fn validate_config(config: &Config) -> (r: Result<(), ConfigError>)
    ensures
        r is Ok <==> config_wf(config@),
        match r {
            Ok(()) => true,
            Err(ConfigError::CommandShapeMismatch { index }) => {
                &&& index < config@.controls.len()
                &&& config@.controls[index as int].command.kind() != config@.controls[
                    index as int
                ].kind
            },
            Err(ConfigError::DuplicateKey { index }) => {
                &&& index < config@.controls.len()
                &&& exists|j: int|
                    0 <= j < index && (#[trigger] config@.controls[j]).key == config@.controls[
                        index as int
                    ].key
            },
        },
{
    let ghost cs = config@.controls;
    let controls = &config.controls;
    let mut i: usize = 0;
    while i < controls.len()
        invariant
            i <= controls.len(),
            cs == config@.controls,
            controls == &config.controls,
            forall|k: int| 0 <= k < i ==> (#[trigger] cs[k]).command.kind() == cs[k].kind,
            forall|k: int, j: int| 0 <= j < k < i ==> (#[trigger] cs[j]).key != (#[trigger] cs[k]).key,
        decreases controls.len() - i,
    {
        let c = &controls[i];
        if c.command.kind() != c.kind {
            return Err(ConfigError::CommandShapeMismatch { index: i });
        }
        let mut j: usize = 0;
        while j < i
            invariant
                j <= i,
                i < controls.len(),
                cs == config@.controls,
                controls == &config.controls,
                forall|k: int| 0 <= k < j ==> (#[trigger] cs[k]).key != cs[i as int].key,
            decreases i - j,
        {
            if controls[j].key == controls[i].key {
                proof {
                    assert(cs[j as int].key == cs[i as int].key);
                    assert(!config_wf(config@));
                }
                return Err(ConfigError::DuplicateKey { index: i });
            }
            j += 1;
        }
        i += 1;
    }
    Ok(())
}

} // verus!
