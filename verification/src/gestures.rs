//! What a device does on each gesture: the configured actions, how partial
//! configurations are merged, and how a gesture is resolved to its action.

use crate::gesture::GestureType;
use vstd::hash_map::StringHashMap;
use vstd::prelude::*;

verus! {

/// The action of one gesture and whether it is enabled.
#[derive(Debug)]
pub struct GestureConfig {
    pub action: Option<String>,
    pub enabled: bool,
}

/// A gesture entry of which either part may be absent, as one section of a
/// configuration gives it.
#[derive(Debug)]
pub struct RawGestureConfig {
    pub action: Option<String>,
    pub enabled: Option<bool>,
}

/// The entry of a gesture that nothing was configured for: no action, and
/// disabled.
pub open spec fn unset() -> GestureConfig {
    GestureConfig { action: None, enabled: false }
}

/// The entry `entry` after `raw` was laid over it: what `raw` gives
/// replaces what was there, what it leaves out stays.
pub open spec fn overlay(entry: GestureConfig, raw: RawGestureConfig) -> GestureConfig {
    GestureConfig {
        action: if raw.action is Some {
            raw.action
        } else {
            entry.action
        },
        enabled: match raw.enabled {
            Some(enabled) => enabled,
            None => entry.enabled,
        },
    }
}

/// The entry under `name`, or the unset entry where there is none.
pub open spec fn entry_of(
    entries: Map<Seq<char>, GestureConfig>,
    name: Seq<char>,
) -> GestureConfig {
    if entries.contains_key(name) {
        entries[name]
    } else {
        unset()
    }
}

/// `entries` after each of `raws` was laid over the entry of its name, in
/// order.
pub open spec fn overlaid(
    entries: Map<Seq<char>, GestureConfig>,
    raws: Seq<(String, RawGestureConfig)>,
) -> Map<Seq<char>, GestureConfig>
    decreases raws.len(),
{
    if raws.len() == 0 {
        entries
    } else {
        let before = overlaid(entries, raws.drop_last());
        let name = raws.last().0@;
        before.insert(name, overlay(entry_of(before, name), raws.last().1))
    }
}

/// The action that a gesture resolves to: the text of its entry, where the
/// entry exists, is enabled and has a text that is not empty.
pub open spec fn resolved(gesture: GestureType, entries: Map<Seq<char>, GestureConfig>) -> Option<
    Seq<char>,
> {
    let name = gesture.spec_name();
    if entries.contains_key(name) && entries[name].enabled {
        match entries[name].action {
            Some(action) => if action@.len() > 0 {
                Some(action@)
            } else {
                None
            },
            None => None,
        }
    } else {
        None
    }
}

fn copy_text(text: &Option<String>) -> (copy: Option<String>)
    ensures
        copy == *text,
{
    match text {
        Some(t) => Some(t.clone()),
        None => None,
    }
}

impl GestureConfig {
    /// A copy of the entry.
    pub fn copy(&self) -> (copy: GestureConfig)
        ensures
            copy == *self,
    {
        GestureConfig { action: copy_text(&self.action), enabled: self.enabled }
    }

    /// Lays `raw` over the entry.
    pub fn apply(&mut self, raw: &RawGestureConfig)
        ensures
            *final(self) == overlay(*old(self), *raw),
    {
        if raw.action.is_some() {
            self.action = copy_text(&raw.action);
        }
        if let Some(enabled) = raw.enabled {
            self.enabled = enabled;
        }
    }
}

/// The gesture entries of one device, by gesture name. Its view is the map
/// from each name to its entry.
pub struct GestureMap {
    pub entries: StringHashMap<GestureConfig>,
}

impl View for GestureMap {
    type V = Map<Seq<char>, GestureConfig>;

    open spec fn view(&self) -> Map<Seq<char>, GestureConfig> {
        self.entries@
    }
}

impl GestureMap {
    /// A map without entries.
    pub fn new() -> (map: GestureMap)
        ensures
            map@ == Map::<Seq<char>, GestureConfig>::empty(),
    {
        GestureMap { entries: StringHashMap::new() }
    }

    /// Puts `config` under `name`, in place of an entry that is there.
    pub fn insert(&mut self, name: String, config: GestureConfig)
        ensures
            final(self)@ == old(self)@.insert(name@, config),
    {
        self.entries.insert(name, config);
    }

    /// The entry under `name`.
    pub fn get(&self, name: &str) -> (entry: Option<&GestureConfig>)
        ensures
            entry matches Some(config) ==> self@.contains_key(name@) && *config == self@[name@],
            entry is None ==> !self@.contains_key(name@),
    {
        self.entries.get(name)
    }

    /// Whether there is an entry under `name`.
    pub fn contains_key(&self, name: &str) -> (present: bool)
        ensures
            present == self@.contains_key(name@),
    {
        self.entries.contains_key(name)
    }

    /// The number of entries.
    pub fn len(&self) -> (count: usize)
        ensures
            count == self@.len(),
    {
        self.entries.len()
    }

    /// Lays `raw` over the entry under `name`, or over the unset entry
    /// where there is none.
    pub fn overlay_entry(&mut self, name: &String, raw: &RawGestureConfig)
        ensures
            final(self)@ == old(self)@.insert(name@, overlay(entry_of(old(self)@, name@), *raw)),
    {
        let mut entry = match self.entries.get(name.as_str()) {
            Some(config) => config.copy(),
            None => GestureConfig { action: None, enabled: false },
        };
        entry.apply(raw);
        self.entries.insert(name.clone(), entry);
    }

    /// Lays each of `raws` over the entry of its name, in order.
    pub fn overlay_all(&mut self, raws: &Vec<(String, RawGestureConfig)>)
        ensures
            final(self)@ == overlaid(old(self)@, raws@),
    {
        let mut i: usize = 0;
        assert(raws@.take(0) =~= Seq::empty());
        while i < raws.len()
            invariant
                i <= raws.len(),
                self@ == overlaid(old(self)@, raws@.take(i as int)),
            decreases raws.len() - i,
        {
            assert(raws@.take(i + 1).drop_last() =~= raws@.take(i as int));
            self.overlay_entry(&raws[i].0, &raws[i].1);
            i += 1;
        }
        assert(raws@.take(i as int) =~= raws@);
    }
}

/// Merges the gesture entries of the global section with those of a device:
/// the global ones first, then the device's laid over them. A part that the
/// device leaves out keeps its global value; a gesture that neither part
/// gives an action or a state has no action and is disabled.
pub fn merge_gestures(
    global: &Vec<(String, RawGestureConfig)>,
    device: &Vec<(String, RawGestureConfig)>,
) -> (merged: GestureMap)
    ensures
        merged@ == overlaid(overlaid(Map::empty(), global@), device@),
{
    let mut merged = GestureMap::new();
    merged.overlay_all(global);
    merged.overlay_all(device);
    merged
}

/// Whether no name occurs twice in `raws`.
pub open spec fn names_distinct(raws: Seq<(String, RawGestureConfig)>) -> bool {
    forall|i: int, j: int|
        0 <= i < j < raws.len() ==> (#[trigger] raws[i]).0@ != (#[trigger] raws[j]).0@
}

/// Whether `name` does not occur in `raws`.
pub open spec fn name_absent(raws: Seq<(String, RawGestureConfig)>, name: Seq<char>) -> bool {
    forall|i: int| 0 <= i < raws.len() ==> (#[trigger] raws[i]).0@ != name
}

/// Laying a list of entries with distinct names over a map changes the
/// entry of each name in the list once, and no other entry.
pub proof fn lemma_overlaid_entry(
    entries: Map<Seq<char>, GestureConfig>,
    raws: Seq<(String, RawGestureConfig)>,
    name: Seq<char>,
)
    requires
        names_distinct(raws),
    ensures
        name_absent(raws, name) ==> overlaid(entries, raws).contains_key(name)
            == entries.contains_key(name) && entry_of(overlaid(entries, raws), name) == entry_of(
            entries,
            name,
        ),
        forall|i: int|
            0 <= i < raws.len() && (#[trigger] raws[i]).0@ == name ==> overlaid(
                entries,
                raws,
            ).contains_key(name) && overlaid(entries, raws)[name] == overlay(
                entry_of(entries, name),
                raws[i].1,
            ),
    decreases raws.len(),
{
    if raws.len() > 0 {
        let earlier = raws.drop_last();
        let last = raws.len() - 1;
        assert(names_distinct(earlier)) by {
            assert forall|i: int, j: int| 0 <= i < j < earlier.len() implies (
            #[trigger] earlier[i]).0@ != (#[trigger] earlier[j]).0@ by {
                assert(earlier[i] == raws[i] && earlier[j] == raws[j]);
            }
        }
        lemma_overlaid_entry(entries, earlier, name);
        if name_absent(raws, name) {
            assert(raws[last].0@ != name);
            assert forall|i: int| 0 <= i < earlier.len() implies (#[trigger] earlier[i]).0@
                != name by {
                assert(earlier[i] == raws[i]);
            }
        }
        assert forall|i: int|
            0 <= i < raws.len() && (#[trigger] raws[i]).0@ == name implies overlaid(
            entries,
            raws,
        ).contains_key(name) && overlaid(entries, raws)[name] == overlay(
            entry_of(entries, name),
            raws[i].1,
        ) by {
            if i == last {
                assert forall|k: int| 0 <= k < earlier.len() implies (#[trigger] earlier[k]).0@
                    != name by {
                    assert(earlier[k] == raws[k]);
                    assert(raws[k].0@ != raws[last].0@);
                }
            } else {
                assert(earlier[i] == raws[i]);
                assert(raws[i].0@ != raws[last].0@);
            }
        }
    }
}

/// What a list of entries says of `name`: the entry under that name, or an
/// entry that gives neither part where the list has none.
pub open spec fn said_of(
    raws: Seq<(String, RawGestureConfig)>,
    name: Seq<char>,
) -> RawGestureConfig {
    if name_absent(raws, name) {
        RawGestureConfig { action: None, enabled: None }
    } else {
        raws[choose|i: int| 0 <= i < raws.len() && (#[trigger] raws[i]).0@ == name].1
    }
}

/// The merge, gesture by gesture: where neither section names a gesture,
/// the result has no entry for it; else its entry is the unset entry with
/// first what the global section says of it laid over, then what the
/// device's says. The order of the entries within a section plays no part.
pub proof fn law_merge_by_name(
    global: Seq<(String, RawGestureConfig)>,
    device: Seq<(String, RawGestureConfig)>,
    name: Seq<char>,
)
    requires
        names_distinct(global),
        names_distinct(device),
    ensures
        ({
            let merged = overlaid(overlaid(Map::empty(), global), device);
            &&& merged.contains_key(name) <==> !name_absent(global, name) || !name_absent(
                device,
                name,
            )
            &&& entry_of(merged, name) == overlay(
                overlay(unset(), said_of(global, name)),
                said_of(device, name),
            )
        }),
{
    let base = overlaid(Map::empty(), global);
    lemma_overlaid_entry(Map::empty(), global, name);
    lemma_overlaid_entry(base, device, name);
    if !name_absent(global, name) {
        let i = choose|i: int| 0 <= i < global.len() && (#[trigger] global[i]).0@ == name;
        assert(global[i].0@ == name);
    }
    if !name_absent(device, name) {
        let i = choose|i: int| 0 <= i < device.len() && (#[trigger] device[i]).0@ == name;
        assert(device[i].0@ == name);
    }
}

/// Looks up the action of a recognized gesture: the text configured under
/// the gesture's name, if the entry is enabled and the text is not empty.
pub fn resolve_action<'a>(gesture: GestureType, gestures: &'a GestureMap) -> (action: Option<
    &'a str,
>)
    ensures
        action matches Some(text) ==> resolved(gesture, gestures@) == Some(text@),
        action is None ==> resolved(gesture, gestures@) is None,
{
    let entry = match gestures.get(gesture.name()) {
        Some(entry) => entry,
        None => {
            return None;
        },
    };
    if !entry.enabled {
        return None;
    }
    match &entry.action {
        Some(action) => {
            let text = action.as_str();
            if text.is_empty() {
                None
            } else {
                Some(text)
            }
        },
        None => None,
    }
}

} // verus!
