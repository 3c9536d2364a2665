//! Layers and the layer table.
//!
//! A layer is a named, togglable mapping from key codes to lists of control
//! codes.  The table holds the layers in priority order; only the `active`
//! flags ever change after construction.

use vstd::prelude::*;

use crate::control_code::{ControlCode, LayerRef};
use crate::events::{EventCode, InputEvent};
use crate::keycodes::KeyCode;
use crate::strings::str_eq;

verus! {

/// The mathematical shape of a layer: its name, its finished map, and its
/// active bit.
pub struct LayerModel {
    pub name: Seq<char>,
    pub map: Map<KeyCode, Seq<ControlCode>>,
    pub active: bool,
}

/// Folds a list of `(key, codes)` entries into a map; a later entry for the
/// same key replaces an earlier one.
pub open spec fn spec_entries_map(entries: Seq<(KeyCode, Vec<ControlCode>)>) -> Map<
    KeyCode,
    Seq<ControlCode>,
>
    decreases entries.len(),
{
    if entries.len() == 0 {
        Map::empty()
    } else {
        spec_entries_map(entries.drop_last()).insert(entries.last().0, entries.last().1@)
    }
}

pub proof fn lemma_entries_map_absent(entries: Seq<(KeyCode, Vec<ControlCode>)>, k: KeyCode)
    requires
        forall|i: int| 0 <= i < entries.len() ==> (#[trigger] entries[i]).0 != k,
    ensures
        !spec_entries_map(entries).contains_key(k),
    decreases entries.len(),
{
    if entries.len() > 0 {
        lemma_entries_map_absent(entries.drop_last(), k);
    }
}

pub proof fn lemma_entries_map_found(entries: Seq<(KeyCode, Vec<ControlCode>)>, k: KeyCode, j: int)
    requires
        0 <= j < entries.len(),
        entries[j].0 == k,
        forall|l: int| j < l < entries.len() ==> (#[trigger] entries[l]).0 != k,
    ensures
        spec_entries_map(entries).contains_key(k),
        spec_entries_map(entries)[k] == entries[j].1@,
    decreases entries.len(),
{
    if j == entries.len() - 1 {
    } else {
        lemma_entries_map_found(entries.drop_last(), k, j);
    }
}

/// Every value stored in a finished map is the value of one of the entries
/// it was folded from.
pub proof fn lemma_entries_map_values(entries: Seq<(KeyCode, Vec<ControlCode>)>, k: KeyCode)
    requires
        spec_entries_map(entries).contains_key(k),
    ensures
        exists|j: int|
            0 <= j < entries.len() && (#[trigger] entries[j]).0 == k && spec_entries_map(entries)[k]
                == entries[j].1@,
    decreases entries.len(),
{
    if entries.len() > 0 {
        if entries.last().0 == k {
            assert(entries[entries.len() - 1].0 == k);
        } else {
            lemma_entries_map_values(entries.drop_last(), k);
            let j = choose|j: int|
                0 <= j < entries.drop_last().len() && (#[trigger] entries.drop_last()[j]).0 == k
                    && spec_entries_map(entries.drop_last())[k] == entries.drop_last()[j].1@;
            assert(entries[j].0 == k);
        }
    }
}

/// A finished map holds a key exactly when some entry carries it.
pub proof fn lemma_entries_map_contains(entries: Seq<(KeyCode, Vec<ControlCode>)>, k: KeyCode)
    ensures
        spec_entries_map(entries).contains_key(k) <==> exists|j: int|
            0 <= j < entries.len() && (#[trigger] entries[j]).0 == k,
    decreases entries.len(),
{
    if entries.len() > 0 {
        lemma_entries_map_contains(entries.drop_last(), k);
        if spec_entries_map(entries).contains_key(k) {
            if entries.last().0 == k {
                assert(entries[entries.len() - 1].0 == k);
            } else {
                let j = choose|j: int|
                    0 <= j < entries.drop_last().len() && (#[trigger] entries.drop_last()[j]).0
                        == k;
                assert(entries[j].0 == k);
            }
        } else {
            assert(forall|j: int|
                0 <= j < entries.len() - 1 ==> (#[trigger] entries[j]) == entries.drop_last()[j]);
        }
    }
}

/// When some layer carries the name, index-of-name has an answer.
pub proof fn lemma_index_of_name_exists(layers: Seq<LayerModel>, name: Seq<char>)
    requires
        exists|i: int| 0 <= i < layers.len() && (#[trigger] layers[i]).name == name,
    ensures
        spec_index_of_name(layers, name) is Some,
    decreases layers.len(),
{
    if layers[0].name != name {
        let i = choose|i: int| 0 <= i < layers.len() && (#[trigger] layers[i]).name == name;
        assert(layers.drop_first()[i - 1] == layers[i]);
        lemma_index_of_name_exists(layers.drop_first(), name);
    }
}

/// Rewrites one control code for a concrete event: a `KeyMap` target becomes
/// the same event on the target key, anything else passes through.
pub open spec fn spec_rewrite(cc: ControlCode, e: InputEvent) -> ControlCode {
    match cc {
        ControlCode::KeyMap(kc) => ControlCode::InputEvent(
            InputEvent { time: e.time, code: EventCode::KeyCode(kc), state: e.state },
        ),
        _ => cc,
    }
}

/// What a layer answers for an event: nothing when it is inactive or does not
/// map the key, otherwise its codes rewritten for the event.
pub open spec fn spec_layer_transform(l: LayerModel, e: InputEvent) -> Option<Seq<ControlCode>> {
    match e.code {
        EventCode::KeyCode(kc) => if l.active && l.map.contains_key(kc) {
            Some(l.map[kc].map_values(|cc: ControlCode| spec_rewrite(cc, e)))
        } else {
            None
        },
        EventCode::SynCode(_) => None,
    }
}

/// A named, togglable mapping from key codes to control codes.
#[derive(Debug)]
pub struct Layer {
    pub name: String,
    pub entries: Vec<(KeyCode, Vec<ControlCode>)>,
    pub active: bool,
}

impl View for Layer {
    type V = LayerModel;

    open spec fn view(&self) -> LayerModel {
        LayerModel {
            name: self.name@,
            map: spec_entries_map(self.entries@),
            active: self.active,
        }
    }
}

impl Layer {
    /// Builds a layer from `(key, codes)` entries; a later entry for the same
    /// key replaces an earlier one, as the map it stands for requires.
    pub fn from_entries(name: String, entries: Vec<(KeyCode, Vec<ControlCode>)>, active: bool) -> (l: Layer)
        ensures
            l@.name == name@,
            l@.map == spec_entries_map(entries@),
            l@.active == active,
            l.active == active,
            l.name@ == name@,
            l.entries == entries,
    {
        Layer { name, entries, active }
    }

    /// The codes this layer stores for a key: the value of the last entry for
    /// it, or nothing.
    fn lookup(&self, kc: KeyCode) -> (r: Option<&Vec<ControlCode>>)
        ensures
            match r {
                Some(v) => self@.map.contains_key(kc) && v@ == self@.map[kc],
                None => !self@.map.contains_key(kc),
            },
    {
        let n = self.entries.len();
        let mut i: usize = n;
        while i > 0
            invariant
                i <= n,
                n == self.entries.len(),
                forall|l: int| i <= l < n ==> (#[trigger] self.entries@[l]).0 != kc,
            decreases i,
        {
            i = i - 1;
            if self.entries[i].0 == kc {
                proof {
                    lemma_entries_map_found(self.entries@, kc, i as int);
                }
                return Some(&self.entries[i].1);
            }
        }
        proof {
            lemma_entries_map_absent(self.entries@, kc);
        }
        None
    }

    /// Applies this layer to one event.
    pub fn transform(&self, e: InputEvent) -> (r: Option<Vec<ControlCode>>)
        ensures
            match r {
                Some(v) => spec_layer_transform(self@, e) == Some(v@),
                None => spec_layer_transform(self@, e) is None,
            },
    {
        if !self.active {
            return None;
        }
        let kc = match e.code {
            EventCode::KeyCode(kc) => kc,
            EventCode::SynCode(_) => { return None; },
        };
        let ccs = match self.lookup(kc) {
            Some(ccs) => ccs,
            None => { return None; },
        };
        let mut out: Vec<ControlCode> = Vec::new();
        let mut i: usize = 0;
        while i < ccs.len()
            invariant
                i <= ccs.len(),
                out@.len() == i,
                forall|j: int| 0 <= j < i ==> out@[j] == spec_rewrite(ccs@[j], e),
            decreases ccs.len() - i,
        {
            match &ccs[i] {
                ControlCode::KeyMap(kc2) => {
                    out.push(
                        ControlCode::InputEvent(
                            InputEvent { time: e.time, code: EventCode::KeyCode(*kc2), state: e.state },
                        ),
                    );
                },
                cc => {
                    out.push(cc.clone());
                },
            }
            i = i + 1;
        }
        proof {
            assert(out@ =~= ccs@.map_values(|cc: ControlCode| spec_rewrite(cc, e)));
        }
        Some(out)
    }

    /// Turns the layer on.
    pub fn activate(&mut self)
        ensures
            *final(self) == (Layer { active: true, ..*old(self) }),
    {
        self.active = true
    }

    /// Turns the layer off.
    pub fn deactivate(&mut self)
        ensures
            *final(self) == (Layer { active: false, ..*old(self) }),
    {
        self.active = false
    }
}

/// The layers in priority order.  Position decides priority: the last layer
/// is consulted first.
#[derive(Debug)]
pub struct Layers {
    pub items: Vec<Layer>,
}

/// The models of a vector of layers, in order.
pub open spec fn spec_models(items: Seq<Layer>) -> Seq<LayerModel> {
    items.map_values(|l: Layer| l@)
}

impl View for Layers {
    type V = Seq<LayerModel>;

    open spec fn view(&self) -> Seq<LayerModel> {
        spec_models(self.items@)
    }
}

/// True when no two layers share a name.
pub open spec fn spec_names_unique(layers: Seq<LayerModel>) -> bool {
    forall|i: int, j: int|
        0 <= i < j < layers.len() ==> (#[trigger] layers[i]).name != (#[trigger] layers[j]).name
}

/// The position of the first layer with the given name.
pub open spec fn spec_index_of_name(layers: Seq<LayerModel>, name: Seq<char>) -> Option<int>
    decreases layers.len(),
{
    if layers.len() == 0 {
        None
    } else if layers[0].name == name {
        Some(0)
    } else {
        match spec_index_of_name(layers.drop_first(), name) {
            Some(i) => Some(i + 1),
            None => None,
        }
    }
}

/// An index-of-name answer points at the first layer carrying the name.
pub proof fn lemma_index_of_name_found(layers: Seq<LayerModel>, name: Seq<char>, i: int)
    requires
        0 <= i < layers.len(),
        layers[i].name == name,
        forall|j: int| 0 <= j < i ==> (#[trigger] layers[j]).name != name,
    ensures
        spec_index_of_name(layers, name) == Some(i),
    decreases layers.len(),
{
    if i > 0 {
        lemma_index_of_name_found(layers.drop_first(), name, i - 1);
    }
}

/// When no layer carries the name, index-of-name has no answer.
pub proof fn lemma_index_of_name_absent(layers: Seq<LayerModel>, name: Seq<char>)
    requires
        forall|j: int| 0 <= j < layers.len() ==> (#[trigger] layers[j]).name != name,
    ensures
        spec_index_of_name(layers, name) is None,
    decreases layers.len(),
{
    if layers.len() > 0 {
        lemma_index_of_name_absent(layers.drop_first(), name);
    }
}

/// An index-of-name answer is a position in the table, and the layer there
/// carries the name.
pub proof fn lemma_index_of_name_bounds(layers: Seq<LayerModel>, name: Seq<char>)
    ensures
        match spec_index_of_name(layers, name) {
            Some(i) => 0 <= i < layers.len() && layers[i].name == name,
            None => true,
        },
    decreases layers.len(),
{
    if layers.len() > 0 && layers[0].name != name {
        lemma_index_of_name_bounds(layers.drop_first(), name);
    }
}

/// Index-of-name looks only at the names, never at the maps or flags.
pub proof fn lemma_index_of_name_same_names(l1: Seq<LayerModel>, l2: Seq<LayerModel>, name: Seq<char>)
    requires
        l1.len() == l2.len(),
        forall|i: int| 0 <= i < l1.len() ==> (#[trigger] l1[i]).name == (#[trigger] l2[i]).name,
    ensures
        spec_index_of_name(l1, name) == spec_index_of_name(l2, name),
    decreases l1.len(),
{
    if l1.len() > 0 {
        lemma_index_of_name_same_names(l1.drop_first(), l2.drop_first(), name);
    }
}

impl Layers {
    /// How many layers the table holds.
    pub fn len(&self) -> (n: usize)
        ensures
            n == self@.len(),
    {
        self.items.len()
    }

    /// The layer at a position.
    pub fn get(&self, i: usize) -> (l: &Layer)
        requires
            i < self@.len(),
        ensures
            l@ == self@[i as int],
    {
        &self.items[i]
    }

    /// Whether the layer at a position is active.
    pub fn is_active(&self, i: usize) -> (r: bool)
        requires
            i < self@.len(),
        ensures
            r == self@[i as int].active,
    {
        self.items[i].active
    }

    /// Sets the active bit of the layer at a position.
    pub fn set_active(&mut self, i: usize, to: bool)
        requires
            i < old(self)@.len(),
        ensures
            final(self)@ == old(self)@.update(
                i as int,
                LayerModel { active: to, ..old(self)@[i as int] },
            ),
    {
        let l = &mut self.items[i];
        if to {
            l.activate();
        } else {
            l.deactivate();
        }
        proof {
            assert(final(self)@ =~= old(self)@.update(
                i as int,
                LayerModel { active: to, ..old(self)@[i as int] },
            ));
        }
    }

    /// The position of the first layer with the given name.
    pub fn index_of_name(&self, name: &str) -> (r: Option<usize>)
        ensures
            match r {
                Some(i) => spec_index_of_name(self@, name@) == Some(i as int),
                None => spec_index_of_name(self@, name@) is None,
            },
    {
        let n = self.items.len();
        let mut i: usize = 0;
        while i < n
            invariant
                i <= n,
                n == self@.len(),
                forall|j: int| 0 <= j < i ==> (#[trigger] self@[j]).name != name@,
            decreases n - i,
        {
            if str_eq(self.items[i].name.as_str(), name) {
                proof {
                    lemma_index_of_name_found(self@, name@, i as int);
                }
                return Some(i);
            }
            i = i + 1;
        }
        proof {
            lemma_index_of_name_absent(self@, name@);
        }
        None
    }
}

/// Layer positions of the default remap: the home-row layer at the bottom,
/// the navigation overlay above it.
#[allow(non_camel_case_types)]
#[derive(Clone, Copy, Debug, PartialEq, Eq, Structural)]
pub enum LAYERS {
    HomerowCodeRight,
    Navigation,
}

/// The table position each named layer occupies.
pub open spec fn spec_layers_position(l: LAYERS) -> usize {
    match l {
        LAYERS::HomerowCodeRight => 0,
        LAYERS::Navigation => 1,
    }
}

impl LAYERS {
    /// The table position of this layer.
    pub fn to_usize(self) -> (r: usize)
        ensures
            r == spec_layers_position(self),
    {
        match self {
            LAYERS::HomerowCodeRight => 0,
            LAYERS::Navigation => 1,
        }
    }
}

/// The codes for a plain remapping to the given key.
pub fn key(k: KeyCode) -> (r: Vec<ControlCode>)
    ensures
        r@ == seq![ControlCode::KeyMap(k)],
{
    let mut v: Vec<ControlCode> = Vec::new();
    v.push(ControlCode::KeyMap(k));
    proof {
        assert(v@ =~= seq![ControlCode::KeyMap(k)]);
    }
    v
}

/// The codes for a tap-toggle bound to a layer position.
pub fn tap_toggle(layer: usize, kc: KeyCode) -> (r: Vec<ControlCode>)
    ensures
        r@ == seq![ControlCode::TapToggle(LayerRef::ByIndex(layer), kc)],
{
    let mut v: Vec<ControlCode> = Vec::new();
    v.push(ControlCode::TapToggle(LayerRef::ByIndex(layer), kc));
    proof {
        assert(v@ =~= seq![ControlCode::TapToggle(LayerRef::ByIndex(layer), kc)]);
    }
    v
}

/// The codes for a tap-toggle bound to a layer name.
pub fn tap_toggle_by_name(name: String, kc: KeyCode) -> (r: Vec<ControlCode>)
    ensures
        r@ == seq![ControlCode::TapToggle(LayerRef::ByName(name), kc)],
{
    let mut v: Vec<ControlCode> = Vec::new();
    v.push(ControlCode::TapToggle(LayerRef::ByName(name), kc));
    proof {
        assert(v@ =~= seq![ControlCode::TapToggle(LayerRef::ByName(name), kc)]);
    }
    v
}

} // verus!
