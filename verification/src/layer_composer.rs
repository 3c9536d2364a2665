//! The transformer: one input event in, zero or more control codes out.
//!
//! A `LayerComposer` consults its layers from the top of the stack down; the
//! first active layer that maps the event's key wins, and the codes it
//! answers are then put through tap-toggle resolution.  When no layer
//! answers, a built-in passthrough forwards the event, translating the exit
//! key into the order to shut the pipeline down.

use vstd::prelude::*;

use crate::clock::Clock;
use crate::control_code::{ControlCode, LayerRef};
use crate::errors::Error;
use crate::events::{EventCode, InputEvent, KeyState};
use crate::keycodes::KeyCode;
use crate::layers::{
    spec_index_of_name, spec_layer_transform, spec_models, spec_names_unique, Layer, LayerModel,
    Layers, lemma_entries_map_values, lemma_index_of_name_bounds, lemma_index_of_name_same_names,
};
use crate::timers::Timers;
use crate::HOLD_THRESHOLD_MICROS;

verus! {

/// The mathematical state of the transformer: the layer stack and the timer
/// table.
pub struct ComposerModel {
    pub layers: Seq<LayerModel>,
    pub timers: Map<KeyCode, u64>,
}

/// The position a layer reference points at, if it points anywhere.
pub open spec fn spec_resolve_ref(layers: Seq<LayerModel>, lr: LayerRef) -> Option<int> {
    match lr {
        LayerRef::ByIndex(i) => if i < layers.len() {
            Some(i as int)
        } else {
            None
        },
        LayerRef::ByName(n) => spec_index_of_name(layers, n@),
    }
}

/// Whether the referenced layer is active; an unresolved reference counts as
/// inactive.
pub open spec fn spec_ref_active(layers: Seq<LayerModel>, lr: LayerRef) -> bool {
    match spec_resolve_ref(layers, lr) {
        Some(i) => layers[i].active,
        None => false,
    }
}

/// The stack with the referenced layer's active bit set; an unresolved
/// reference changes nothing.
pub open spec fn spec_set_active(layers: Seq<LayerModel>, lr: LayerRef, to: bool) -> Seq<
    LayerModel,
> {
    match spec_resolve_ref(layers, lr) {
        Some(i) => layers.update(i, LayerModel { active: to, ..layers[i] }),
        None => layers,
    }
}

/// A control code whose layer reference, if it has one, points at a layer.
pub open spec fn spec_cc_ref_valid(layers: Seq<LayerModel>, cc: ControlCode) -> bool {
    match cc {
        ControlCode::TapToggle(lr, _) => spec_resolve_ref(layers, lr) is Some,
        _ => true,
    }
}

/// Every reference stored in any layer's map points at a layer.
pub open spec fn spec_refs_valid(layers: Seq<LayerModel>) -> bool {
    forall|i: int, k: KeyCode, j: int|
        0 <= i < layers.len() && (#[trigger] layers[i]).map.contains_key(k) && 0 <= j
            < layers[i].map[k].len() ==> spec_cc_ref_valid(layers, #[trigger] layers[i].map[k][j])
}

/// The transformer's invariant: references resolve and names are unambiguous.
pub open spec fn spec_composer_wf(s: ComposerModel) -> bool {
    spec_refs_valid(s.layers) && spec_names_unique(s.layers)
}

/// Time passed since a recorded instant; a clock that ran backwards counts as
/// no time passed.
pub open spec fn spec_elapsed(now: u64, t: u64) -> u64 {
    if now >= t {
        (now - t) as u64
    } else {
        0
    }
}

/// The synthesized tap: the key goes down at the given instant and comes up
/// one microsecond later, so the two events stay ordered downstream.
pub open spec fn spec_tap_pair(k: KeyCode, now: u64) -> Seq<ControlCode> {
    seq![
        ControlCode::InputEvent(
            InputEvent { time: now, code: EventCode::KeyCode(k), state: KeyState::Down },
        ),
        ControlCode::InputEvent(
            InputEvent {
                time: (now + 1) as u64,
                code: EventCode::KeyCode(k),
                state: KeyState::Up,
            },
        ),
    ]
}

/// Tap-toggle resolution for a single control code: what the state becomes
/// and what is emitted.
pub open spec fn spec_handle_one(s: ComposerModel, e: InputEvent, now: u64, cc: ControlCode) -> (
    ComposerModel,
    Seq<ControlCode>,
) {
    match cc {
        ControlCode::TapToggle(lr, k) => {
            if s.timers.contains_key(k) {
                match e.state {
                    KeyState::Held => {
                        if spec_elapsed(now, s.timers[k]) > HOLD_THRESHOLD_MICROS {
                            (
                                ComposerModel {
                                    layers: spec_set_active(s.layers, lr, true),
                                    timers: s.timers.remove(k),
                                },
                                Seq::empty(),
                            )
                        } else {
                            (s, Seq::empty())
                        }
                    },
                    KeyState::Up => {
                        let out = if spec_elapsed(now, s.timers[k]) < HOLD_THRESHOLD_MICROS {
                            spec_tap_pair(k, now)
                        } else {
                            Seq::empty()
                        };
                        (
                            ComposerModel {
                                layers: spec_set_active(s.layers, lr, false),
                                timers: s.timers.remove(k),
                            },
                            out,
                        )
                    },
                    _ => (s, seq![cc]),
                }
            } else {
                match e.state {
                    KeyState::Down => {
                        (
                            ComposerModel { layers: s.layers, timers: s.timers.insert(k, now) },
                            Seq::empty(),
                        )
                    },
                    KeyState::Up => {
                        if spec_ref_active(s.layers, lr) {
                            (
                                ComposerModel {
                                    layers: spec_set_active(s.layers, lr, false),
                                    timers: s.timers.remove(k),
                                },
                                Seq::empty(),
                            )
                        } else {
                            (s, spec_tap_pair(k, now))
                        }
                    },
                    _ => (s, seq![cc]),
                }
            }
        },
        _ => (s, seq![cc]),
    }
}

/// Tap-toggle resolution over a whole list of control codes, front to back.
pub open spec fn spec_handle_codes(
    s: ComposerModel,
    e: InputEvent,
    now: u64,
    ccs: Seq<ControlCode>,
) -> (ComposerModel, Seq<ControlCode>)
    decreases ccs.len(),
{
    if ccs.len() == 0 {
        (s, Seq::empty())
    } else {
        let head = spec_handle_one(s, e, now, ccs[0]);
        let rest = spec_handle_codes(head.0, e, now, ccs.drop_first());
        (rest.0, head.1 + rest.1)
    }
}

/// The answer of the highest layer that answers: the stack is consulted from
/// its last layer down.
pub open spec fn spec_top_match(layers: Seq<LayerModel>, e: InputEvent) -> Option<
    Seq<ControlCode>,
>
    decreases layers.len(),
{
    if layers.len() == 0 {
        None
    } else {
        match spec_layer_transform(layers.last(), e) {
            Some(ccs) => Some(ccs),
            None => spec_top_match(layers.drop_last(), e),
        }
    }
}

/// The built-in fallback: the exit key becomes the shutdown order, every
/// other event passes through unchanged.
pub open spec fn spec_passthrough(e: InputEvent) -> Seq<ControlCode> {
    if e.code == EventCode::KeyCode(KeyCode::KC_PAUSE) {
        seq![ControlCode::Exit]
    } else {
        seq![ControlCode::InputEvent(e)]
    }
}

/// One whole step of the transformer: the new state and the emitted codes,
/// where an empty resolution result is reported as nothing.
pub open spec fn spec_transform(s: ComposerModel, e: InputEvent, now: u64) -> (
    ComposerModel,
    Option<Seq<ControlCode>>,
) {
    match spec_top_match(s.layers, e) {
        Some(ccs) => {
            let r = spec_handle_codes(s, e, now, ccs);
            (r.0, if r.1.len() == 0 {
                None
            } else {
                Some(r.1)
            })
        },
        None => (s, Some(spec_passthrough(e))),
    }
}

/// Flipping an active bit moves no layer and renames none, so references
/// resolve as before and the invariant survives.
proof fn lemma_set_active_preserves(layers: Seq<LayerModel>, lr: LayerRef, to: bool)
    requires
        spec_resolve_ref(layers, lr) is Some,
    ensures
        spec_set_active(layers, lr, to).len() == layers.len(),
        forall|i: int|
            0 <= i < layers.len() ==> (#[trigger] spec_set_active(layers, lr, to)[i]).name
                == layers[i].name,
        forall|i: int|
            0 <= i < layers.len() ==> (#[trigger] spec_set_active(layers, lr, to)[i]).map
                == layers[i].map,
        forall|lr2: LayerRef|
            #[trigger] spec_resolve_ref(spec_set_active(layers, lr, to), lr2) == spec_resolve_ref(
                layers,
                lr2,
            ),
        spec_refs_valid(layers) ==> spec_refs_valid(spec_set_active(layers, lr, to)),
        spec_names_unique(layers) ==> spec_names_unique(spec_set_active(layers, lr, to)),
{
    let updated = spec_set_active(layers, lr, to);
    match lr {
        LayerRef::ByIndex(_) => {},
        LayerRef::ByName(n) => {
            lemma_index_of_name_bounds(layers, n@);
        },
    }
    let idx = spec_resolve_ref(layers, lr)->0;
    assert(0 <= idx < layers.len());
    assert(updated == layers.update(idx, LayerModel { active: to, ..layers[idx] }));
    assert forall|i: int|
        0 <= i < layers.len() implies (#[trigger] updated[i]).name == layers[i].name && updated[i].map
        == layers[i].map by {
        if i != idx {
            assert(updated[i] == layers[i]);
        }
    }
    assert forall|lr2: LayerRef|
        #[trigger] spec_resolve_ref(updated, lr2) == spec_resolve_ref(layers, lr2) by {
        match lr2 {
            LayerRef::ByIndex(_) => {},
            LayerRef::ByName(n) => {
                lemma_index_of_name_same_names(updated, layers, n@);
            },
        }
    }
    if spec_refs_valid(layers) {
        assert forall|i: int, k: KeyCode, j: int|
            0 <= i < updated.len() && (#[trigger] updated[i]).map.contains_key(k) && 0 <= j
                < updated[i].map[k].len() implies spec_cc_ref_valid(
            updated,
            #[trigger] updated[i].map[k][j],
        ) by {
            assert(updated[i].map == layers[i].map);
            assert(spec_cc_ref_valid(layers, layers[i].map[k][j]));
        }
    }
}

/// Tap-toggle resolution of one code keeps the invariant, never touches a
/// layer's map or name, and never renumbers references.
proof fn lemma_handle_one_preserves(s: ComposerModel, e: InputEvent, now: u64, cc: ControlCode)
    requires
        spec_composer_wf(s),
        spec_cc_ref_valid(s.layers, cc),
    ensures
        spec_composer_wf(spec_handle_one(s, e, now, cc).0),
        spec_handle_one(s, e, now, cc).0.layers.len() == s.layers.len(),
        forall|i: int|
            0 <= i < s.layers.len() ==> (#[trigger] spec_handle_one(s, e, now, cc).0.layers[i]).name
                == s.layers[i].name,
        forall|i: int|
            0 <= i < s.layers.len() ==> (#[trigger] spec_handle_one(s, e, now, cc).0.layers[i]).map
                == s.layers[i].map,
        forall|lr2: LayerRef|
            #[trigger] spec_resolve_ref(spec_handle_one(s, e, now, cc).0.layers, lr2)
                == spec_resolve_ref(s.layers, lr2),
{
    let s1 = spec_handle_one(s, e, now, cc).0;
    match cc {
        ControlCode::TapToggle(lr, k) => {
            if s1.layers =~= s.layers {
                assert forall|lr2: LayerRef|
                    #[trigger] spec_resolve_ref(s1.layers, lr2) == spec_resolve_ref(
                        s.layers,
                        lr2,
                    ) by {}
            } else {
                lemma_set_active_preserves(s.layers, lr, true);
                lemma_set_active_preserves(s.layers, lr, false);
            }
        },
        _ => {},
    }
}

/// Tap-toggle resolution of a whole list keeps the invariant and the layer
/// maps, names and reference meanings.
proof fn lemma_handle_codes_preserves(
    s: ComposerModel,
    e: InputEvent,
    now: u64,
    ccs: Seq<ControlCode>,
)
    requires
        spec_composer_wf(s),
        forall|j: int| 0 <= j < ccs.len() ==> spec_cc_ref_valid(s.layers, #[trigger] ccs[j]),
    ensures
        spec_composer_wf(spec_handle_codes(s, e, now, ccs).0),
        spec_handle_codes(s, e, now, ccs).0.layers.len() == s.layers.len(),
        forall|i: int|
            0 <= i < s.layers.len() ==> (#[trigger] spec_handle_codes(
                s,
                e,
                now,
                ccs,
            ).0.layers[i]).name == s.layers[i].name,
        forall|i: int|
            0 <= i < s.layers.len() ==> (#[trigger] spec_handle_codes(
                s,
                e,
                now,
                ccs,
            ).0.layers[i]).map == s.layers[i].map,
        forall|lr2: LayerRef|
            #[trigger] spec_resolve_ref(spec_handle_codes(s, e, now, ccs).0.layers, lr2)
                == spec_resolve_ref(s.layers, lr2),
        forall|j: int|
            0 <= j < ccs.len() ==> spec_cc_ref_valid(
                spec_handle_codes(s, e, now, ccs).0.layers,
                #[trigger] ccs[j],
            ),
    decreases ccs.len(),
{
    if ccs.len() > 0 {
        lemma_handle_one_preserves(s, e, now, ccs[0]);
        let s1 = spec_handle_one(s, e, now, ccs[0]).0;
        assert forall|j: int|
            0 <= j < ccs.drop_first().len() implies spec_cc_ref_valid(
            s1.layers,
            #[trigger] ccs.drop_first()[j],
        ) by {
            assert(ccs.drop_first()[j] == ccs[j + 1]);
            assert(spec_cc_ref_valid(s.layers, ccs[j + 1]));
        }
        lemma_handle_codes_preserves(s1, e, now, ccs.drop_first());
    }
}

/// Processing a list one code longer: resolve the prefix, then the new last
/// code against the state the prefix left behind.
proof fn lemma_handle_codes_snoc(
    s: ComposerModel,
    e: InputEvent,
    now: u64,
    ccs: Seq<ControlCode>,
    cc: ControlCode,
)
    ensures
        spec_handle_codes(s, e, now, ccs.push(cc)) == {
            let pre = spec_handle_codes(s, e, now, ccs);
            let last = spec_handle_one(pre.0, e, now, cc);
            (last.0, pre.1 + last.1)
        },
    decreases ccs.len(),
{
    let whole = ccs.push(cc);
    if ccs.len() == 0 {
        assert(whole.drop_first() =~= Seq::<ControlCode>::empty());
        assert(whole[0] == cc);
        let head = spec_handle_one(s, e, now, cc);
        assert(spec_handle_codes(head.0, e, now, whole.drop_first()) == (
            head.0,
            Seq::<ControlCode>::empty(),
        ));
        assert(head.1 + Seq::<ControlCode>::empty() =~= head.1);
        assert(Seq::<ControlCode>::empty() + head.1 =~= head.1);
    } else {
        assert(whole[0] == ccs[0]);
        assert(whole.drop_first() =~= ccs.drop_first().push(cc));
        let head = spec_handle_one(s, e, now, ccs[0]);
        lemma_handle_codes_snoc(head.0, e, now, ccs.drop_first(), cc);
        let pre = spec_handle_codes(s, e, now, ccs);
        let last = spec_handle_one(pre.0, e, now, cc);
        assert(head.1 + (spec_handle_codes(head.0, e, now, ccs.drop_first()).1 + last.1) =~= (
        head.1 + spec_handle_codes(head.0, e, now, ccs.drop_first()).1) + last.1);
    }
}

/// What the winning layer answers only rewrites codes stored in some map, so
/// under the invariant every reference in the answer resolves.
proof fn lemma_top_match_refs_valid(layers: Seq<LayerModel>, e: InputEvent, full: Seq<LayerModel>)
    requires
        spec_refs_valid(full),
        layers.len() <= full.len(),
        forall|i: int| 0 <= i < layers.len() ==> #[trigger] layers[i] == full[i],
        spec_top_match(layers, e) is Some,
    ensures
        forall|j: int|
            0 <= j < spec_top_match(layers, e)->0.len() ==> spec_cc_ref_valid(
                full,
                #[trigger] spec_top_match(layers, e)->0[j],
            ),
    decreases layers.len(),
{
    let last = layers.last();
    match spec_layer_transform(last, e) {
        Some(ccs) => {
            let kc = e.code->KeyCode_0;
            assert(last == full[layers.len() - 1]);
            assert forall|j: int| 0 <= j < ccs.len() implies spec_cc_ref_valid(
                full,
                #[trigger] ccs[j],
            ) by {
                assert(ccs[j] == crate::layers::spec_rewrite(last.map[kc][j], e));
                assert(spec_cc_ref_valid(full, last.map[kc][j]));
            }
        },
        None => {
            assert forall|i: int|
                0 <= i < layers.drop_last().len() implies #[trigger] layers.drop_last()[i]
                == full[i] by {}
            lemma_top_match_refs_valid(layers.drop_last(), e, full);
        },
    }
}


/// References are checked against the entry lists a table is built from;
/// every code a finished map holds comes from some entry, so entry-level
/// validity carries over to the maps.
pub open spec fn spec_layer_entries_refs_valid(layers: Seq<LayerModel>, l: Layer) -> bool {
    forall|j: int, c: int|
        0 <= j < l.entries@.len() && 0 <= c < (#[trigger] l.entries@[j]).1@.len()
            ==> spec_cc_ref_valid(layers, #[trigger] l.entries@[j].1@[c])
}

/// What a vector of layers must satisfy to become a composer: unambiguous
/// names, and every stored reference pointing at a layer of the vector.
pub open spec fn spec_layers_valid(items: Seq<Layer>) -> bool {
    &&& spec_names_unique(spec_models(items))
    &&& forall|i: int|
        0 <= i < items.len() ==> spec_layer_entries_refs_valid(
            spec_models(items),
            #[trigger] items[i],
        )
}

proof fn lemma_layers_valid_refs_valid(items: Seq<Layer>)
    requires
        spec_layers_valid(items),
    ensures
        spec_refs_valid(spec_models(items)),
{
    let models = spec_models(items);
    assert forall|i: int, k: KeyCode, j: int|
        0 <= i < models.len() && (#[trigger] models[i]).map.contains_key(k) && 0 <= j
            < models[i].map[k].len() implies spec_cc_ref_valid(
        models,
        #[trigger] models[i].map[k][j],
    ) by {
        assert(models[i] == items[i]@);
        lemma_entries_map_values(items[i].entries@, k);
        let je = choose|je: int|
            0 <= je < items[i].entries@.len() && (#[trigger] items[i].entries@[je]).0 == k
                && crate::layers::spec_entries_map(items[i].entries@)[k]
                == items[i].entries@[je].1@;
        assert(spec_layer_entries_refs_valid(models, items[i]));
        assert(spec_cc_ref_valid(models, items[i].entries@[je].1@[j]));
    }
}

/// The built-in fallback transformer: it forwards everything and turns the
/// exit key into the shutdown order.
pub struct Passthrough {}

impl Passthrough {
    /// Answers for one event; a passthrough always answers.
    pub fn transform(&mut self, e: InputEvent) -> (r: Option<Vec<ControlCode>>)
        ensures
            match r {
                Some(v) => v@ == spec_passthrough(e),
                None => false,
            },
    {
        let mut v: Vec<ControlCode> = Vec::new();
        if e.code == EventCode::KeyCode(KeyCode::KC_PAUSE) {
            v.push(ControlCode::Exit);
        } else {
            v.push(ControlCode::InputEvent(e));
        }
        proof {
            assert(v@ =~= spec_passthrough(e));
        }
        Some(v)
    }
}

/// The stateful transformer over a layer table, a timer table and a clock.
#[derive(Debug)]
pub struct LayerComposer {
    pub layers: Layers,
    pub timers: Timers,
    pub clock: Clock,
}

impl View for LayerComposer {
    type V = ComposerModel;

    open spec fn view(&self) -> ComposerModel {
        ComposerModel { layers: self.layers@, timers: self.timers@ }
    }
}

impl LayerComposer {
    /// The composer's invariant: the model invariant, a sound timer table,
    /// and a clock with room to tick.
    pub open spec fn wf(&self) -> bool {
        &&& spec_composer_wf(self@)
        &&& self.timers.wf()
        &&& self.clock.wf()
    }

    /// Builds a composer over the given layers, on the wall clock, with no
    /// timers running.  Construction succeeds exactly when the layer names
    /// are unambiguous and every stored reference points at a layer.
    pub fn from_layers(items: Vec<Layer>) -> (r: Result<LayerComposer, Error>)
        ensures
            match r {
                Ok(c) => {
                    &&& spec_layers_valid(items@)
                    &&& c@.layers == spec_models(items@)
                    &&& c@.timers == Map::<KeyCode, u64>::empty()
                    &&& c.clock.pinned is None
                    &&& c.wf()
                },
                Err(err) => err == Error::LayerValidation && !spec_layers_valid(items@),
            },
    {
        let layers = Layers { items };
        let ghost models = layers@;
        let n = layers.len();

        let mut i: usize = 0;
        while i < n
            invariant
                i <= n,
                n == layers.items@.len(),
                models == layers@,
                layers.items@ == items@,
                forall|i2: int, j2: int|
                    0 <= i2 < i && i2 < j2 < n ==> (#[trigger] models[i2]).name != (
                    #[trigger] models[j2]).name,
            decreases n - i,
        {
            let mut j: usize = i + 1;
            while j < n
                invariant
                    i < j <= n,
                    n == layers.items@.len(),
                    models == layers@,
                    layers.items@ == items@,
                    forall|j2: int| i < j2 < j ==> (#[trigger] models[j2]).name != models[i as int].name,
                decreases n - j,
            {
                if crate::strings::str_eq(
                    layers.items[i].name.as_str(),
                    layers.items[j].name.as_str(),
                ) {
                    assert(models[i as int].name == models[j as int].name);
                    assert(!spec_names_unique(models));
                    return Err(Error::LayerValidation);
                }
                j = j + 1;
            }
            i = i + 1;
        }
        assert(spec_names_unique(models));

        let mut i: usize = 0;
        while i < n
            invariant
                i <= n,
                n == layers.items@.len(),
                models == layers@,
                layers.items@ == items@,
                spec_names_unique(models),
                forall|i2: int|
                    0 <= i2 < i ==> spec_layer_entries_refs_valid(
                        models,
                        #[trigger] layers.items@[i2],
                    ),
            decreases n - i,
        {
            let layer = &layers.items[i];
            let m = layer.entries.len();
            let mut j: usize = 0;
            while j < m
                invariant
                    j <= m,
                    m == layer.entries@.len(),
                    models == layers@,
                    layers.items@ == items@,
                    n == layers.items@.len(),
                    n == models.len(),
                    layer == layers.items@[i as int],
                    i < layers.items@.len(),
                    forall|j2: int, c2: int|
                        0 <= j2 < j && 0 <= c2 < (#[trigger] layer.entries@[j2]).1@.len()
                            ==> spec_cc_ref_valid(models, #[trigger] layer.entries@[j2].1@[c2]),
                decreases m - j,
            {
                let codes = &layer.entries[j].1;
                let w = codes.len();
                let mut c: usize = 0;
                while c < w
                    invariant
                        c <= w,
                        w == codes@.len(),
                        models == layers@,
                        layers.items@ == items@,
                        n == layers.items@.len(),
                        n == models.len(),
                        codes == &layers.items@[i as int].entries@[j as int].1,
                        i < layers.items@.len(),
                        j < layers.items@[i as int].entries@.len(),
                        forall|c2: int|
                            0 <= c2 < c ==> spec_cc_ref_valid(models, #[trigger] codes@[c2]),
                    decreases w - c,
                {
                    let cc_ref = &codes[c];
                    match cc_ref {
                        ControlCode::TapToggle(lr, _) => {
                            proof {
                                assert(codes@[c as int] is TapToggle);
                                assert(codes@[c as int]->TapToggle_0 == *lr);
                            }
                            match lr {
                                LayerRef::ByIndex(x) => {
                                    if *x < n {
                                        assert(spec_cc_ref_valid(models, codes@[c as int]));
                                    } else {
                                        assert(!spec_cc_ref_valid(models, codes@[c as int]));
                                        assert(!spec_layers_valid(layers.items@)) by {
                                            assert(layers.items@[i as int].entries@[j as int].1@[c as int]
                                                == codes@[c as int]);
                                        }
                                        return Err(Error::LayerValidation);
                                    }
                                },
                                LayerRef::ByName(nm) => {
                                    match layers.index_of_name(nm.as_str()) {
                                        Some(_) => {
                                            assert(spec_cc_ref_valid(models, codes@[c as int]));
                                        },
                                        None => {
                                            assert(!spec_cc_ref_valid(models, codes@[c as int]));
                                            assert(!spec_layers_valid(layers.items@)) by {
                                                assert(layers.items@[i as int].entries@[j as int].1@[c
                                                    as int] == codes@[c as int]);
                                            }
                                            return Err(Error::LayerValidation);
                                        },
                                    }
                                },
                            }
                        },
                        _ => {
                            assert(spec_cc_ref_valid(models, codes@[c as int]));
                        },
                    }
                    c = c + 1;
                }
                j = j + 1;
            }
            i = i + 1;
        }
        assert(spec_layers_valid(layers.items@));
        proof {
            lemma_layers_valid_refs_valid(layers.items@);
        }
        Ok(LayerComposer { layers, timers: Timers::new(), clock: Clock::wall() })
    }

    /// The current instant of the composer's clock.
    pub fn now_micros(&self) -> (r: u64)
        requires
            self.clock.wf(),
        ensures
            r < u64::MAX,
            match self.clock.pinned {
                Some(t) => r == t,
                None => true,
            },
    {
        self.clock.now()
    }

    /// Moves a pinned clock forward, as a test drives time by hand.
    pub fn advance_clock(&mut self, by: u64)
        requires
            old(self).clock.wf(),
            match old(self).clock.pinned {
                Some(t) => t + by < u64::MAX,
                None => true,
            },
        ensures
            final(self).clock.wf(),
            final(self)@ == old(self)@,
            final(self).layers == old(self).layers,
            final(self).timers == old(self).timers,
            final(self).clock.pinned == match old(self).clock.pinned {
                Some(t) => Some((t + by) as u64),
                None => None::<u64>,
            },
    {
        self.clock.advance(by);
    }

    /// The position a reference points at, resolved against this table.
    fn ref_index(&self, lr: &LayerRef) -> (r: Option<usize>)
        ensures
            match r {
                Some(i) => spec_resolve_ref(self@.layers, *lr) == Some(i as int) && i
                    < self@.layers.len(),
                None => spec_resolve_ref(self@.layers, *lr) is None,
            },
    {
        match lr {
            LayerRef::ByIndex(i) => {
                if *i < self.layers.len() {
                    Some(*i)
                } else {
                    None
                }
            },
            LayerRef::ByName(n) => {
                proof {
                    lemma_index_of_name_bounds(self@.layers, n@);
                }
                self.layers.index_of_name(n.as_str())
            },
        }
    }

    /// Whether the referenced layer is active.
    fn is_layer_active(&self, lr: &LayerRef) -> (r: bool)
        requires
            spec_resolve_ref(self@.layers, *lr) is Some,
        ensures
            r == spec_ref_active(self@.layers, *lr),
    {
        match self.ref_index(lr) {
            Some(i) => self.layers.is_active(i),
            None => false,
        }
    }

    /// Sets the referenced layer's active bit.
    fn set_layer_active(&mut self, lr: &LayerRef, to: bool)
        requires
            spec_resolve_ref(old(self)@.layers, *lr) is Some,
        ensures
            final(self)@.layers == spec_set_active(old(self)@.layers, *lr, to),
            final(self).timers == old(self).timers,
            final(self).clock == old(self).clock,
    {
        match self.ref_index(lr) {
            Some(i) => {
                self.layers.set_active(i, to);
            },
            None => {},
        }
    }

    /// The synthesized tap for a key at an instant: down, then up one
    /// microsecond later.
    pub fn key_up_and_down_at(&self, k: KeyCode, now: u64) -> (r: Vec<ControlCode>)
        requires
            now < u64::MAX,
        ensures
            r@ == spec_tap_pair(k, now),
    {
        let mut v: Vec<ControlCode> = Vec::new();
        v.push(
            ControlCode::InputEvent(
                InputEvent { time: now, code: EventCode::KeyCode(k), state: KeyState::Down },
            ),
        );
        v.push(
            ControlCode::InputEvent(
                InputEvent { time: now + 1, code: EventCode::KeyCode(k), state: KeyState::Up },
            ),
        );
        proof {
            assert(v@ =~= spec_tap_pair(k, now));
        }
        v
    }

    /// Tap-toggle resolution of a whole answer: walks the codes in order,
    /// threading the layer and timer state, and reports the collected output,
    /// or nothing when the output is empty.
    fn handle_control_codes(&mut self, e: &InputEvent, ccs: Vec<ControlCode>, now: u64) -> (r:
        Option<Vec<ControlCode>>)
        requires
            old(self).wf(),
            now < u64::MAX,
            forall|j: int|
                0 <= j < ccs@.len() ==> spec_cc_ref_valid(old(self)@.layers, #[trigger] ccs@[j]),
        ensures
            final(self).wf(),
            final(self).clock == old(self).clock,
            final(self)@ == spec_handle_codes(old(self)@, *e, now, ccs@).0,
            match r {
                Some(v) => v@ == spec_handle_codes(old(self)@, *e, now, ccs@).1 && v@.len() > 0,
                None => spec_handle_codes(old(self)@, *e, now, ccs@).1.len() == 0,
            },
    {
        let ghost s0 = self@;
        let mut out: Vec<ControlCode> = Vec::new();
        let mut idx: usize = 0;
        while idx < ccs.len()
            invariant
                idx <= ccs@.len(),
                now < u64::MAX,
                self.wf(),
                spec_composer_wf(s0),
                self.clock == old(self).clock,
                self@ == spec_handle_codes(s0, *e, now, ccs@.take(idx as int)).0,
                out@ == spec_handle_codes(s0, *e, now, ccs@.take(idx as int)).1,
                forall|j: int|
                    0 <= j < ccs@.len() ==> spec_cc_ref_valid(s0.layers, #[trigger] ccs@[j]),
                forall|lr2: LayerRef|
                    #[trigger] spec_resolve_ref(self@.layers, lr2) == spec_resolve_ref(
                        s0.layers,
                        lr2,
                    ),
            decreases ccs@.len() - idx,
        {
            let ghost s_before = self@;
            let ghost out_before = out@;
            let cc_ref = &ccs[idx];
            proof {
                lemma_handle_one_preserves(s_before, *e, now, ccs@[idx as int]);
            }
            match cc_ref {
                ControlCode::TapToggle(lr, k) => {
                    proof {
                        assert(ccs@[idx as int] is TapToggle);
                        assert(ccs@[idx as int]->TapToggle_0 == *lr);
                        assert(ccs@[idx as int]->TapToggle_1 == *k);
                    }
                    match (e.state, self.timers.get(*k)) {
                        (KeyState::Down, None) => {
                            self.timers.insert(*k, now);
                        },
                        (KeyState::Held, Some(t)) => {
                            let elapsed = if now >= t {
                                now - t
                            } else {
                                0
                            };
                            if elapsed > crate::HOLD_THRESHOLD_MICROS {
                                self.set_layer_active(lr, true);
                                self.timers.remove(*k);
                            }
                        },
                        (KeyState::Up, None) => {
                            if self.is_layer_active(lr) {
                                self.set_layer_active(lr, false);
                                self.timers.remove(*k);
                            } else {
                                out.push(
                                    ControlCode::InputEvent(
                                        InputEvent {
                                            time: now,
                                            code: EventCode::KeyCode(*k),
                                            state: KeyState::Down,
                                        },
                                    ),
                                );
                                out.push(
                                    ControlCode::InputEvent(
                                        InputEvent {
                                            time: now + 1,
                                            code: EventCode::KeyCode(*k),
                                            state: KeyState::Up,
                                        },
                                    ),
                                );
                            }
                        },
                        (KeyState::Up, Some(t)) => {
                            let elapsed = if now >= t {
                                now - t
                            } else {
                                0
                            };
                            if elapsed < crate::HOLD_THRESHOLD_MICROS {
                                out.push(
                                    ControlCode::InputEvent(
                                        InputEvent {
                                            time: now,
                                            code: EventCode::KeyCode(*k),
                                            state: KeyState::Down,
                                        },
                                    ),
                                );
                                out.push(
                                    ControlCode::InputEvent(
                                        InputEvent {
                                            time: now + 1,
                                            code: EventCode::KeyCode(*k),
                                            state: KeyState::Up,
                                        },
                                    ),
                                );
                            }
                            self.set_layer_active(lr, false);
                            self.timers.remove(*k);
                        },
                        (_, _) => {
                            out.push(cc_ref.clone());
                        },
                    }
                },
                _ => {
                    out.push(cc_ref.clone());
                },
            }
            proof {
                let step = spec_handle_one(s_before, *e, now, ccs@[idx as int]);
                assert(self@ == step.0);
                assert(out@ =~= out_before + step.1);
                lemma_handle_codes_snoc(s0, *e, now, ccs@.take(idx as int), ccs@[idx as int]);
                assert(ccs@.take(idx as int).push(ccs@[idx as int]) =~= ccs@.take(idx as int + 1));
            }
            idx = idx + 1;
        }
        proof {
            assert(ccs@.take(ccs@.len() as int) =~= ccs@);
        }
        if out.len() == 0 {
            None
        } else {
            Some(out)
        }
    }

    /// One step of the transformer at an explicit instant: the layers are
    /// consulted from the top of the stack down, the first answer goes
    /// through tap-toggle resolution, and when no layer answers the built-in
    /// passthrough runs.
    pub fn transform_at(&mut self, e: InputEvent, now: u64) -> (r: Option<Vec<ControlCode>>)
        requires
            old(self).wf(),
            now < u64::MAX,
        ensures
            final(self).wf(),
            final(self).clock == old(self).clock,
            final(self)@ == spec_transform(old(self)@, e, now).0,
            match r {
                Some(v) => spec_transform(old(self)@, e, now).1 == Some(v@),
                None => spec_transform(old(self)@, e, now).1 is None,
            },
    {
        let n = self.layers.len();
        proof {
            assert(self@.layers.take(n as int) =~= self@.layers);
        }
        let mut idx: usize = n;
        while idx > 0
            invariant
                idx <= n,
                n == self@.layers.len(),
                *self == *old(self),
                old(self).wf(),
                now < u64::MAX,
                spec_top_match(self@.layers, e) == spec_top_match(
                    self@.layers.take(idx as int),
                    e,
                ),
            decreases idx,
        {
            idx = idx - 1;
            let layer = self.layers.get(idx);
            let answer = layer.transform(e);
            proof {
                assert(self@.layers.take(idx as int + 1).last() == self@.layers[idx as int]);
                assert(self@.layers.take(idx as int + 1).drop_last() =~= self@.layers.take(
                    idx as int,
                ));
            }
            match answer {
                Some(ccs) => {
                    proof {
                        let lm = self@.layers[idx as int];
                        assert(spec_layer_transform(lm, e) == Some(ccs@));
                        assert(spec_top_match(self@.layers, e) == Some(ccs@));
                        let kc = e.code->KeyCode_0;
                        assert forall|j: int| 0 <= j < ccs@.len() implies spec_cc_ref_valid(
                            self@.layers,
                            #[trigger] ccs@[j],
                        ) by {
                            assert(ccs@[j] == crate::layers::spec_rewrite(lm.map[kc][j], e));
                            assert(spec_cc_ref_valid(self@.layers, lm.map[kc][j]));
                        }
                    }
                    let r = self.handle_control_codes(&e, ccs, now);
                    return r;
                },
                None => {},
            }
        }
        proof {
            assert(self@.layers.take(0) =~= Seq::<LayerModel>::empty());
            assert(spec_top_match(self@.layers, e) is None);
        }
        let mut v: Vec<ControlCode> = Vec::new();
        if e.code == EventCode::KeyCode(KeyCode::KC_PAUSE) {
            v.push(ControlCode::Exit);
        } else {
            v.push(ControlCode::InputEvent(e));
        }
        proof {
            assert(v@ =~= spec_passthrough(e));
        }
        Some(v)
    }

    /// One step of the transformer, at the instant the composer's clock
    /// reports.  On a pinned clock the step is determined; on the wall clock
    /// it is the step at whatever instant was read.
    pub fn transform(&mut self, e: InputEvent) -> (r: Option<Vec<ControlCode>>)
        requires
            old(self).wf(),
        ensures
            final(self).wf(),
            final(self).clock == old(self).clock,
            match old(self).clock.pinned {
                Some(t) => final(self)@ == spec_transform(old(self)@, e, t).0 && (match r {
                    Some(v) => spec_transform(old(self)@, e, t).1 == Some(v@),
                    None => spec_transform(old(self)@, e, t).1 is None,
                }),
                None => exists|now: u64|
                    {
                        &&& now < u64::MAX
                        &&& #[trigger] spec_transform(old(self)@, e, now).0 == final(self)@
                        &&& match r {
                            Some(v) => spec_transform(old(self)@, e, now).1 == Some(v@),
                            None => spec_transform(old(self)@, e, now).1 is None,
                        }
                    },
            },
    {
        let now = self.clock.now();
        self.transform_at(e, now)
    }

    /// The synthesized tap for a key, read off the composer's clock.  The
    /// up event always comes strictly after the down event.
    pub fn key_up_and_down(&self, k: KeyCode) -> (r: Vec<ControlCode>)
        requires
            self.clock.wf(),
        ensures
            match self.clock.pinned {
                Some(t) => r@ == spec_tap_pair(k, t),
                None => exists|now: u64| now < u64::MAX && r@ == #[trigger] spec_tap_pair(k, now),
            },
    {
        let now = self.clock.now();
        self.key_up_and_down_at(k, now)
    }
}


/// No active layer of the stack maps the key, so no layer answers for it.
proof fn lemma_no_active_match(layers: Seq<LayerModel>, e: InputEvent, k: KeyCode)
    requires
        e.code == EventCode::KeyCode(k),
        forall|i: int|
            0 <= i < layers.len() && (#[trigger] layers[i]).active ==> !layers[i].map.contains_key(
                k,
            ),
    ensures
        spec_top_match(layers, e) is None,
    decreases layers.len(),
{
    if layers.len() > 0 {
        assert(layers[layers.len() - 1] == layers.last());
        assert(spec_layer_transform(layers.last(), e) is None);
        assert forall|i: int|
            0 <= i < layers.drop_last().len() && (#[trigger] layers.drop_last()[i]).active
                implies !layers.drop_last()[i].map.contains_key(k) by {
            assert(layers.drop_last()[i] == layers[i]);
        }
        lemma_no_active_match(layers.drop_last(), e, k);
    }
}

/// A key that no active layer maps, and that is not the exit key, passes
/// through untouched: the transformer emits exactly the event it was given
/// and neither layers nor timers change.
pub proof fn lemma_unmapped_key_passes_through(
    s: ComposerModel,
    e: InputEvent,
    now: u64,
    k: KeyCode,
)
    requires
        e.code == EventCode::KeyCode(k),
        k != KeyCode::KC_PAUSE,
        forall|i: int|
            0 <= i < s.layers.len() && (#[trigger] s.layers[i]).active
                ==> !s.layers[i].map.contains_key(k),
    ensures
        spec_transform(s, e, now).0 == s,
        spec_transform(s, e, now).1 == Some(seq![ControlCode::InputEvent(e)]),
{
    lemma_no_active_match(s.layers, e, k);
}

/// In every synthesized tap the release comes strictly after the press: the
/// pair is a press at the given instant and a release one microsecond later.
pub proof fn lemma_tap_up_after_down(k: KeyCode, now: u64)
    requires
        now < u64::MAX,
    ensures
        spec_tap_pair(k, now).len() == 2,
        spec_tap_pair(k, now)[0]->InputEvent_0.state == KeyState::Down,
        spec_tap_pair(k, now)[1]->InputEvent_0.state == KeyState::Up,
        spec_tap_pair(k, now)[1]->InputEvent_0.time > spec_tap_pair(k, now)[0]->InputEvent_0.time,
{
}

/// Resolving a release never starts a timer, and when the release resolves
/// through a tap-toggle binding for a key, that key's timer is gone
/// afterwards: a completed press/release cycle leaves no timer behind.
pub proof fn lemma_release_clears_timer(
    s: ComposerModel,
    e: InputEvent,
    now: u64,
    ccs: Seq<ControlCode>,
    k: KeyCode,
)
    requires
        e.state == KeyState::Up,
    ensures
        spec_handle_codes(s, e, now, ccs).0.timers.dom() <= s.timers.dom(),
        (exists|j: int|
            0 <= j < ccs.len() && (#[trigger] ccs[j]) is TapToggle && ccs[j]->TapToggle_1 == k)
            ==> !spec_handle_codes(s, e, now, ccs).0.timers.contains_key(k),
    decreases ccs.len(),
{
    if ccs.len() > 0 {
        let s1 = spec_handle_one(s, e, now, ccs[0]).0;
        assert(s1.timers.dom() <= s.timers.dom());
        lemma_release_clears_timer(s1, e, now, ccs.drop_first(), k);
        let sfin = spec_handle_codes(s, e, now, ccs).0;
        assert(sfin == spec_handle_codes(s1, e, now, ccs.drop_first()).0);
        if exists|j: int|
            0 <= j < ccs.len() && (#[trigger] ccs[j]) is TapToggle && ccs[j]->TapToggle_1 == k {
            let j = choose|j: int|
                0 <= j < ccs.len() && (#[trigger] ccs[j]) is TapToggle && ccs[j]->TapToggle_1 == k;
            if j == 0 {
                assert(!s1.timers.contains_key(k));
                assert(!sfin.timers.contains_key(k));
            } else {
                assert(ccs.drop_first()[j - 1] == ccs[j]);
                assert(!sfin.timers.contains_key(k));
            }
        }
    }
}

/// The state a composer reaches after a stream of events, each taken at its
/// instant.
pub open spec fn spec_run_state(s: ComposerModel, evs: Seq<(InputEvent, u64)>) -> ComposerModel
    decreases evs.len(),
{
    if evs.len() == 0 {
        s
    } else {
        spec_run_state(spec_transform(s, evs[0].0, evs[0].1).0, evs.drop_first())
    }
}

/// The answers a composer gives over a stream of events, in order.
pub open spec fn spec_run_outputs(s: ComposerModel, evs: Seq<(InputEvent, u64)>) -> Seq<
    Option<Seq<ControlCode>>,
>
    decreases evs.len(),
{
    if evs.len() == 0 {
        Seq::empty()
    } else {
        seq![spec_transform(s, evs[0].0, evs[0].1).1] + spec_run_outputs(
            spec_transform(s, evs[0].0, evs[0].1).0,
            evs.drop_first(),
        )
    }
}

/// A key bound as the tap key of some tap-toggle stored in some layer's
/// map.
pub open spec fn spec_is_tt_key(layers: Seq<LayerModel>, k: KeyCode) -> bool {
    exists|i: int, k0: KeyCode, j: int|
        #![trigger layers[i].map[k0][j]]
        {
            &&& 0 <= i < layers.len()
            &&& layers[i].map.contains_key(k0)
            &&& 0 <= j < layers[i].map[k0].len()
            &&& layers[i].map[k0][j] is TapToggle
            &&& layers[i].map[k0][j]->TapToggle_1 == k
        }
}

/// Every stored tap-toggle taps the key it is bound to: the map entry for a
/// key only ever tap-toggles that same key.
pub open spec fn spec_tt_self_keyed(layers: Seq<LayerModel>) -> bool {
    forall|i: int, k0: KeyCode, j: int|
        #![trigger layers[i].map[k0][j]]
        (0 <= i < layers.len() && layers[i].map.contains_key(k0) && 0 <= j < layers[i].map[k0].len()
            && layers[i].map[k0][j] is TapToggle) ==> layers[i].map[k0][j]->TapToggle_1 == k0
}

/// The keys physically down or repeating after more events, starting from a
/// set already down.
pub open spec fn spec_pressed_step(p: Set<KeyCode>, e: InputEvent) -> Set<KeyCode> {
    match e.code {
        EventCode::KeyCode(k) => match e.state {
            KeyState::Down => p.insert(k),
            KeyState::Held => p.insert(k),
            KeyState::Up => p.remove(k),
            KeyState::NotImplemented => p,
        },
        EventCode::SynCode(_) => p,
    }
}

/// The keys physically down or repeating after a stream of events.
pub open spec fn spec_pressed_from(p: Set<KeyCode>, evs: Seq<(InputEvent, u64)>) -> Set<KeyCode>
    decreases evs.len(),
{
    if evs.len() == 0 {
        p
    } else {
        spec_pressed_from(spec_pressed_step(p, evs[0].0), evs.drop_first())
    }
}

/// A stream over which every release of a key with a running timer resolves
/// through a tap-toggle binding for that key, so the timer can be retired.
pub open spec fn spec_releases_resolve(s0: ComposerModel, evs: Seq<(InputEvent, u64)>) -> bool {
    forall|n: int|
        0 <= n < evs.len() ==> {
            let si = spec_run_state(s0, evs.take(n));
            let e = (#[trigger] evs[n]).0;
            match e.code {
                EventCode::KeyCode(k) => (e.state == KeyState::Up && si.timers.contains_key(k))
                    ==> (spec_top_match(si.layers, e) matches Some(ccs) && exists|j: int|
                    0 <= j < ccs.len() && (#[trigger] ccs[j]) is TapToggle && ccs[j]->TapToggle_1
                        == k),
                EventCode::SynCode(_) => true,
            }
        }
}

/// A synchronization event matches no layer.
proof fn lemma_syn_no_match(layers: Seq<LayerModel>, e: InputEvent)
    requires
        e.code is SynCode,
    ensures
        spec_top_match(layers, e) is None,
    decreases layers.len(),
{
    if layers.len() > 0 {
        lemma_syn_no_match(layers.drop_last(), e);
    }
}

/// The winning answer is some layer's entry for the event's key, rewritten.
proof fn lemma_top_match_source(layers: Seq<LayerModel>, e: InputEvent, full: Seq<LayerModel>)
    requires
        layers.len() <= full.len(),
        forall|i: int| 0 <= i < layers.len() ==> #[trigger] layers[i] == full[i],
        spec_top_match(layers, e) is Some,
    ensures
        exists|i: int|
            0 <= i < full.len() && spec_layer_transform(#[trigger] full[i], e) == spec_top_match(
                layers,
                e,
            ),
    decreases layers.len(),
{
    match spec_layer_transform(layers.last(), e) {
        Some(_) => {
            assert(layers.last() == full[layers.len() - 1]);
        },
        None => {
            assert forall|i: int|
                0 <= i < layers.drop_last().len() implies #[trigger] layers.drop_last()[i]
                == full[i] by {}
            lemma_top_match_source(layers.drop_last(), e, full);
        },
    }
}

/// Resolving a press inserts timers only for the tap key every tap-toggle of
/// the answer taps.
proof fn lemma_handle_codes_insert_bound(
    s: ComposerModel,
    e: InputEvent,
    now: u64,
    ccs: Seq<ControlCode>,
    k: KeyCode,
)
    requires
        e.state == KeyState::Down,
        forall|j: int|
            0 <= j < ccs.len() && (#[trigger] ccs[j]) is TapToggle ==> ccs[j]->TapToggle_1 == k,
    ensures
        forall|kk: KeyCode|
            #[trigger] spec_handle_codes(s, e, now, ccs).0.timers.contains_key(kk)
                ==> s.timers.contains_key(kk) || kk == k,
    decreases ccs.len(),
{
    if ccs.len() > 0 {
        let s1 = spec_handle_one(s, e, now, ccs[0]).0;
        assert forall|j: int|
            0 <= j < ccs.drop_first().len() && (#[trigger] ccs.drop_first()[j]) is TapToggle
                implies ccs.drop_first()[j]->TapToggle_1 == k by {
            assert(ccs.drop_first()[j] == ccs[j + 1]);
        }
        lemma_handle_codes_insert_bound(s1, e, now, ccs.drop_first(), k);
        assert forall|kk: KeyCode|
            #[trigger] spec_handle_codes(s, e, now, ccs).0.timers.contains_key(kk) implies
            s.timers.contains_key(kk) || kk == k by {
            assert(spec_handle_codes(s, e, now, ccs).0 == spec_handle_codes(
                s1,
                e,
                now,
                ccs.drop_first(),
            ).0);
            assert(spec_handle_codes(s1, e, now, ccs.drop_first()).0.timers.contains_key(kk));
            assert(s1.timers.contains_key(kk) ==> s.timers.contains_key(kk) || kk == k);
        }
    }
}

/// Resolving anything but a press never starts a timer.
proof fn lemma_handle_codes_no_insert(
    s: ComposerModel,
    e: InputEvent,
    now: u64,
    ccs: Seq<ControlCode>,
)
    requires
        e.state != KeyState::Down,
    ensures
        forall|kk: KeyCode|
            #[trigger] spec_handle_codes(s, e, now, ccs).0.timers.contains_key(kk)
                ==> s.timers.contains_key(kk),
    decreases ccs.len(),
{
    if ccs.len() > 0 {
        let s1 = spec_handle_one(s, e, now, ccs[0]).0;
        lemma_handle_codes_no_insert(s1, e, now, ccs.drop_first());
        assert forall|kk: KeyCode|
            #[trigger] spec_handle_codes(s, e, now, ccs).0.timers.contains_key(kk) implies
            s.timers.contains_key(kk) by {
            assert(spec_handle_codes(s, e, now, ccs).0 == spec_handle_codes(
                s1,
                e,
                now,
                ccs.drop_first(),
            ).0);
            assert(spec_handle_codes(s1, e, now, ccs.drop_first()).0.timers.contains_key(kk));
            assert(s1.timers.contains_key(kk) ==> s.timers.contains_key(kk));
        }
    }
}

/// A stream whose releases resolve keeps resolving after its first event.
proof fn lemma_releases_resolve_shift(s0: ComposerModel, evs: Seq<(InputEvent, u64)>)
    requires
        evs.len() > 0,
        spec_releases_resolve(s0, evs),
    ensures
        spec_releases_resolve(spec_transform(s0, evs[0].0, evs[0].1).0, evs.drop_first()),
{
    let s1 = spec_transform(s0, evs[0].0, evs[0].1).0;
    let rest = evs.drop_first();
    assert forall|n: int| 0 <= n < rest.len() implies {
        let si = spec_run_state(s1, rest.take(n));
        let e = (#[trigger] rest[n]).0;
        match e.code {
            EventCode::KeyCode(k) => (e.state == KeyState::Up && si.timers.contains_key(k)) ==> (
            spec_top_match(si.layers, e) matches Some(ccs) && exists|j: int|
                0 <= j < ccs.len() && (#[trigger] ccs[j]) is TapToggle && ccs[j]->TapToggle_1 == k),
            EventCode::SynCode(_) => true,
        }
    } by {
        assert(evs[n + 1] == rest[n]);
        assert(evs.take(n + 1)[0] == evs[0]);
        assert(evs.take(n + 1).drop_first() =~= rest.take(n));
        assert(spec_run_state(s0, evs.take(n + 1)) == spec_run_state(s1, rest.take(n)));
        assert(0 <= n + 1 < evs.len());
    }
}

/// One transformer step keeps every layer's name and map, so what counts as
/// a tap-toggle key, and the self-keyed discipline, survive the step.
proof fn lemma_transform_keeps_maps(s: ComposerModel, e: InputEvent, now: u64)
    requires
        spec_composer_wf(s),
    ensures
        spec_composer_wf(spec_transform(s, e, now).0),
        spec_transform(s, e, now).0.layers.len() == s.layers.len(),
        forall|i: int|
            0 <= i < s.layers.len() ==> (#[trigger] spec_transform(s, e, now).0.layers[i]).map
                == s.layers[i].map && spec_transform(s, e, now).0.layers[i].name
                == s.layers[i].name,
{
    match spec_top_match(s.layers, e) {
        Some(ccs) => {
            assert forall|i: int| 0 <= i < s.layers.len() implies #[trigger] s.layers[i]
                == s.layers[i] by {}
            lemma_top_match_refs_valid(s.layers, e, s.layers);
            lemma_handle_codes_preserves(s, e, now, ccs);
        },
        None => {},
    }
}

/// The timer table tracks only tap-toggle keys that are physically down or
/// repeating.  This holds over any stream whose releases resolve through
/// their bindings, for layers whose tap-toggles tap their own keys.
pub proof fn lemma_timer_keys_tracked(
    s0: ComposerModel,
    p0: Set<KeyCode>,
    evs: Seq<(InputEvent, u64)>,
)
    requires
        spec_composer_wf(s0),
        spec_tt_self_keyed(s0.layers),
        spec_releases_resolve(s0, evs),
        forall|k: KeyCode|
            #[trigger] s0.timers.contains_key(k) ==> p0.contains(k) && spec_is_tt_key(
                s0.layers,
                k,
            ),
    ensures
        forall|k: KeyCode|
            #[trigger] spec_run_state(s0, evs).timers.contains_key(k) ==> spec_pressed_from(
                p0,
                evs,
            ).contains(k) && spec_is_tt_key(s0.layers, k),
    decreases evs.len(),
{
    if evs.len() > 0 {
        let e = evs[0].0;
        let now = evs[0].1;
        let s1 = spec_transform(s0, e, now).0;
        let p1 = spec_pressed_step(p0, e);
        lemma_transform_keeps_maps(s0, e, now);
        assert forall|k: KeyCode| spec_is_tt_key(s1.layers, k) <==> spec_is_tt_key(
            s0.layers,
            k,
        ) by {
            if spec_is_tt_key(s1.layers, k) {
                let (i, k0, j) = choose|i: int, k0: KeyCode, j: int|
                    #![trigger s1.layers[i].map[k0][j]]
                    {
                        &&& 0 <= i < s1.layers.len()
                        &&& s1.layers[i].map.contains_key(k0)
                        &&& 0 <= j < s1.layers[i].map[k0].len()
                        &&& s1.layers[i].map[k0][j] is TapToggle
                        &&& s1.layers[i].map[k0][j]->TapToggle_1 == k
                    };
                assert(s0.layers[i].map == s1.layers[i].map);
                assert(s0.layers[i].map[k0][j] == s1.layers[i].map[k0][j]);
            }
            if spec_is_tt_key(s0.layers, k) {
                let (i, k0, j) = choose|i: int, k0: KeyCode, j: int|
                    #![trigger s0.layers[i].map[k0][j]]
                    {
                        &&& 0 <= i < s0.layers.len()
                        &&& s0.layers[i].map.contains_key(k0)
                        &&& 0 <= j < s0.layers[i].map[k0].len()
                        &&& s0.layers[i].map[k0][j] is TapToggle
                        &&& s0.layers[i].map[k0][j]->TapToggle_1 == k
                    };
                assert(s1.layers[i].map == s0.layers[i].map);
                assert(s1.layers[i].map[k0][j] == s0.layers[i].map[k0][j]);
            }
        }
        assert(spec_tt_self_keyed(s1.layers)) by {
            assert forall|i: int, k0: KeyCode, j: int|
                #![trigger s1.layers[i].map[k0][j]]
                (0 <= i < s1.layers.len() && s1.layers[i].map.contains_key(k0) && 0 <= j
                    < s1.layers[i].map[k0].len() && s1.layers[i].map[k0][j] is TapToggle) implies
                s1.layers[i].map[k0][j]->TapToggle_1 == k0 by {
                assert(s1.layers[i].map == s0.layers[i].map);
                assert(s0.layers[i].map[k0][j] == s1.layers[i].map[k0][j]);
            }
        }
        // the step's effect on the timer table
        assert(evs.take(0) =~= Seq::<(InputEvent, u64)>::empty());
        assert(spec_run_state(s0, evs.take(0)) == s0);
        assert forall|kk: KeyCode| #[trigger] s1.timers.contains_key(kk) implies p1.contains(kk)
            && spec_is_tt_key(s0.layers, kk) by {
            match spec_top_match(s0.layers, e) {
                Some(ccs) => {
                    assert forall|i: int| 0 <= i < s0.layers.len() implies #[trigger] s0.layers[i]
                        == s0.layers[i] by {}
                    lemma_top_match_source(s0.layers, e, s0.layers);
                    let wi = choose|wi: int|
                        0 <= wi < s0.layers.len() && spec_layer_transform(
                            #[trigger] s0.layers[wi],
                            e,
                        ) == spec_top_match(s0.layers, e);
                    let ek = e.code->KeyCode_0;
                    assert(ccs == s0.layers[wi].map[ek].map_values(
                        |cc: ControlCode| crate::layers::spec_rewrite(cc, e),
                    ));
                    assert forall|j: int|
                        0 <= j < ccs.len() && (#[trigger] ccs[j]) is TapToggle implies
                        ccs[j]->TapToggle_1 == ek && spec_is_tt_key(s0.layers, ek) by {
                        assert(ccs[j] == crate::layers::spec_rewrite(s0.layers[wi].map[ek][j], e));
                        assert(s0.layers[wi].map[ek][j] == ccs[j]);
                        assert(s0.layers[wi].map[ek][j]->TapToggle_1 == ek);
                    }
                    match e.state {
                        KeyState::Down => {
                            lemma_handle_codes_insert_bound(s0, e, now, ccs, ek);
                            if !s0.timers.contains_key(kk) {
                                assert(kk == ek);
                                assert(exists|j: int|
                                    0 <= j < ccs.len() && (#[trigger] ccs[j]) is TapToggle) by {
                                    if forall|j: int|
                                        0 <= j < ccs.len() ==> !((#[trigger] ccs[j]) is TapToggle) {
                                        lemma_handle_codes_no_tt_timers(s0, e, now, ccs);
                                    }
                                }
                            }
                        },
                        _ => {
                            lemma_handle_codes_no_insert(s0, e, now, ccs);
                            if e.state == KeyState::Up {
                                lemma_release_clears_timer(s0, e, now, ccs, ek);
                                if s0.timers.contains_key(ek) {
                                    assert(spec_releases_resolve(s0, evs));
                                    assert(0 <= 0 < evs.len());
                                    assert((evs[0]).0 == e);
                                    assert(!s1.timers.contains_key(ek));
                                }
                                assert(kk != ek || !s1.timers.contains_key(ek));
                            }
                        },
                    }
                },
                None => {
                    assert(s1 == s0);
                    if e.code is KeyCode && e.state == KeyState::Up {
                        let ek = e.code->KeyCode_0;
                        assert(!s0.timers.contains_key(ek)) by {
                            if s0.timers.contains_key(ek) {
                                assert(0 <= 0 < evs.len());
                            }
                        }
                    }
                },
            }
        }
        lemma_releases_resolve_shift(s0, evs);
        lemma_timer_keys_tracked(s1, p1, evs.drop_first());
        assert forall|k: KeyCode|
            #[trigger] spec_run_state(s0, evs).timers.contains_key(k) implies spec_pressed_from(
            p0,
            evs,
        ).contains(k) && spec_is_tt_key(s0.layers, k) by {
            assert(spec_run_state(s0, evs) == spec_run_state(s1, evs.drop_first()));
            assert(spec_pressed_from(p0, evs) == spec_pressed_from(p1, evs.drop_first()));
            assert(spec_is_tt_key(s1.layers, k) <==> spec_is_tt_key(s0.layers, k));
        }
    }
}

/// When a press's answer holds no tap-toggle at all, resolving it starts no
/// timer.
proof fn lemma_handle_codes_no_tt_timers(
    s: ComposerModel,
    e: InputEvent,
    now: u64,
    ccs: Seq<ControlCode>,
)
    requires
        forall|j: int| 0 <= j < ccs.len() ==> !((#[trigger] ccs[j]) is TapToggle),
    ensures
        spec_handle_codes(s, e, now, ccs).0 == s,
    decreases ccs.len(),
{
    if ccs.len() > 0 {
        assert(ccs.drop_first().len() == ccs.len() - 1);
        assert forall|j: int|
            0 <= j < ccs.drop_first().len() implies !((#[trigger] ccs.drop_first()[j])
            is TapToggle) by {
            assert(ccs.drop_first()[j] == ccs[j + 1]);
        }
        lemma_handle_codes_no_tt_timers(s, e, now, ccs.drop_first());
    }
}

/// The timer table never outgrows the tap-toggle keys that are physically
/// down or repeating: starting from an empty table, over any stream whose
/// releases resolve through their bindings, its size stays within theirs.
pub proof fn lemma_timer_table_bounded(s0: ComposerModel, evs: Seq<(InputEvent, u64)>)
    requires
        spec_composer_wf(s0),
        spec_tt_self_keyed(s0.layers),
        spec_releases_resolve(s0, evs),
        s0.timers == Map::<KeyCode, u64>::empty(),
    ensures
        spec_run_state(s0, evs).timers.dom().finite(),
        spec_run_state(s0, evs).timers.dom().len() <= spec_pressed_from(
            Set::empty(),
            evs,
        ).intersect(Set::new(|k: KeyCode| spec_is_tt_key(s0.layers, k))).len(),
{
    lemma_timer_keys_tracked(s0, Set::empty(), evs);
    let dom = spec_run_state(s0, evs).timers.dom();
    let pressed = spec_pressed_from(Set::<KeyCode>::empty(), evs);
    let tt = Set::new(|k: KeyCode| spec_is_tt_key(s0.layers, k));
    assert(dom.subset_of(pressed.intersect(tt)));
    lemma_pressed_finite(Set::<KeyCode>::empty(), evs);
    vstd::set::axiom_set_intersect_finite(pressed, tt);
    vstd::set_lib::lemma_len_subset(dom, pressed.intersect(tt));
}

/// The pressed set stays finite over any stream.
proof fn lemma_pressed_finite(p: Set<KeyCode>, evs: Seq<(InputEvent, u64)>)
    requires
        p.finite(),
    ensures
        spec_pressed_from(p, evs).finite(),
    decreases evs.len(),
{
    if evs.len() > 0 {
        broadcast use vstd::set::axiom_set_insert_finite;
        broadcast use vstd::set::axiom_set_remove_finite;

        lemma_pressed_finite(spec_pressed_step(p, evs[0].0), evs.drop_first());
    }
}

} // verus!



