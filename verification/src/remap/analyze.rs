//! Analysis and lowering of a parsed remap description.
//!
//! Checks every name the description uses — key codes, key functions, layer
//! options, layer references — and lowers the description to a layer
//! composer.  The first offending token decides the error, with analysis
//! running in declaration order: key and function errors first, then
//! dangling references, then duplicate layer names.

use vstd::prelude::*;

use crate::control_code::{ControlCode, LayerRef};
use crate::errors::{CompileError, CompileErrorKind};
use crate::keycodes::{spec_key_code_from_name, KeyCode};
use crate::layer_composer::LayerComposer;
use crate::layers::{
    lemma_entries_map_contains, lemma_entries_map_found, spec_entries_map, Layer, LayerModel,
};
use crate::remap::parse::{
    spec_parse, Ast, AstModel, CcModel, FnModel, KeyFunction, KeyMapsModel, Layer as AstLayer,
    LayerAstModel,
};
use crate::strings::str_eq;

verus! {

/// The name of the key function that shuts the pipeline down.
pub open spec fn spec_is_exit(name: Seq<char>) -> bool {
    name == "Exit"@
}

/// The names of the tap-toggle key function.
pub open spec fn spec_is_tt(name: Seq<char>) -> bool {
    name == "TT"@ || name == "TapToggle"@
}

/// The first thing wrong with a key function, if anything is: an unknown
/// function name, a wrong number of arguments, or a tap key that is no key.
pub open spec fn spec_function_error(f: FnModel) -> Option<(int, CompileErrorKind)> {
    if spec_is_exit(f.name.text) {
        if f.params.len() > 0 {
            Some((f.params[0].pos, CompileErrorKind::UnexpectedArgument))
        } else {
            None
        }
    } else if spec_is_tt(f.name.text) {
        if f.params.len() == 0 {
            Some((f.name.pos, CompileErrorKind::MissingLayerRefArgument))
        } else if f.params.len() == 1 {
            Some((f.name.pos, CompileErrorKind::MissingKeyCodeArgument))
        } else if f.params.len() > 2 {
            Some((f.params[2].pos, CompileErrorKind::UnexpectedArgument))
        } else if spec_key_code_from_name(f.params[1].text) is None {
            Some((f.params[1].pos, CompileErrorKind::InvalidKeyCode))
        } else {
            None
        }
    } else {
        Some((f.name.pos, CompileErrorKind::InvalidKeyFunction))
    }
}

/// The first thing wrong with a right-hand side, if anything is.
pub open spec fn spec_cc_error(rhs: CcModel) -> Option<(int, CompileErrorKind)> {
    match rhs {
        CcModel::Key(id) => if spec_key_code_from_name(id.text) is None {
            Some((id.pos, CompileErrorKind::InvalidKeyCode))
        } else {
            None
        },
        CcModel::Function(f) => spec_function_error(f),
    }
}

/// The first thing wrong with one map: its key, then its target.
pub open spec fn spec_keymap_error(m: KeyMapsModel) -> Option<(int, CompileErrorKind)> {
    if spec_key_code_from_name(m.lhs.text) is None {
        Some((m.lhs.pos, CompileErrorKind::InvalidKeyCode))
    } else {
        spec_cc_error(m.rhs)
    }
}

/// The first erring map of a layer, from position `j` on.
pub open spec fn spec_maps_error_from(maps: Seq<KeyMapsModel>, j: int) -> Option<
    (int, CompileErrorKind),
>
    decreases maps.len() - j when 0 <= j
{
    if j >= maps.len() {
        None
    } else {
        match spec_keymap_error(maps[j]) {
            Some(e) => Some(e),
            None => spec_maps_error_from(maps, j + 1),
        }
    }
}

/// The first erring option of a layer, from position `j` on: anything but
/// `Active` is an error.
pub open spec fn spec_opts_error_from(opts: Seq<crate::remap::parse::IdentModel>, j: int) -> Option<
    (int, CompileErrorKind),
>
    decreases opts.len() - j when 0 <= j
{
    if j >= opts.len() {
        None
    } else if opts[j].text != "Active"@ {
        Some((opts[j].pos, CompileErrorKind::InvalidLayerOption))
    } else {
        spec_opts_error_from(opts, j + 1)
    }
}

/// The first thing wrong inside one layer: its maps in order, then its
/// options in order.
pub open spec fn spec_layer_error(l: LayerAstModel) -> Option<(int, CompileErrorKind)> {
    match spec_maps_error_from(l.maps, 0) {
        Some(e) => Some(e),
        None => match l.opts {
            Some(os) => spec_opts_error_from(os, 0),
            None => None,
        },
    }
}

/// The first erring layer of the description, from position `i` on.
pub open spec fn spec_layers_error_from(layers: Seq<LayerAstModel>, i: int) -> Option<
    (int, CompileErrorKind),
>
    decreases layers.len() - i when 0 <= i
{
    if i >= layers.len() {
        None
    } else {
        match spec_layer_error(layers[i]) {
            Some(e) => Some(e),
            None => spec_layers_error_from(layers, i + 1),
        }
    }
}

/// Whether some layer of the description carries the name.
pub open spec fn spec_has_layer_name(ast: AstModel, name: Seq<char>) -> bool {
    exists|i: int| 0 <= i < ast.layers.len() && (#[trigger] ast.layers[i]).name.text == name
}

/// Whether one map's target references a layer no layer carries the name of.
pub open spec fn spec_keymap_dangles(ast: AstModel, m: KeyMapsModel) -> bool {
    match m.rhs {
        CcModel::Function(f) => spec_is_tt(f.name.text) && f.params.len() > 0
            && !spec_has_layer_name(ast, f.params[0].text),
        CcModel::Key(_) => false,
    }
}

/// The position of the first dangling layer reference inside one layer, from
/// map `j` on.
pub open spec fn spec_refs_error_maps(ast: AstModel, maps: Seq<KeyMapsModel>, j: int) -> Option<int>
    decreases maps.len() - j when 0 <= j
{
    if j >= maps.len() {
        None
    } else if spec_keymap_dangles(ast, maps[j]) {
        Some(maps[j].rhs->Function_0.params[0].pos)
    } else {
        spec_refs_error_maps(ast, maps, j + 1)
    }
}

/// The position of the first dangling layer reference, from layer `i` on.
pub open spec fn spec_refs_error_from(ast: AstModel, i: int) -> Option<int>
    decreases ast.layers.len() - i when 0 <= i
{
    if i >= ast.layers.len() {
        None
    } else {
        match spec_refs_error_maps(ast, ast.layers[i].maps, 0) {
            Some(p) => Some(p),
            None => spec_refs_error_from(ast, i + 1),
        }
    }
}

/// The layer names of the description, in declaration order, each name once.
pub open spec fn spec_known_names(layers: Seq<LayerAstModel>) -> Seq<Seq<char>>
    decreases layers.len(),
{
    if layers.len() == 0 {
        Seq::empty()
    } else {
        let pre = spec_known_names(layers.drop_last());
        if pre.contains(layers.last().name.text) {
            pre
        } else {
            pre.push(layers.last().name.text)
        }
    }
}

/// The position of the second occurrence in the first duplicated pair of
/// layer names, scanning pairs in order.
pub open spec fn spec_dup_inner(layers: Seq<LayerAstModel>, i: int, j: int) -> Option<int>
    decreases layers.len() - j when 0 <= j
{
    if j >= layers.len() {
        None
    } else if 0 <= i < layers.len() && layers[j].name.text == layers[i].name.text {
        Some(layers[j].name.pos)
    } else {
        spec_dup_inner(layers, i, j + 1)
    }
}

/// The position of the first duplicate layer name, if names repeat.
pub open spec fn spec_dup_error_from(layers: Seq<LayerAstModel>, i: int) -> Option<int>
    decreases layers.len() - i when 0 <= i
{
    if i >= layers.len() {
        None
    } else {
        match spec_dup_inner(layers, i, i + 1) {
            Some(p) => Some(p),
            None => spec_dup_error_from(layers, i + 1),
        }
    }
}

/// A description the analyzer accepts: no bad name, no dangling reference,
/// no duplicated layer name.
pub open spec fn spec_analyze_ok(ast: AstModel) -> bool {
    &&& spec_layers_error_from(ast.layers, 0) is None
    &&& spec_refs_error_from(ast, 0) is None
    &&& spec_dup_error_from(ast.layers, 0) is None
}

/// Whether a parsed layer starts active: it does when its options name
/// `Active`.
pub open spec fn spec_layer_active(l: LayerAstModel) -> bool {
    match l.opts {
        Some(os) => exists|j: int| 0 <= j < os.len() && (#[trigger] os[j]).text == "Active"@,
        None => false,
    }
}

/// What a right-hand side lowers to: a bare key becomes a rewrite to that
/// key, `Exit` the shutdown order, and `TT`/`TapToggle` a tap-toggle bound
/// to the named layer and tap key.
pub open spec fn spec_lowered_cc(rhs: CcModel, cc: ControlCode) -> bool {
    match rhs {
        CcModel::Key(id) => cc matches ControlCode::KeyMap(kc) && spec_key_code_from_name(id.text)
            == Some(kc),
        CcModel::Function(f) => if spec_is_exit(f.name.text) {
            cc == ControlCode::Exit
        } else {
            &&& cc matches ControlCode::TapToggle(lr, kc)
            &&& lr matches LayerRef::ByName(nm) && nm@ == f.params[0].text
            &&& f.params.len() == 2
            &&& spec_key_code_from_name(f.params[1].text) == Some(kc)
        },
    }
}

/// Whether map `j` is the last map of its layer for its key.
pub open spec fn spec_is_last_for_key(maps: Seq<KeyMapsModel>, j: int) -> bool {
    forall|j2: int|
        j < j2 < maps.len() ==> spec_key_code_from_name((#[trigger] maps[j2]).lhs.text)
            != spec_key_code_from_name(maps[j].lhs.text)
}

/// How a layer's finished map reflects its written maps: it holds exactly
/// the written keys, and for each key the single code the last map for that
/// key lowers to.
pub open spec fn spec_layer_map_matches(
    maps: Seq<KeyMapsModel>,
    m: Map<KeyCode, Seq<ControlCode>>,
) -> bool {
    &&& forall|k: KeyCode|
        #[trigger] m.contains_key(k) <==> exists|j: int|
            0 <= j < maps.len() && spec_key_code_from_name((#[trigger] maps[j]).lhs.text) == Some(
                k,
            )
    &&& forall|j: int|
        0 <= j < maps.len() && #[trigger] spec_is_last_for_key(maps, j) ==> {
            let k = spec_key_code_from_name(maps[j].lhs.text)->0;
            &&& m.contains_key(k)
            &&& m[k].len() == 1
            &&& spec_lowered_cc(maps[j].rhs, m[k][0])
        }
}

/// How a lowered layer table reflects the description: one layer per
/// declaration, in order, carrying its written name, its `Active` option,
/// and its lowered maps.
pub open spec fn spec_lowered_layers(ast: AstModel, layers: Seq<LayerModel>) -> bool {
    &&& layers.len() == ast.layers.len()
    &&& forall|i: int|
        0 <= i < layers.len() ==> {
            &&& (#[trigger] layers[i]).name == ast.layers[i].name.text
            &&& layers[i].active == spec_layer_active(ast.layers[i])
            &&& spec_layer_map_matches(ast.layers[i].maps, layers[i].map)
        }
}


/// The key an identifier names, or the invalid-key-code error at its
/// position.
fn key_code_of_ident(id: &crate::remap::parse::Ident) -> (r: Result<KeyCode, CompileError>)
    ensures
        match r {
            Ok(kc) => spec_key_code_from_name(id@.text) == Some(kc),
            Err(e) => spec_key_code_from_name(id@.text) is None && e.pos as int == id@.pos
                && e.kind == CompileErrorKind::InvalidKeyCode,
        },
{
    match KeyCode::from_name(id.text.as_str()) {
        Some(kc) => Ok(kc),
        None => Err(CompileError { pos: id.pos, kind: CompileErrorKind::InvalidKeyCode }),
    }
}

/// Lowers a key function: `Exit` takes no arguments, `TT`/`TapToggle` take a
/// layer name and a tap key, anything else is no key function.
pub fn control_code_from_function(kf: &KeyFunction) -> (r: Result<ControlCode, CompileError>)
    ensures
        match r {
            Ok(cc) => spec_function_error(kf@) is None && spec_lowered_cc(
                CcModel::Function(kf@),
                cc,
            ),
            Err(e) => spec_function_error(kf@) == Some((e.pos as int, e.kind)),
        },
{
    let name = &kf.name.0;
    if str_eq(name.text.as_str(), "Exit") {
        if kf.params.0.len() > 0 {
            return Err(
                CompileError { pos: kf.params.0[0].pos(), kind: CompileErrorKind::UnexpectedArgument },
            );
        }
        Ok(ControlCode::Exit)
    } else if str_eq(name.text.as_str(), "TT") || str_eq(name.text.as_str(), "TapToggle") {
        if kf.params.0.len() == 0 {
            return Err(
                CompileError { pos: name.pos, kind: CompileErrorKind::MissingLayerRefArgument },
            );
        }
        if kf.params.0.len() == 1 {
            return Err(
                CompileError { pos: name.pos, kind: CompileErrorKind::MissingKeyCodeArgument },
            );
        }
        if kf.params.0.len() > 2 {
            return Err(
                CompileError { pos: kf.params.0[2].pos(), kind: CompileErrorKind::UnexpectedArgument },
            );
        }
        let layer_name = kf.params.0[0].to_string();
        let kc = match KeyCode::from_name(kf.params.0[1].to_string().as_str()) {
            Some(kc) => kc,
            None => {
                return Err(
                    CompileError { pos: kf.params.0[1].pos(), kind: CompileErrorKind::InvalidKeyCode },
                );
            },
        };
        Ok(ControlCode::TapToggle(LayerRef::ByName(layer_name), kc))
    } else {
        Err(CompileError { pos: name.pos, kind: CompileErrorKind::InvalidKeyFunction })
    }
}

/// Lowers a right-hand side.
pub fn control_code_from_rhs(rhs: &crate::remap::parse::ControlCode) -> (r: Result<
    ControlCode,
    CompileError,
>)
    ensures
        match r {
            Ok(cc) => spec_cc_error(rhs@) is None && spec_lowered_cc(rhs@, cc),
            Err(e) => spec_cc_error(rhs@) == Some((e.pos as int, e.kind)),
        },
{
    match rhs {
        crate::remap::parse::ControlCode::Key(k) => {
            match key_code_of_ident(&k.0) {
                Ok(kc) => Ok(ControlCode::KeyMap(kc)),
                Err(e) => Err(e),
            }
        },
        crate::remap::parse::ControlCode::Function(f) => control_code_from_function(f),
    }
}

/// Lowers one declared layer: its maps become entries keyed by their keys,
/// the last map for a key winning, and the `Active` option decides the
/// initial active bit.
#[verifier::rlimit(100)]
pub fn layer_from_ast(l: &AstLayer) -> (r: Result<Layer, CompileError>)
    ensures
        match r {
            Ok(lay) => {
                &&& spec_layer_error(l@) is None
                &&& lay@.name == l@.name.text
                &&& lay@.active == spec_layer_active(l@)
                &&& spec_layer_map_matches(l@.maps, lay@.map)
                &&& lay.entries@.len() == l@.maps.len()
                &&& forall|j: int|
                    0 <= j < l@.maps.len() ==> {
                        &&& spec_key_code_from_name((#[trigger] l@.maps[j]).lhs.text) == Some(
                            lay.entries@[j].0,
                        )
                        &&& lay.entries@[j].1@.len() == 1
                        &&& spec_lowered_cc(l@.maps[j].rhs, lay.entries@[j].1@[0])
                    }
            },
            Err(e) => spec_layer_error(l@) == Some((e.pos as int, e.kind)),
        },
{
    let ghost maps_m = l@.maps;
    let mut entries: Vec<(KeyCode, Vec<ControlCode>)> = Vec::new();
    let n = l.body.maps.len();
    let mut j: usize = 0;
    while j < n
        invariant
            j <= n,
            n == l.body.maps@.len(),
            maps_m == l@.maps,
            maps_m.len() == n,
            entries@.len() == j,
            spec_maps_error_from(maps_m, 0) == spec_maps_error_from(maps_m, j as int),
            forall|j2: int|
                0 <= j2 < j ==> {
                    &&& spec_key_code_from_name((#[trigger] maps_m[j2]).lhs.text) == Some(
                        entries@[j2].0,
                    )
                    &&& entries@[j2].1@.len() == 1
                    &&& spec_lowered_cc(maps_m[j2].rhs, entries@[j2].1@[0])
                },
        decreases n - j,
    {
        let km = &l.body.maps[j];
        proof {
            assert(km@ == maps_m[j as int]);
        }
        let kc = match key_code_of_ident(&km.lhs.0) {
            Ok(kc) => kc,
            Err(e) => {
                proof {
                    assert(spec_keymap_error(maps_m[j as int]) == Some((e.pos as int, e.kind)));
                }
                return Err(e);
            },
        };
        let cc = match control_code_from_rhs(&km.rhs) {
            Ok(cc) => cc,
            Err(e) => {
                proof {
                    assert(spec_keymap_error(maps_m[j as int]) == Some((e.pos as int, e.kind)));
                }
                return Err(e);
            },
        };
        let mut codes: Vec<ControlCode> = Vec::new();
        codes.push(cc);
        entries.push((kc, codes));
        j = j + 1;
    }
    proof {
        assert(spec_maps_error_from(maps_m, n as int) is None);
        assert(spec_maps_error_from(maps_m, 0) is None);
    }
    let mut active = false;
    match &l.opts {
        Some(opts) => {
            let ghost os_m = opts@;
            let m = opts.opts.len();
            let mut jo: usize = 0;
            while jo < m
                invariant
                    jo <= m,
                    m == opts.opts@.len(),
                    os_m == opts@,
                    os_m.len() == m,
                    maps_m == l@.maps,
                    l@.opts == Some(os_m),
                    spec_maps_error_from(maps_m, 0) is None,
                    spec_opts_error_from(os_m, 0) == spec_opts_error_from(os_m, jo as int),
                    active == exists|j2: int|
                        0 <= j2 < jo && (#[trigger] os_m[j2]).text == "Active"@,
                decreases m - jo,
            {
                let o = &opts.opts[jo];
                proof {
                    assert(o@ == os_m[jo as int]);
                }
                if str_eq(o.text.as_str(), "Active") {
                    active = true;
                    proof {
                        assert(os_m[jo as int].text == "Active"@);
                    }
                } else {
                    proof {
                        assert(spec_opts_error_from(os_m, jo as int) == Some(
                            (o@.pos, CompileErrorKind::InvalidLayerOption),
                        ));
                    }
                    return Err(
                        CompileError { pos: o.pos, kind: CompileErrorKind::InvalidLayerOption },
                    );
                }
                jo = jo + 1;
            }
            proof {
                assert(spec_opts_error_from(os_m, m as int) is None);
            }
        },
        None => {},
    }
    let lay = Layer::from_entries(l.name.text.clone(), entries, active);
    proof {
        let em = lay@.map;
        let es = lay.entries@;
        assert(em == spec_entries_map(es));
        assert forall|k: KeyCode| #[trigger] em.contains_key(k) implies exists|j2: int|
            0 <= j2 < maps_m.len() && spec_key_code_from_name((#[trigger] maps_m[j2]).lhs.text)
                == Some(k) by {
            lemma_entries_map_contains(es, k);
            let j2 = choose|j2: int| 0 <= j2 < es.len() && (#[trigger] es[j2]).0 == k;
            assert(spec_key_code_from_name(maps_m[j2].lhs.text) == Some(k));
        }
        assert forall|k: KeyCode|
            (exists|j2: int|
                0 <= j2 < maps_m.len() && spec_key_code_from_name((#[trigger] maps_m[j2]).lhs.text)
                    == Some(k)) implies #[trigger] em.contains_key(k) by {
            let j2 = choose|j2: int|
                0 <= j2 < maps_m.len() && spec_key_code_from_name((#[trigger] maps_m[j2]).lhs.text)
                    == Some(k);
            assert(es[j2].0 == k);
            lemma_entries_map_contains(es, k);
        }
        assert forall|j2: int|
            0 <= j2 < maps_m.len() && #[trigger] spec_is_last_for_key(maps_m, j2) implies {
            let k = spec_key_code_from_name(maps_m[j2].lhs.text)->0;
            &&& em.contains_key(k)
            &&& em[k].len() == 1
            &&& spec_lowered_cc(maps_m[j2].rhs, em[k][0])
        } by {
            let k = spec_key_code_from_name(maps_m[j2].lhs.text)->0;
            assert(es[j2].0 == k);
            assert forall|j3: int| j2 < j3 < es.len() implies (#[trigger] es[j3]).0 != k by {
                assert(spec_key_code_from_name(maps_m[j3].lhs.text) != spec_key_code_from_name(
                    maps_m[j2].lhs.text,
                ));
                assert(spec_key_code_from_name(maps_m[j3].lhs.text) == Some(es[j3].0));
            }
            lemma_entries_map_found(es, k, j2);
        }
    }
    Ok(lay)
}

/// Whether some declared layer carries the name.
fn has_layer_name(ast: &Ast, name: &str) -> (r: bool)
    ensures
        r == spec_has_layer_name(ast@, name@),
{
    let n = ast.layers.len();
    let mut i: usize = 0;
    while i < n
        invariant
            i <= n,
            n == ast.layers@.len(),
            forall|i2: int| 0 <= i2 < i ==> (#[trigger] ast@.layers[i2]).name.text != name@,
        decreases n - i,
    {
        if str_eq(ast.layers[i].name.text.as_str(), name) {
            proof {
                assert(ast@.layers[i as int].name.text == name@);
            }
            return true;
        }
        i = i + 1;
    }
    false
}

/// The declared layer names, in order, each once.
fn known_layer_names(ast: &Ast) -> (r: Vec<String>)
    ensures
        r@.map_values(|s: String| s@) == spec_known_names(ast@.layers),
{
    let mut out: Vec<String> = Vec::new();
    let n = ast.layers.len();
    let mut i: usize = 0;
    proof {
        assert(ast@.layers.take(0) =~= Seq::<LayerAstModel>::empty());
        assert(out@.map_values(|s: String| s@) =~= spec_known_names(ast@.layers.take(0)));
    }
    while i < n
        invariant
            i <= n,
            n == ast.layers@.len(),
            out@.map_values(|s: String| s@) == spec_known_names(ast@.layers.take(i as int)),
        decreases n - i,
    {
        let name = &ast.layers[i].name.text;
        let mut seen = false;
        let m = out.len();
        let mut j: usize = 0;
        while j < m
            invariant
                j <= m,
                m == out@.len(),
                seen == exists|j2: int| 0 <= j2 < j && (#[trigger] out@[j2])@ == name@,
            decreases m - j,
        {
            if str_eq(out[j].as_str(), name.as_str()) {
                proof {
                    assert(out@[j as int]@ == name@);
                }
                seen = true;
            }
            j = j + 1;
        }
        proof {
            let pre = spec_known_names(ast@.layers.take(i as int));
            assert(ast@.layers.take(i as int + 1).drop_last() =~= ast@.layers.take(i as int));
            assert(ast@.layers.take(i as int + 1).last() == ast@.layers[i as int]);
            if seen {
                let j2 = choose|j2: int| 0 <= j2 < out@.len() && (#[trigger] out@[j2])@ == name@;
                assert(out@.map_values(|s: String| s@)[j2] == name@);
                assert(pre.contains(name@));
            } else {
                assert forall|j2: int| 0 <= j2 < pre.len() implies pre[j2] != name@ by {
                    assert(out@.map_values(|s: String| s@)[j2] == out@[j2]@);
                }
                assert(!pre.contains(name@));
            }
        }
        if !seen {
            out.push(name.clone());
            proof {
                assert(out@.map_values(|s: String| s@) =~= spec_known_names(
                    ast@.layers.take(i as int),
                ).push(name@));
            }
        }
        i = i + 1;
    }
    proof {
        assert(ast@.layers.take(n as int) =~= ast@.layers);
    }
    out
}

/// Rejects the first tap-toggle whose layer argument names no declared
/// layer; the error lists the declared names.
pub fn validate_references(ast: &Ast) -> (r: Result<(), CompileError>)
    ensures
        match r {
            Ok(_) => spec_refs_error_from(ast@, 0) is None,
            Err(e) => {
                &&& spec_refs_error_from(ast@, 0) == Some(e.pos as int)
                &&& e.kind matches CompileErrorKind::DanglingLayerRef { known_layers }
                    && known_layers@.map_values(|s: String| s@) == spec_known_names(ast@.layers)
            },
        },
{
    let n = ast.layers.len();
    let mut i: usize = 0;
    while i < n
        invariant
            i <= n,
            n == ast.layers@.len(),
            spec_refs_error_from(ast@, 0) == spec_refs_error_from(ast@, i as int),
        decreases n - i,
    {
        let layer = &ast.layers[i];
        let ghost maps_m = layer@.maps;
        let m = layer.body.maps.len();
        let mut j: usize = 0;
        while j < m
            invariant
                j <= m,
                i < n,
                n == ast.layers@.len(),
                m == layer.body.maps@.len(),
                maps_m == ast@.layers[i as int].maps,
                maps_m == layer@.maps,
                layer == &ast.layers[i as int],
                maps_m.len() == m,
                spec_refs_error_from(ast@, 0) == spec_refs_error_from(ast@, i as int),
                spec_refs_error_maps(ast@, maps_m, 0) == spec_refs_error_maps(
                    ast@,
                    maps_m,
                    j as int,
                ),
            decreases m - j,
        {
            let km = &layer.body.maps[j];
            proof {
                assert(km@ == maps_m[j as int]);
            }
            match &km.rhs {
                crate::remap::parse::ControlCode::Function(f) => {
                    let is_tt = str_eq(f.name.0.text.as_str(), "TT") || str_eq(
                        f.name.0.text.as_str(),
                        "TapToggle",
                    );
                    if is_tt && f.params.0.len() > 0 {
                        let nm = f.params.0[0].to_string();
                        if !has_layer_name(ast, nm.as_str()) {
                            let known = known_layer_names(ast);
                            proof {
                                assert(spec_keymap_dangles(ast@, maps_m[j as int]));
                                assert(spec_refs_error_maps(ast@, maps_m, j as int) == Some(
                                    maps_m[j as int].rhs->Function_0.params[0].pos,
                                ));
                                assert(spec_refs_error_from(ast@, i as int) == Some(
                                    maps_m[j as int].rhs->Function_0.params[0].pos,
                                ));
                            }
                            return Err(
                                CompileError {
                                    pos: f.params.0[0].pos(),
                                    kind: CompileErrorKind::DanglingLayerRef { known_layers: known },
                                },
                            );
                        }
                    }
                    proof {
                        assert(!spec_keymap_dangles(ast@, maps_m[j as int]));
                    }
                },
                _ => {},
            }
            j = j + 1;
        }
        proof {
            assert(spec_refs_error_maps(ast@, maps_m, m as int) is None);
        }
        i = i + 1;
    }
    proof {
        assert(spec_refs_error_from(ast@, n as int) is None);
    }
    Ok(())
}

/// Rejects the first repeated layer name.
fn check_duplicate_names(ast: &Ast) -> (r: Result<(), CompileError>)
    ensures
        match r {
            Ok(_) => spec_dup_error_from(ast@.layers, 0) is None,
            Err(e) => spec_dup_error_from(ast@.layers, 0) == Some(e.pos as int) && e.kind
                == CompileErrorKind::LayerValidation,
        },
{
    let n = ast.layers.len();
    let mut i: usize = 0;
    while i < n
        invariant
            i <= n,
            n == ast.layers@.len(),
            spec_dup_error_from(ast@.layers, 0) == spec_dup_error_from(ast@.layers, i as int),
        decreases n - i,
    {
        let mut j: usize = i + 1;
        while j < n
            invariant
                i < j <= n,
                i < n,
                n == ast.layers@.len(),
                spec_dup_error_from(ast@.layers, 0) == spec_dup_error_from(
                    ast@.layers,
                    i as int,
                ),
                spec_dup_inner(ast@.layers, i as int, i as int + 1) == spec_dup_inner(
                    ast@.layers,
                    i as int,
                    j as int,
                ),
            decreases n - j,
        {
            if str_eq(ast.layers[j].name.text.as_str(), ast.layers[i].name.text.as_str()) {
                proof {
                    assert(ast@.layers[j as int].name.text == ast@.layers[i as int].name.text);
                    assert(spec_dup_inner(ast@.layers, i as int, j as int) == Some(
                        ast@.layers[j as int].name.pos,
                    ));
                    assert(spec_dup_error_from(ast@.layers, i as int) == Some(
                        ast@.layers[j as int].name.pos,
                    ));
                }
                return Err(
                    CompileError {
                        pos: ast.layers[j].name.pos,
                        kind: CompileErrorKind::LayerValidation,
                    },
                );
            }
            j = j + 1;
        }
        proof {
            assert(spec_dup_inner(ast@.layers, i as int, n as int) is None);
        }
        i = i + 1;
    }
    proof {
        assert(spec_dup_error_from(ast@.layers, n as int) is None);
    }
    Ok(())
}


proof fn lemma_maps_error_none(maps: Seq<KeyMapsModel>, j: int)
    requires
        0 <= j,
        spec_maps_error_from(maps, j) is None,
    ensures
        forall|j2: int| j <= j2 < maps.len() ==> spec_keymap_error(#[trigger] maps[j2]) is None,
    decreases maps.len() - j,
{
    if j < maps.len() {
        lemma_maps_error_none(maps, j + 1);
    }
}

proof fn lemma_layers_error_none(layers: Seq<LayerAstModel>, i: int)
    requires
        0 <= i,
        spec_layers_error_from(layers, i) is None,
    ensures
        forall|i2: int| i <= i2 < layers.len() ==> spec_layer_error(#[trigger] layers[i2]) is None,
    decreases layers.len() - i,
{
    if i < layers.len() {
        lemma_layers_error_none(layers, i + 1);
    }
}

proof fn lemma_refs_maps_none(ast: AstModel, maps: Seq<KeyMapsModel>, j: int)
    requires
        0 <= j,
        spec_refs_error_maps(ast, maps, j) is None,
    ensures
        forall|j2: int| j <= j2 < maps.len() ==> !spec_keymap_dangles(ast, #[trigger] maps[j2]),
    decreases maps.len() - j,
{
    if j < maps.len() {
        lemma_refs_maps_none(ast, maps, j + 1);
    }
}

proof fn lemma_refs_none(ast: AstModel, i: int)
    requires
        0 <= i,
        spec_refs_error_from(ast, i) is None,
    ensures
        forall|i2: int, j2: int|
            i <= i2 < ast.layers.len() && 0 <= j2 < (#[trigger] ast.layers[i2]).maps.len()
                ==> !spec_keymap_dangles(ast, #[trigger] ast.layers[i2].maps[j2]),
    decreases ast.layers.len() - i,
{
    if i < ast.layers.len() {
        lemma_refs_maps_none(ast, ast.layers[i].maps, 0);
        lemma_refs_none(ast, i + 1);
    }
}

proof fn lemma_dup_inner_none(layers: Seq<LayerAstModel>, i: int, j: int)
    requires
        0 <= i < layers.len(),
        i < j,
        spec_dup_inner(layers, i, j) is None,
    ensures
        forall|j2: int| j <= j2 < layers.len() ==> (#[trigger] layers[j2]).name.text
            != layers[i].name.text,
    decreases layers.len() - j,
{
    if j < layers.len() {
        lemma_dup_inner_none(layers, i, j + 1);
    }
}

proof fn lemma_dup_none(layers: Seq<LayerAstModel>, i: int)
    requires
        0 <= i,
        spec_dup_error_from(layers, i) is None,
    ensures
        forall|i2: int, j2: int|
            i <= i2 < j2 < layers.len() ==> (#[trigger] layers[i2]).name.text != (
            #[trigger] layers[j2]).name.text,
    decreases layers.len() - i,
{
    if i < layers.len() {
        lemma_dup_inner_none(layers, i, i + 1);
        lemma_dup_none(layers, i + 1);
    }
}

/// Lowers a checked description to a layer composer: one layer per
/// declaration, running on the wall clock with no timers.  Analysis accepts
/// exactly the descriptions free of name errors, dangling references and
/// duplicated layer names, and rejection is anchored at the first offending
/// token.
#[verifier::rlimit(100)]
pub fn analyze(ast: &Ast) -> (r: Result<LayerComposer, CompileError>)
    ensures
        match r {
            Ok(c) => {
                &&& spec_analyze_ok(ast@)
                &&& spec_lowered_layers(ast@, c@.layers)
                &&& c@.timers == Map::<KeyCode, u64>::empty()
                &&& c.clock.pinned is None
                &&& c.wf()
            },
            Err(e) => match spec_layers_error_from(ast@.layers, 0) {
                Some(pk) => (e.pos as int, e.kind) == pk,
                None => match spec_refs_error_from(ast@, 0) {
                    Some(p) => e.pos as int == p && (e.kind matches
                        CompileErrorKind::DanglingLayerRef { known_layers } && known_layers@.map_values(
                        |s: String| s@,
                    ) == spec_known_names(ast@.layers)),
                    None => match spec_dup_error_from(ast@.layers, 0) {
                        Some(p) => e.pos as int == p && e.kind
                            == CompileErrorKind::LayerValidation,
                        None => false,
                    },
                },
            },
        },
{
    let mut items: Vec<Layer> = Vec::new();
    let n = ast.layers.len();
    let mut i: usize = 0;
    while i < n
        invariant
            i <= n,
            n == ast.layers@.len(),
            items@.len() == i,
            spec_layers_error_from(ast@.layers, 0) == spec_layers_error_from(
                ast@.layers,
                i as int,
            ),
            forall|i2: int|
                0 <= i2 < i ==> {
                    let al = ast@.layers[i2];
                    let ll = #[trigger] items@[i2];
                    &&& ll@.name == al.name.text
                    &&& ll@.active == spec_layer_active(al)
                    &&& spec_layer_map_matches(al.maps, ll@.map)
                    &&& ll.entries@.len() == al.maps.len()
                    &&& forall|j: int|
                        0 <= j < al.maps.len() ==> {
                            &&& spec_key_code_from_name((#[trigger] al.maps[j]).lhs.text) == Some(
                                ll.entries@[j].0,
                            )
                            &&& ll.entries@[j].1@.len() == 1
                            &&& spec_lowered_cc(al.maps[j].rhs, ll.entries@[j].1@[0])
                        }
                },
        decreases n - i,
    {
        match layer_from_ast(&ast.layers[i]) {
            Ok(lay) => {
                items.push(lay);
            },
            Err(e) => {
                proof {
                    assert(spec_layer_error(ast@.layers[i as int]) == Some((e.pos as int, e.kind)));
                }
                return Err(e);
            },
        }
        i = i + 1;
    }
    proof {
        assert(spec_layers_error_from(ast@.layers, n as int) is None);
    }
    match validate_references(ast) {
        Ok(_) => {},
        Err(e) => {
            return Err(e);
        },
    }
    match check_duplicate_names(ast) {
        Ok(_) => {},
        Err(e) => {
            return Err(e);
        },
    }
    proof {
        let models = crate::layers::spec_models(items@);
        lemma_dup_none(ast@.layers, 0);
        assert forall|i1: int, j1: int|
            0 <= i1 < j1 < models.len() implies (#[trigger] models[i1]).name != (
        #[trigger] models[j1]).name by {
            assert(models[i1] == items@[i1]@);
            assert(models[j1] == items@[j1]@);
        }
        lemma_refs_none(ast@, 0);
        lemma_layers_error_none(ast@.layers, 0);
        assert forall|i1: int|
            0 <= i1 < items@.len() implies crate::layer_composer::spec_layer_entries_refs_valid(
            models,
            #[trigger] items@[i1],
        ) by {
            let al = ast@.layers[i1];
            let ll = items@[i1];
            lemma_maps_error_none(al.maps, 0);
            assert forall|j: int, c: int|
                0 <= j < ll.entries@.len() && 0 <= c < (#[trigger] ll.entries@[j]).1@.len() implies
                crate::layer_composer::spec_cc_ref_valid(models, #[trigger] ll.entries@[j].1@[c]) by {
                let cc = ll.entries@[j].1@[c];
                assert(c == 0);
                assert(spec_lowered_cc(al.maps[j].rhs, cc));
                match cc {
                    ControlCode::TapToggle(lr, _) => {
                        assert(spec_keymap_error(al.maps[j]) is None);
                        match al.maps[j].rhs {
                            CcModel::Function(f) => {
                                assert(!spec_is_exit(f.name.text));
                                assert(spec_is_tt(f.name.text));
                                assert(f.params.len() == 2);
                                assert(!spec_keymap_dangles(ast@, al.maps[j]));
                                assert(spec_has_layer_name(ast@, f.params[0].text));
                                let li = choose|li: int|
                                    0 <= li < ast@.layers.len() && (#[trigger] ast@.layers[li]).name.text
                                        == f.params[0].text;
                                assert(models[li].name == f.params[0].text);
                                match lr {
                                    LayerRef::ByName(nm) => {
                                        crate::layers::lemma_index_of_name_exists(models, nm@);
                                    },
                                    LayerRef::ByIndex(_) => {
                                        assert(false);
                                    },
                                }
                            },
                            CcModel::Key(_) => {
                                assert(false);
                            },
                        }
                    },
                    _ => {},
                }
            }
        }
        assert(crate::layer_composer::spec_layers_valid(items@));
    }
    match LayerComposer::from_layers(items) {
        Ok(c) => {
            proof {
                assert(spec_lowered_layers(ast@, c@.layers)) by {
                    assert forall|i1: int| 0 <= i1 < c@.layers.len() implies {
                        &&& (#[trigger] c@.layers[i1]).name == ast@.layers[i1].name.text
                        &&& c@.layers[i1].active == spec_layer_active(ast@.layers[i1])
                        &&& spec_layer_map_matches(ast@.layers[i1].maps, c@.layers[i1].map)
                    } by {
                        assert(c@.layers[i1] == items@[i1]@);
                    }
                }
            }
            Ok(c)
        },
        Err(_) => {
            proof {
                assert(false);
            }
            Err(CompileError { pos: 0, kind: CompileErrorKind::LayerValidation })
        },
    }
}

/// Compiles a remap description to a layer composer.
pub fn compile(src: &str) -> (r: Result<LayerComposer, CompileError>)
    ensures
        match r {
            Ok(c) => match spec_parse(src@) {
                Ok(ast) => {
                    &&& spec_analyze_ok(ast)
                    &&& spec_lowered_layers(ast, c@.layers)
                    &&& c@.timers == Map::<KeyCode, u64>::empty()
                    &&& c.clock.pinned is None
                    &&& c.wf()
                },
                Err(_) => false,
            },
            Err(e) => match spec_parse(src@) {
                Err(pe) => (e.pos as int, e.kind) == pe,
                Ok(ast) => match spec_layers_error_from(ast.layers, 0) {
                    Some(pk) => (e.pos as int, e.kind) == pk,
                    None => match spec_refs_error_from(ast, 0) {
                        Some(p) => e.pos as int == p && (e.kind matches
                            CompileErrorKind::DanglingLayerRef { known_layers }
                            && known_layers@.map_values(|s: String| s@) == spec_known_names(
                            ast.layers,
                        )),
                        None => match spec_dup_error_from(ast.layers, 0) {
                            Some(p) => e.pos as int == p && e.kind
                                == CompileErrorKind::LayerValidation,
                            None => false,
                        },
                    },
                },
            },
        },
{
    let ast = match crate::remap::parse::parse(src) {
        Ok(a) => a,
        Err(e) => {
            return Err(e);
        },
    };
    analyze(&ast)
}

} // verus!


