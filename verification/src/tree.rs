//! The save tree as the container codec sees it: the table of type hints
//! that `uesave` reads a tree with, and the JSON text in which a tree goes
//! to the editor and comes back.
//!
//! Reading a tree from data and writing it as data are left to the caller:
//! `uesave` panics on some data and on some trees, and a caller can contain
//! that where this library cannot. The caller reads with the table that
//! [`build_types`] makes and hands what came back to
//! `container::finish_decode`; it writes and hands what came back to
//! `container::finish_encode`.

use crate::error::{
    decode_failure, encode_failure, outcome, spec_decode_failure, spec_encode_failure,
    text_outcome, FormatError,
};
use vstd::prelude::*;
use vstd::string::*;

verus! {

/// A save tree. Its contents are `uesave`'s business.
#[verifier::external_type_specification]
#[verifier::external_body]
pub struct ExSave(uesave::Save);

/// The table in which `uesave` looks up the struct type of a map's keys or
/// values by the path of the property.
#[verifier::external_type_specification]
#[verifier::external_body]
pub struct ExTypes(uesave::Types);

/// The entries of a table: property path to struct type name.
pub uninterp spec fn type_table(types: uesave::Types) -> Map<Seq<char>, Seq<char>>;

/// The JSON text of a tree, or the message of the serializer's failure.
pub uninterp spec fn tree_json(tree: uesave::Save) -> Result<Seq<char>, Seq<char>>;

/// The tree that a JSON text stands for, or the message of the parser's
/// failure.
pub uninterp spec fn json_tree(text: Seq<char>) -> Result<uesave::Save, Seq<char>>;

/// `uesave::Types::new`: a table without entries.
#[verifier::external_body]
fn types_new() -> (types: uesave::Types)
    ensures
        type_table(types) == (Map::<Seq<char>, Seq<char>>::empty()),
{
    uesave::Types::new()
}

/// `uesave::Types::add`, with the struct type made by `StructType::from`:
/// the entry for `path` is set, whether or not there was one. `from` gives
/// different types for different names, so the names stand for the types.
#[verifier::external_body]
fn types_add(types: &mut uesave::Types, path: &str, struct_type: &str)
    ensures
        type_table(*final(types)) == type_table(*old(types)).insert(path@, struct_type@),
{
    types.add(path.to_string(), uesave::StructType::from(struct_type));
}

/// `serde_json::to_string` on a tree.
#[verifier::external_body]
fn tree_to_json(tree: &uesave::Save) -> (r: Result<String, String>)
    ensures
        match r {
            Ok(text) => tree_json(*tree) == Ok::<Seq<char>, Seq<char>>(text@),
            Err(message) => tree_json(*tree) == Err::<Seq<char>, Seq<char>>(message@),
        },
{
    serde_json::to_string(tree).map_err(|e| format!("{}", e))
}

/// `serde_json::from_str` for a tree.
#[verifier::external_body]
fn tree_from_json(text: &str) -> (r: Result<uesave::Save, String>)
    ensures
        match r {
            Ok(tree) => json_tree(text@) == Ok::<uesave::Save, Seq<char>>(tree),
            Err(message) => json_tree(text@) == Err::<uesave::Save, Seq<char>>(message@),
        },
{
    serde_json::from_str::<uesave::Save>(text).map_err(|e| format!("{}", e))
}

/// One type hint: the property at `path` holds structs of type
/// `struct_type`.
#[derive(Debug, PartialEq, Eq)]
pub struct TypeHint {
    pub path: String,
    pub struct_type: String,
}

impl TypeHint {
    pub fn new(path: &str, struct_type: &str) -> (hint: TypeHint)
        ensures
            hint.path@ == path@,
            hint.struct_type@ == struct_type@,
    {
        TypeHint { path: String::from_str(path), struct_type: String::from_str(struct_type) }
    }
}

/// The table that a list of hints makes. Where a path occurs twice, the
/// later hint stands.
pub open spec fn spec_table(hints: Seq<TypeHint>) -> Map<Seq<char>, Seq<char>>
    decreases hints.len(),
{
    if hints.len() == 0 {
        Map::empty()
    } else {
        spec_table(hints.drop_last()).insert(hints.last().path@, hints.last().struct_type@)
    }
}

/// The paths of the Palworld save schema whose maps are keyed by structs.
pub open spec fn palworld_paths() -> Seq<Seq<char>> {
    seq![
        ".worldSaveData.CharacterSaveParameterMap.Key"@,
        ".worldSaveData.FoliageGridSaveDataMap.Key"@,
        ".worldSaveData.FoliageGridSaveDataMap.ModelMap.InstanceDataMap.Key"@,
        ".worldSaveData.MapObjectSpawnerInStageSaveData.Key"@,
        ".worldSaveData.ItemContainerSaveData.Key"@,
        ".worldSaveData.CharacterContainerSaveData.Key"@,
    ]
}

/// The hints of the Palworld save schema: each of its paths is a `Struct`.
pub open spec fn spec_palworld_hints(hints: Seq<TypeHint>) -> bool {
    &&& hints.len() == palworld_paths().len()
    &&& forall|i: int|
        0 <= i < hints.len() ==> (#[trigger] hints[i]).path@ == palworld_paths()[i]
            && hints[i].struct_type@ == "Struct"@
}

/// The hints that a Palworld save is read with.
pub fn palworld_type_hints() -> (hints: Vec<TypeHint>)
    ensures
        spec_palworld_hints(hints@),
        spec_table(hints@) == palworld_table(),
{
    let mut hints: Vec<TypeHint> = Vec::new();
    hints.push(TypeHint::new(".worldSaveData.CharacterSaveParameterMap.Key", "Struct"));
    hints.push(TypeHint::new(".worldSaveData.FoliageGridSaveDataMap.Key", "Struct"));
    hints.push(
        TypeHint::new(
            ".worldSaveData.FoliageGridSaveDataMap.ModelMap.InstanceDataMap.Key",
            "Struct",
        ),
    );
    hints.push(TypeHint::new(".worldSaveData.MapObjectSpawnerInStageSaveData.Key", "Struct"));
    hints.push(TypeHint::new(".worldSaveData.ItemContainerSaveData.Key", "Struct"));
    hints.push(TypeHint::new(".worldSaveData.CharacterContainerSaveData.Key", "Struct"));
    proof {
        lemma_palworld_table(hints@);
    }
    hints
}

/// Builds the codec's table from a list of hints.
pub fn build_types(hints: &Vec<TypeHint>) -> (types: uesave::Types)
    ensures
        type_table(types) == spec_table(hints@),
{
    let mut types = types_new();
    let mut i: usize = 0;
    while i < hints.len()
        invariant
            i <= hints.len(),
            type_table(types) == spec_table(hints@.take(i as int)),
        decreases hints.len() - i,
    {
        let hint = &hints[i];
        types_add(&mut types, hint.path.as_str(), hint.struct_type.as_str());
        proof {
            let next = hints@.take(i + 1);
            assert(next.drop_last() =~= hints@.take(i as int));
            assert(next.last() == hints@[i as int]);
        }
        i = i + 1;
    }
    assert(hints@.take(hints.len() as int) =~= hints@);
    types
}

/// The table of the Palworld save schema.
pub open spec fn palworld_table() -> Map<Seq<char>, Seq<char>> {
    Map::new(|path: Seq<char>| palworld_paths().contains(path), |path: Seq<char>| "Struct"@)
}

/// Hints that all name one struct type make the table that gives that type
/// to each of their paths.
pub proof fn lemma_table_of_uniform_hints(hints: Seq<TypeHint>, struct_type: Seq<char>)
    requires
        forall|i: int| 0 <= i < hints.len() ==> (#[trigger] hints[i]).struct_type@ == struct_type,
    ensures
        spec_table(hints).dom() =~= Set::new(
            |path: Seq<char>| exists|i: int| 0 <= i < hints.len() && (#[trigger] hints[i]).path@ == path,
        ),
        forall|path: Seq<char>| #[trigger]
            spec_table(hints).dom().contains(path) ==> spec_table(hints)[path] == struct_type,
    decreases hints.len(),
{
    if hints.len() > 0 {
        let front = hints.drop_last();
        lemma_table_of_uniform_hints(front, struct_type);
        let paths = Set::new(
            |path: Seq<char>| exists|i: int| 0 <= i < hints.len() && (#[trigger] hints[i]).path@ == path,
        );
        assert forall|path: Seq<char>| spec_table(hints).dom().contains(path) implies paths.contains(
            path,
        ) by {
            if path == hints.last().path@ {
                assert(hints[hints.len() - 1].path@ == path);
            } else {
                let i = choose|i: int| 0 <= i < front.len() && (#[trigger] front[i]).path@ == path;
                assert(hints[i].path@ == path);
            }
        }
        assert forall|path: Seq<char>| paths.contains(path) implies spec_table(hints).dom().contains(
            path,
        ) by {
            let i = choose|i: int| 0 <= i < hints.len() && (#[trigger] hints[i]).path@ == path;
            if i < front.len() {
                assert(front[i].path@ == path);
            }
        }
    }
}

/// The Palworld hints make the Palworld table.
pub proof fn lemma_palworld_table(hints: Seq<TypeHint>)
    requires
        spec_palworld_hints(hints),
    ensures
        spec_table(hints) == palworld_table(),
{
    lemma_table_of_uniform_hints(hints, "Struct"@);
    assert forall|path: Seq<char>| spec_table(hints).dom().contains(path) implies palworld_paths().contains(
        path,
    ) by {
        let i = choose|i: int| 0 <= i < hints.len() && (#[trigger] hints[i]).path@ == path;
        assert(palworld_paths()[i] == path);
    }
    assert forall|path: Seq<char>| palworld_paths().contains(path) implies spec_table(
        hints,
    ).dom().contains(path) by {
        let i = choose|i: int| 0 <= i < palworld_paths().len() && palworld_paths()[i] == path;
        assert(hints[i].path@ == path);
    }
    assert(spec_table(hints) =~= palworld_table());
}

/// The JSON text of a tree, as the editor gets it. A tree that has no
/// JSON text is a `TreeDecodeFailure`.
pub fn tree_to_document(tree: &uesave::Save) -> (r: Result<String, FormatError>)
    ensures
        text_outcome(r) == spec_decode_failure(tree_json(*tree)),
{
    decode_failure(tree_to_json(tree))
}

/// The tree of a JSON text, as the editor hands it back. A text that is no
/// tree is a `TreeEncodeFailure`.
pub fn document_to_tree(text: &str) -> (r: Result<uesave::Save, FormatError>)
    ensures
        outcome(r) == spec_encode_failure(json_tree(text@)),
{
    encode_failure(tree_from_json(text))
}

} // verus!
