//! The run over a schema: which generator takes each declaration, how its output unit is
//! named, which files of an earlier run have gone stale, and the index of the units.
//!
//! A run has three steps, one after the other.  It plans and records one output unit per
//! declaration, in the schema's order; it finds the files in the output folder that no
//! recorded unit accounts for; and it writes the index, whose entries are sorted and so do
//! not depend on the order in which the units were recorded.

use crate::naming::{camel_to_snake, snake_case_of};
use crate::schema::{declaration_kind, kind_of, path_segments, simple_name, Kind};
use crate::text::{
    concat_all, concat_strings, contains_text, lemma_sorted_texts, lemma_text_order_is_total,
    replace, replaced, same_text, sort_texts, sorted_texts, string_texts, text_order,
};
use planus_types::intermediate::{AbsolutePath, DeclarationKind};
use vstd::prelude::*;
use vstd::seq_lib::lemma_sorted_unique;

verus! {

/// The generators, one for each kind of declaration that gets bindings.
#[derive(Clone, Copy, Debug, PartialEq, Eq, Structural)]
pub enum Generator {
    Table,
    Struct,
    Enum,
    Union,
}

/// Why a declaration gets no output unit.
#[derive(Clone, Copy, Debug, PartialEq, Eq, Structural)]
pub enum DriverError {
    /// The declaration's path has no segment, so the declaration has no name.
    EmptyPath,
    /// The declaration is of a kind for which there are no bindings.
    UnsupportedKind,
}

/// What is fixed of a declaration's output unit before its lines are generated.
#[derive(Debug)]
pub struct OutputUnit {
    /// The declaration's simple name, which is the name of its class.
    pub class_name: String,
    /// The name of the file that holds the unit.
    pub file_name: String,
    /// The lines by which the index declares the unit's module and exports all of it.
    pub module_entry: String,
    /// The generator that writes the unit's lines.
    pub generator: Generator,
}

/// The generator for declarations of `kind`, if there is one.
pub open spec fn generator_of(kind: Kind) -> Option<Generator> {
    match kind {
        Kind::Table => Some(Generator::Table),
        Kind::Struct => Some(Generator::Struct),
        Kind::Enum => Some(Generator::Enum),
        Kind::Union => Some(Generator::Union),
        Kind::RpcService => None,
    }
}

/// The name of the file for the declaration `name`.
pub open spec fn file_name_of(name: Seq<char>) -> Seq<char> {
    snake_case_of(name) + ".rs"@
}

/// The index entry for the declaration `name`: a line that declares the module of its file
/// and a line that exports everything from it.
pub open spec fn module_entry_of(name: Seq<char>) -> Seq<char> {
    "mod "@ + snake_case_of(name) + ";\n"@ + "pub use "@ + snake_case_of(name) + "::*;\n"@
}

/// Whether `unit` is the plan for a declaration at a path of `segments` and of `kind`.
pub open spec fn is_plan(
    segments: Seq<Seq<char>>,
    kind: Kind,
    unit: Result<OutputUnit, DriverError>,
) -> bool {
    match unit {
        Ok(unit) => {
            &&& segments.len() > 0
            &&& generator_of(kind) == Some(unit.generator)
            &&& unit.class_name@ == segments.last()
            &&& unit.file_name@ == file_name_of(segments.last())
            &&& unit.module_entry@ == module_entry_of(segments.last())
        },
        Err(DriverError::EmptyPath) => segments.len() == 0,
        Err(DriverError::UnsupportedKind) => segments.len() > 0 && generator_of(kind) is None,
    }
}

/// The generator that takes declarations of `kind`; a kind without bindings is an error.
pub fn select_generator(kind: Kind) -> (generator: Result<Generator, DriverError>)
    ensures
        match generator {
            Ok(generator) => generator_of(kind) == Some(generator),
            Err(error) => error == DriverError::UnsupportedKind && generator_of(kind) is None,
        },
{
    match kind {
        Kind::Table => Ok(Generator::Table),
        Kind::Struct => Ok(Generator::Struct),
        Kind::Enum => Ok(Generator::Enum),
        Kind::Union => Ok(Generator::Union),
        Kind::RpcService => Err(DriverError::UnsupportedKind),
    }
}

/// The plan for the declaration `item_name` of `kind`.
pub fn plan_named(item_name: &str, kind: Kind) -> (unit: Result<OutputUnit, DriverError>)
    ensures
        is_plan(seq![item_name@], kind, unit),
{
    let mut file_name = camel_to_snake(item_name);
    let generator = match select_generator(kind) {
        Ok(generator) => generator,
        Err(error) => {
            return Err(error);
        },
    };

    let mut module_entry = String::from_str("mod ");
    module_entry.append(file_name.as_str());
    module_entry.append(";\n");
    module_entry.append("pub use ");
    module_entry.append(file_name.as_str());
    module_entry.append("::*;\n");
    file_name.append(".rs");

    Ok(OutputUnit { class_name: String::from_str(item_name), file_name, module_entry, generator })
}

/// The plan for the declaration at `path` whose body is `kind`.
pub fn plan_unit(path: &AbsolutePath, kind: &DeclarationKind) -> (unit: Result<
    OutputUnit,
    DriverError,
>)
    ensures
        is_plan(path_segments(*path), declaration_kind(*kind), unit),
{
    match simple_name(path) {
        Some(item_name) => plan_named(item_name, kind_of(kind)),
        None => Err(DriverError::EmptyPath),
    }
}

/// The wire-format code `generated` after its edits: the project's name is spelled `RLBot`,
/// and no type derives the traits of `serde`.
pub open spec fn patched_wire_code(generated: Seq<char>) -> Seq<char> {
    replaced(
        replaced(replaced(generated, "RlBot"@, "RLBot"@), "::serde::Serialize,"@, ""@),
        "::serde::Deserialize,"@,
        ""@,
    )
}

/// Edits the wire-format code before it is written.
pub fn patch_wire_code(generated: &str) -> (patched: String)
    ensures
        patched@ == patched_wire_code(generated@),
{
    proof {
        reveal_strlit("RlBot");
        reveal_strlit("::serde::Serialize,");
        reveal_strlit("::serde::Deserialize,");
    }
    let renamed = replace(generated, "RlBot", "RLBot");
    let without_serialize = replace(renamed.as_str(), "::serde::Serialize,", "");
    replace(without_serialize.as_str(), "::serde::Deserialize,", "")
}

/// Whether a file is stale: none of the `generated` files has its name.
pub open spec fn is_stale(generated: Seq<Seq<char>>) -> spec_fn(Seq<char>) -> bool {
    |file: Seq<char>| !generated.contains(file)
}

/// The files among `existing` that are stale, in the order of `existing`.
pub open spec fn stale(existing: Seq<Seq<char>>, generated: Seq<Seq<char>>) -> Seq<Seq<char>> {
    existing.filter(is_stale(generated))
}

/// What a run has recorded.
pub struct Recorded {
    /// The index entries of the recorded units, in the order of recording.
    pub module_entries: Seq<Seq<char>>,
    /// The class names of the recorded units, in the order of recording.
    pub class_names: Seq<Seq<char>>,
    /// The names of the files that the run accounts for: the index first, then the files of
    /// the recorded units.
    pub files: Seq<Seq<char>>,
}

/// The record of a run that is planning its units.
pub struct Outputs {
    python_mod: Vec<String>,
    class_names: Vec<String>,
    python_files: Vec<String>,
}

/// The record of a run that has planned its last unit: nothing is recorded any more, the
/// stale files are found and the index is written.
pub struct Emitted {
    python_mod: Vec<String>,
    class_names: Vec<String>,
    python_files: Vec<String>,
}

/// What a run hands on when it ends.
#[derive(Debug)]
pub struct Aggregate {
    /// The text of the index file.
    pub module_index: String,
    /// The class names of all units, in the order of the schema.
    pub class_names: Vec<String>,
}

impl View for Outputs {
    type V = Recorded;

    closed spec fn view(&self) -> Recorded {
        Recorded {
            module_entries: string_texts(self.python_mod@),
            class_names: string_texts(self.class_names@),
            files: string_texts(self.python_files@),
        }
    }
}

impl View for Emitted {
    type V = Recorded;

    closed spec fn view(&self) -> Recorded {
        Recorded {
            module_entries: string_texts(self.python_mod@),
            class_names: string_texts(self.class_names@),
            files: string_texts(self.python_files@),
        }
    }
}

impl Outputs {
    /// The record of a run that has not planned a unit yet: it accounts for the index alone.
    pub fn new() -> (outputs: Self)
        ensures
            outputs@.module_entries == Seq::<Seq<char>>::empty(),
            outputs@.class_names == Seq::<Seq<char>>::empty(),
            outputs@.files == seq!["mod.rs"@],
    {
        let mut python_files = Vec::new();
        python_files.push(String::from_str("mod.rs"));
        Outputs { python_mod: Vec::new(), class_names: Vec::new(), python_files }
    }

    /// Records `unit` after the units recorded before.
    pub fn record(&mut self, unit: OutputUnit)
        ensures
            final(self)@.module_entries == old(self)@.module_entries.push(unit.module_entry@),
            final(self)@.class_names == old(self)@.class_names.push(unit.class_name@),
            final(self)@.files == old(self)@.files.push(unit.file_name@),
    {
        self.class_names.push(unit.class_name);
        self.python_mod.push(unit.module_entry);
        self.python_files.push(unit.file_name);
    }

    /// Ends the planning: what was recorded stays as it is.
    pub fn finish(self) -> (emitted: Emitted)
        ensures
            emitted@ == self@,
    {
        Emitted {
            python_mod: self.python_mod,
            class_names: self.class_names,
            python_files: self.python_files,
        }
    }
}

impl Emitted {
    /// The files among `existing`, the files found in the output folder, that this run does
    /// not account for, in the order of `existing`.
    pub fn stale_files(&self, existing: &Vec<String>) -> (stale_files: Vec<String>)
        ensures
            string_texts(stale_files@) == stale(string_texts(existing@), self@.files),
    {
        let ghost found = string_texts(existing@);
        let ghost generated = self@.files;
        let mut stale_files: Vec<String> = Vec::new();
        let mut i: usize = 0;
        while i < existing.len()
            invariant
                i <= existing.len(),
                found == string_texts(existing@),
                generated == self@.files,
                string_texts(stale_files@) == stale(found.take(i as int), generated),
            decreases existing.len() - i,
        {
            proof {
                assert(found.take(i + 1) =~= found.take(i as int) + seq![found[i as int]]);
                Seq::filter_distributes_over_add(
                    found.take(i as int),
                    seq![found[i as int]],
                    is_stale(generated),
                );
                reveal_with_fuel(Seq::filter, 2);
                assert(seq![found[i as int]].drop_last() =~= Seq::<Seq<char>>::empty());
            }
            if !contains_text(&self.python_files, existing[i].as_str()) {
                stale_files.push(existing[i].clone());
            }
            i += 1;
        }
        proof {
            assert(found.take(existing.len() as int) =~= found);
        }
        stale_files
    }

    /// Ends the run.  The index holds the entries of the recorded units in ascending order,
    /// one after the other; the class names stay in the order of recording.
    pub fn aggregate(self) -> (aggregate: Aggregate)
        ensures
            aggregate.module_index@ == concat_all(sorted_texts(self@.module_entries)),
            string_texts(aggregate.class_names@) == self@.class_names,
    {
        let mut python_mod = self.python_mod;
        sort_texts(&mut python_mod);
        Aggregate { module_index: concat_strings(&python_mod), class_names: self.class_names }
    }
}

/// The stale files are the existing files that are not generated.
pub proof fn lemma_stale_files(existing: Seq<Seq<char>>, generated: Seq<Seq<char>>, file: Seq<char>)
    ensures
        stale(existing, generated).contains(file) <==> existing.contains(file)
            && !generated.contains(file),
    decreases existing.len(),
{
    reveal_with_fuel(Seq::filter, 2);
    if existing.len() > 0 {
        let rest = existing.drop_last();
        let last = existing.last();
        lemma_stale_files(rest, generated, file);
        assert(existing =~= rest.push(last));
        assert(existing.contains(file) <==> rest.contains(file) || last == file) by {
            if rest.contains(file) {
                let i = choose|i: int| 0 <= i < rest.len() && rest[i] == file;
                assert(existing[i] == file);
            }
            if last == file {
                assert(existing[existing.len() - 1] == file);
            }
        }
        let kept = stale(rest, generated);
        if is_stale(generated)(last) {
            assert(stale(existing, generated) == kept.push(last));
            assert(kept.push(last).contains(file) <==> kept.contains(file) || last == file) by {
                if kept.contains(file) {
                    let i = choose|i: int| 0 <= i < kept.len() && kept[i] == file;
                    assert(kept.push(last)[i] == file);
                }
                if last == file {
                    assert(kept.push(last)[kept.len() as int] == file);
                }
            }
        } else {
            assert(stale(existing, generated) == kept);
        }
    }
}

/// Once the stale files are removed, the output folder holds, of the files found in it,
/// exactly those that the run accounts for.  Where the folder held every file that the run
/// accounts for, it then holds those files and no other.
pub proof fn lemma_prune_leaves_generated(existing: Seq<Seq<char>>, generated: Seq<Seq<char>>)
    ensures
        forall|file: Seq<char>|
            existing.contains(file) && !(#[trigger] stale(existing, generated).contains(file))
                <==> existing.contains(file) && generated.contains(file),
        (forall|file: Seq<char>| #[trigger] generated.contains(file) ==> existing.contains(file))
            ==> forall|file: Seq<char>|
            existing.contains(file) && !(#[trigger] stale(existing, generated).contains(file))
                <==> generated.contains(file),
{
    assert forall|file: Seq<char>|
        existing.contains(file) && !(#[trigger] stale(existing, generated).contains(file))
            <==> existing.contains(file) && generated.contains(file) by {
        lemma_stale_files(existing, generated, file);
    }
}

/// The index does not depend on the order in which the units were recorded: two runs that
/// recorded the same entries, each as often as the other, write the same index.
pub proof fn lemma_index_ignores_recording_order(
    entries: Seq<Seq<char>>,
    reordered: Seq<Seq<char>>,
)
    requires
        entries.to_multiset() == reordered.to_multiset(),
    ensures
        sorted_texts(entries) == sorted_texts(reordered),
        concat_all(sorted_texts(entries)) == concat_all(sorted_texts(reordered)),
{
    lemma_text_order_is_total();
    lemma_sorted_texts(entries);
    lemma_sorted_texts(reordered);
    lemma_sorted_unique(sorted_texts(entries), sorted_texts(reordered), text_order());
}

/// The declarations whose bindings cannot be changed once they are constructed.
pub const FROZEN_TYPES: [&'static str; 26] = [
    "ControllableInfo",
    "ControllableTeamInfo",
    "PredictionSlice",
    "BallPrediction",
    "GoalInfo",
    "BoostPad",
    "FieldInfo",
    "Physics",
    "GamePacket",
    "PlayerInfo",
    "ScoreInfo",
    "BallInfo",
    "Touch",
    "CollisionShape",
    "BoxShape",
    "SphereShape",
    "CylinderShape",
    "BoostPadState",
    "MatchInfo",
    "TeamInfo",
    "Vector2",
    "CoreMessage",
    "InterfaceMessage",
    "CorePacket",
    "InterfacePacket",
    "PlayerInput",
];

/// Whether `name` is one of the frozen types.
pub open spec fn is_frozen_type(name: Seq<char>) -> bool {
    exists|i: int| 0 <= i < 26 && #[trigger] FROZEN_TYPES@[i]@ == name
}

/// Whether the bindings of the declaration `name` cannot be changed after construction.
pub fn is_frozen(name: &str) -> (frozen: bool)
    ensures
        frozen == is_frozen_type(name@),
{
    let mut i: usize = 0;
    while i < 26
        invariant
            i <= 26,
            forall|j: int| 0 <= j < i ==> #[trigger] FROZEN_TYPES@[j]@ != name@,
        decreases 26 - i,
    {
        if same_text(FROZEN_TYPES[i], name) {
            return true;
        }
        i += 1;
    }
    false
}

} // verus!
