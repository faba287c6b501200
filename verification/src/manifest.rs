//! The manifest patch: the generated `Cargo.toml` gets a fresh
//! `[dependencies]` table that holds `burn` alone, pinned and with the
//! features of the chosen backend.
//!
//! The document itself is a `toml_edit::DocumentMut`. What this module needs
//! to know of one is named by a handful of uninterpreted functions, and the
//! contracts of the few `toml_edit` calls are stated over them.

use vstd::prelude::*;
use crate::backend::Backends;

verus! {

/// `toml_edit::DocumentMut`: a parsed manifest. Nothing of it is seen here
/// but through the functions below.
#[verifier::external_type_specification]
#[verifier::external_body]
pub struct ExDocumentMut(toml_edit::DocumentMut);

/// `toml_edit::TomlError`: why a text is no TOML document.
#[verifier::external_type_specification]
#[verifier::external_body]
pub struct ExTomlError(toml_edit::TomlError);

/// `toml_edit::Array`: an array of TOML values.
#[verifier::external_type_specification]
#[verifier::external_body]
pub struct ExArray(toml_edit::Array);

/// What a key of a dependency holds, as far as the patch is concerned.
pub enum EntryModel {
    Text(Seq<char>),
    List(Seq<Seq<char>>),
    Flag(bool),
}

/// Why a manifest could not be patched.
#[derive(Debug)]
pub enum PatchError {
    /// The manifest could not be read; the payload is the system's message.
    Read(String),
    /// The manifest is not a TOML document; the payload is the parser's message.
    Parse(String),
    /// The patched manifest could not be written back.
    Write(String),
}

/// The document that `toml_edit` parses from a text, if it accepts the text.
pub uninterp spec fn parsed_document(text: Seq<char>) -> Option<toml_edit::DocumentMut>;

/// Whether the root item of a document is a table. A parsed document has
/// one; `DocumentMut::as_item_mut` lets a caller put anything in its place,
/// and then neither indexing by key nor serialising works.
pub uninterp spec fn has_table_root(doc: toml_edit::DocumentMut) -> bool;

/// The text a document serialises to.
pub uninterp spec fn document_text(doc: toml_edit::DocumentMut) -> Seq<char>;

/// Each key of the root table with its item as text (`Item::to_string`):
/// the plain keys of the document and its top-level tables, with all they
/// hold.
pub uninterp spec fn top_level(doc: toml_edit::DocumentMut) -> Map<Seq<char>, Seq<char>>;

/// The keys under which the table `doc[section]` holds something. Empty
/// where there is no such table.
pub uninterp spec fn section_keys(doc: toml_edit::DocumentMut, section: Seq<char>) -> Set<
    Seq<char>,
>;

/// The keys of `doc[section][entry]` that hold a string, an array or a
/// boolean, each with its value; an array stands here as [`array_texts`] has
/// it. Empty where there is no such entry.
pub uninterp spec fn entries_of(
    doc: toml_edit::DocumentMut,
    section: Seq<char>,
    entry: Seq<char>,
) -> Map<Seq<char>, EntryModel>;

/// The document position of each top-level table that has been given one.
pub uninterp spec fn positions_of(doc: toml_edit::DocumentMut) -> Map<Seq<char>, nat>;

/// The top-level keys that hold a table each of whose entries is a table, an
/// inline table or empty: below those, indexing by key never fails.
pub uninterp spec fn open_sections(doc: toml_edit::DocumentMut) -> Set<Seq<char>>;

/// The values of an array, in order, each string by its characters. What
/// stands for a value that is no string is left open: the contracts below
/// hold of every array, and this library fills its arrays with strings.
pub uninterp spec fn array_texts(array: toml_edit::Array) -> Seq<Seq<char>>;

/// Whether `toml_edit` accepts the text as a TOML document.
pub open spec fn toml_parses(text: Seq<char>) -> bool {
    parsed_document(text) is Some
}

/// `str::parse::<toml_edit::DocumentMut>`: the outcome depends on the text
/// alone and is named by [`parsed_document`]. The parser builds the document
/// around a root table.
#[verifier::external_body]
fn parse_document(text: &str) -> (parsed: Result<toml_edit::DocumentMut, toml_edit::TomlError>)
    ensures
        parsed matches Ok(doc) ==> parsed_document(text@) == Some(doc) && has_table_root(doc),
        parsed is Err ==> parsed_document(text@).is_none(),
{
    text.parse::<toml_edit::DocumentMut>()
}

/// `ToString::to_string` on a `toml_edit::TomlError`: the parser's message.
/// Nothing is claimed of it.
#[verifier::external_body]
fn parse_error_text(error: &toml_edit::TomlError) -> (message: String) {
    error.to_string()
}

/// `ToString::to_string` on a `toml_edit::DocumentMut`: the document as text.
/// Serialising walks the root table, so the root has to be one.
#[verifier::external_body]
fn serialize_document(doc: &toml_edit::DocumentMut) -> (text: String)
    requires
        has_table_root(*doc),
    ensures
        text@ == document_text(*doc),
{
    doc.to_string()
}

/// What a change below `doc[section]` leaves alone: the root stays a table,
/// and every other key of the root keeps its item.
pub open spec fn rest_kept(
    before: toml_edit::DocumentMut,
    after: toml_edit::DocumentMut,
    section: Seq<char>,
) -> bool {
    &&& has_table_root(after)
    &&& top_level(after).remove(section) == top_level(before).remove(section)
}

/// `Table::new`, `Table::set_position` and the assignment of the table to
/// `doc[section]`: the section becomes an empty table at the given position,
/// whatever the key held before. Indexing a root table inserts a missing
/// key; a root that is no table cannot be indexed, hence the demand. Other
/// keys of the root are not touched.
#[verifier::external_body]
fn reset_section(doc: &mut toml_edit::DocumentMut, section: &str, position: usize)
    requires
        has_table_root(*old(doc)),
    ensures
        has_table_root(*final(doc)),
        top_level(*final(doc)).remove(section@) == top_level(*old(doc)).remove(section@),
        positions_of(*final(doc)) == positions_of(*old(doc)).insert(section@, position as nat),
        open_sections(*final(doc)) == open_sections(*old(doc)).insert(section@),
        section_keys(*final(doc), section@) == Set::<Seq<char>>::empty(),
        (forall|entry: Seq<char>| #[trigger]
            entries_of(*final(doc), section@, entry) == no_entries()),
{
    let mut table = toml_edit::Table::new();
    table.set_position(position);
    doc[section] = toml_edit::Item::Table(table);
}

/// `toml_edit::Array::new`: an array without values.
#[verifier::external_body]
fn new_array() -> (array: toml_edit::Array)
    ensures
        array_texts(array) == Seq::<Seq<char>>::empty(),
{
    toml_edit::Array::new()
}

/// `toml_edit::Array::push` with a string: the string becomes the last value
/// of the array, and the values before it stay.
#[verifier::external_body]
fn push_text(array: &mut toml_edit::Array, text: &str)
    ensures
        array_texts(*final(array)) == array_texts(*old(array)).push(text@),
{
    array.push(text);
}

/// What an assignment to `doc[section][entry][key]` does: the key holds the
/// value afterwards, whatever it held before, and the section holds the
/// entry, which is created as an inline table where it was absent; so the
/// section stays one below which indexing never fails. No table's position
/// changes, and nothing outside the section.
pub open spec fn entry_written(
    before: toml_edit::DocumentMut,
    after: toml_edit::DocumentMut,
    section: Seq<char>,
    entry: Seq<char>,
    key: Seq<char>,
    value: EntryModel,
) -> bool {
    &&& rest_kept(before, after, section)
    &&& positions_of(after) == positions_of(before)
    &&& open_sections(after) == open_sections(before)
    &&& section_keys(after, section) == section_keys(before, section).insert(entry)
    &&& entries_of(after, section, entry) == entries_of(before, section, entry).insert(key, value)
}

/// `doc[section][entry][key] = toml_edit::value(text)`, see
/// [`entry_written`]. Indexing fails on an entry that holds a plain value or
/// an array of tables, hence the demand on the section.
#[verifier::external_body]
fn set_text(doc: &mut toml_edit::DocumentMut, section: &str, entry: &str, key: &str, text: &str)
    requires
        has_table_root(*old(doc)),
        open_sections(*old(doc)).contains(section@),
    ensures
        entry_written(*old(doc), *final(doc), section@, entry@, key@, EntryModel::Text(text@)),
{
    doc[section][entry][key] = toml_edit::value(text);
}

/// `doc[section][entry][key] = toml_edit::value(Value::Array(array))`, see
/// [`entry_written`]; the same demands as in [`set_text`]. The array is
/// stored as it is, whatever its values are.
#[verifier::external_body]
fn set_array(
    doc: &mut toml_edit::DocumentMut,
    section: &str,
    entry: &str,
    key: &str,
    array: toml_edit::Array,
)
    requires
        has_table_root(*old(doc)),
        open_sections(*old(doc)).contains(section@),
    ensures
        entry_written(
            *old(doc),
            *final(doc),
            section@,
            entry@,
            key@,
            EntryModel::List(array_texts(array)),
        ),
{
    doc[section][entry][key] = toml_edit::value(toml_edit::Value::Array(array));
}

/// `doc[section][entry][key] = toml_edit::value(flag)`, see
/// [`entry_written`]; the same demands as in [`set_text`].
#[verifier::external_body]
fn set_flag(doc: &mut toml_edit::DocumentMut, section: &str, entry: &str, key: &str, flag: bool)
    requires
        has_table_root(*old(doc)),
        open_sections(*old(doc)).contains(section@),
    ensures
        entry_written(*old(doc), *final(doc), section@, entry@, key@, EntryModel::Flag(flag)),
{
    doc[section][entry][key] = toml_edit::value(flag);
}

/// A dependency without any entry.
pub open spec fn no_entries() -> Map<Seq<char>, EntryModel> {
    Map::empty()
}

/// The features of `burn` that every generated project enables, followed by
/// the feature of the chosen backend.
pub open spec fn feature_list(backend: Backends) -> Seq<Seq<char>> {
    seq!["std"@, "tui"@, "train"@, "fusion"@, backend.feature()]
}

/// What the patch writes for `burn`: the pinned version, the feature list and
/// `default-features = false`.
pub open spec fn burn_entries(backend: Backends) -> Map<Seq<char>, EntryModel> {
    no_entries().insert("version"@, EntryModel::Text("0.18.0"@)).insert(
        "features"@,
        EntryModel::List(feature_list(backend)),
    ).insert("default-features"@, EntryModel::Flag(false))
}

/// A patched document: `[dependencies]` is a table at position 1 whose only
/// key is `burn`, and `burn` holds exactly the entries of [`burn_entries`].
pub open spec fn is_patched(doc: toml_edit::DocumentMut, backend: Backends) -> bool {
    &&& has_table_root(doc)
    &&& positions_of(doc).contains_key("dependencies"@)
    &&& positions_of(doc)["dependencies"@] == 1
    &&& section_keys(doc, "dependencies"@) == Set::<Seq<char>>::empty().insert("burn"@)
    &&& entries_of(doc, "dependencies"@, "burn"@) == burn_entries(backend)
}

/// What the patch makes of a document: a patched one, in which every key and
/// table of the root but `dependencies` is as it was, and every table but
/// `dependencies` has the position it had.
pub open spec fn patch_relates(
    before: toml_edit::DocumentMut,
    after: toml_edit::DocumentMut,
    backend: Backends,
) -> bool {
    &&& is_patched(after, backend)
    &&& rest_kept(before, after, "dependencies"@)
    &&& positions_of(after) == positions_of(before).insert("dependencies"@, 1)
}

/// What the patch makes of a text: the text of the document that the patch
/// makes of the parsed one.
pub open spec fn patch_outcome(text: Seq<char>, output: Seq<char>, backend: Backends) -> bool {
    parsed_document(text) matches Some(before) && exists|after: toml_edit::DocumentMut|
        patch_relates(before, after, backend) && output == #[trigger] document_text(after)
}

/// The feature list of `burn` for a backend: `std`, `tui`, `train`, `fusion`
/// and the backend's own feature, in this order.
pub fn manifest_features(backend: Backends) -> (features: toml_edit::Array)
    ensures
        array_texts(features) == feature_list(backend),
{
    let mut features = new_array();
    push_text(&mut features, "std");
    push_text(&mut features, "tui");
    push_text(&mut features, "train");
    push_text(&mut features, "fusion");
    push_text(&mut features, backend.as_feature());
    assert(array_texts(features) =~= feature_list(backend));
    features
}

/// Replaces the `[dependencies]` table of a manifest by one that holds
/// `burn` alone and gives it position 1, the place right after the first
/// table. Whatever the table held before is gone; everything else in the
/// document is kept. The document has to have a table as its root, as every
/// parsed one has.
pub fn patch_document(doc: &mut toml_edit::DocumentMut, backend: Backends)
    requires
        has_table_root(*old(doc)),
    ensures
        patch_relates(*old(doc), *final(doc), backend),
{
    reset_section(doc, "dependencies", 1);
    set_text(doc, "dependencies", "burn", "version", "0.18.0");
    set_array(doc, "dependencies", "burn", "features", manifest_features(backend));
    set_flag(doc, "dependencies", "burn", "default-features", false);
    assert(section_keys(*doc, "dependencies"@) =~= Set::<Seq<char>>::empty().insert("burn"@));
    assert(top_level(*doc).remove("dependencies"@) == top_level(*old(doc)).remove(
        "dependencies"@,
    ));
}

/// Patches the text of a manifest. Fails with [`PatchError::Parse`] exactly
/// when the text is not a TOML document; otherwise the result is the text of
/// the document that [`patch_document`] makes of the parsed one.
pub fn patch_manifest(text: &str, backend: Backends) -> (patched: Result<String, PatchError>)
    ensures
        patched is Ok <==> toml_parses(text@),
        patched matches Ok(output) ==> patch_outcome(text@, output@, backend),
        patched matches Err(error) ==> error is Parse,
{
    match parse_document(text) {
        Ok(mut doc) => {
            patch_document(&mut doc, backend);
            Ok(serialize_document(&doc))
        },
        Err(error) => Err(PatchError::Parse(parse_error_text(&error))),
    }
}

/// Patching is idempotent on what it writes: however often a document has
/// been patched for a backend, and whatever it held before, `burn` holds the
/// same entries, and its feature list is the one of [`feature_list`].
pub proof fn lemma_repatch_keeps_features(
    once: toml_edit::DocumentMut,
    twice: toml_edit::DocumentMut,
    backend: Backends,
)
    requires
        is_patched(once, backend),
        is_patched(twice, backend),
    ensures
        entries_of(once, "dependencies"@, "burn"@) == entries_of(twice, "dependencies"@, "burn"@),
        entries_of(twice, "dependencies"@, "burn"@)["features"@] == EntryModel::List(
            feature_list(backend),
        ),
{
    reveal_strlit("features");
    reveal_strlit("default-features");
    assert("features"@.len() != "default-features"@.len());
}

/// The same of texts: where the text that one patch wrote is patched again,
/// both texts are those of documents in which `burn` holds the same entries,
/// with the feature list of [`feature_list`]. That the first text parses
/// again is part of the premise: the second outcome says so.
pub proof fn lemma_repatch_text_keeps_features(
    text: Seq<char>,
    first: Seq<char>,
    second: Seq<char>,
    backend: Backends,
)
    requires
        patch_outcome(text, first, backend),
        patch_outcome(first, second, backend),
    ensures
        exists|once: toml_edit::DocumentMut, twice: toml_edit::DocumentMut|
            #![trigger document_text(once), document_text(twice)]
            first == document_text(once) && second == document_text(twice) && is_patched(
                once,
                backend,
            ) && is_patched(twice, backend) && entries_of(once, "dependencies"@, "burn"@)
                == entries_of(twice, "dependencies"@, "burn"@) && entries_of(
                twice,
                "dependencies"@,
                "burn"@,
            )["features"@] == EntryModel::List(feature_list(backend)),
{
    let before = parsed_document(text)->Some_0;
    let once = choose|after: toml_edit::DocumentMut|
        patch_relates(before, after, backend) && first == #[trigger] document_text(after);
    let parsed = parsed_document(first)->Some_0;
    let twice = choose|after: toml_edit::DocumentMut|
        patch_relates(parsed, after, backend) && second == #[trigger] document_text(after);
    lemma_repatch_keeps_features(once, twice, backend);
}

} // verus!
