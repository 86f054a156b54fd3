//! Project descriptors: JSON documents whose `Modules` array names the
//! project's code modules.
use crate::text::owned;
use vstd::prelude::*;

verus! {

#[verifier::external_type_specification]
#[verifier::external_body]
pub struct ExJsonValue(serde_json::Value);

#[verifier::external_type_specification]
#[verifier::external_body]
pub struct ExJsonError(serde_json::Error);

/// Whether `text` is a JSON document.
pub uninterp spec fn json_parses(text: Seq<char>) -> bool;

/// The `Name` of each entry of the document's `Modules` array, in order
/// (`None` for an entry without a string `Name`); empty when the document
/// has no such array.
pub uninterp spec fn module_names_of(doc: serde_json::Value) -> Seq<Option<Seq<char>>>;

/// The module names (as `module_names_of` gives them) of the document that
/// `text` parses to.
pub uninterp spec fn json_text_module_names(text: Seq<char>) -> Seq<Option<Seq<char>>>;

/// The compact JSON text of a document.
pub uninterp spec fn json_text_of(doc: serde_json::Value) -> Seq<char>;

/// Relies on `serde_json::from_str`, which fails exactly on text that is
/// not JSON.
#[verifier::external_body]
pub(crate) fn parse_json(text: &str) -> (r: Result<serde_json::Value, serde_json::Error>)
    ensures
        r is Ok <==> json_parses(text@),
        r is Ok ==> module_names_of(r->Ok_0) == json_text_module_names(text@),
{
    serde_json::from_str(text)
}

/// Relies on `serde_json::Value::get`: the length of the `Modules` array,
/// 0 when there is none.
#[verifier::external_body]
pub(crate) fn json_module_count(doc: &serde_json::Value) -> (r: usize)
    ensures
        r == module_names_of(*doc).len(),
{
    match doc.get("Modules") {
        Some(serde_json::Value::Array(modules)) => modules.len(),
        _ => 0,
    }
}

/// Relies on `serde_json::Value::get`: the string `Name` of the entry at
/// `index` of `Modules`.
#[verifier::external_body]
pub(crate) fn json_module_name(doc: &serde_json::Value, index: usize) -> (r: Option<String>)
    requires
        index < module_names_of(*doc).len(),
    ensures
        r is Some <==> module_names_of(*doc)[index as int] is Some,
        r is Some ==> module_names_of(*doc)[index as int] == Some(r->Some_0@),
{
    match doc.get("Modules") {
        Some(serde_json::Value::Array(modules)) => match modules[index].get("Name") {
            Some(serde_json::Value::String(name)) => Some(name.clone()),
            _ => None,
        },
        _ => None,
    }
}

/// Relies on `serde_json::Value::get_mut` and `IndexMut`: the `Name` of the
/// entry at `index` of `Modules`, an object since it has a string `Name`,
/// is replaced and nothing else changes.
#[verifier::external_body]
pub(crate) fn set_json_module_name(doc: &mut serde_json::Value, index: usize, name: &str)
    requires
        index < module_names_of(*old(doc)).len(),
        module_names_of(*old(doc))[index as int] is Some,
    ensures
        module_names_of(*final(doc)) == module_names_of(*old(doc)).update(index as int, Some(name@)),
{
    if let Some(serde_json::Value::Array(modules)) = doc.get_mut("Modules") {
        if let Some(module) = modules.get_mut(index) {
            module["Name"] = serde_json::Value::String(name.to_string());
        }
    }
}

/// Relies on `serde_json::Value`'s `to_string`, which prints the document
/// as compact JSON.
#[verifier::external_body]
pub(crate) fn json_text(doc: &serde_json::Value) -> (r: String)
    ensures
        r@ == json_text_of(*doc),
{
    doc.to_string()
}

/// The index of the first entry of `names` equal to `Some(name)`, or -1.
pub open spec fn first_named(names: Seq<Option<Seq<char>>>, name: Seq<char>) -> int
    decreases names.len(),
{
    if names.len() == 0 {
        -1
    } else {
        let f = first_named(names.drop_last(), name);
        if f >= 0 {
            f
        } else if names.last() == Some(name) {
            names.len() - 1
        } else {
            -1
        }
    }
}

/// `names` with the first entry equal to `Some(old_name)` renamed to
/// `new_name`; unchanged when there is none.
pub open spec fn first_renamed(names: Seq<Option<Seq<char>>>, old_name: Seq<char>, new_name: Seq<char>) -> Seq<Option<Seq<char>>> {
    let i = first_named(names, old_name);
    if i >= 0 {
        names.update(i, Some(new_name))
    } else {
        names
    }
}

proof fn lemma_first_named(names: Seq<Option<Seq<char>>>, name: Seq<char>, i: int)
    requires
        0 <= i <= names.len(),
        forall|k: int| 0 <= k < i ==> names[k] != Some(name),
    ensures
        i < names.len() && names[i] == Some(name) ==> first_named(names, name) == i,
        i == names.len() ==> first_named(names, name) == -1,
    decreases names.len(),
{
    if names.len() > 0 {
        if i < names.len() {
            if names[i] == Some(name) {
                lemma_first_named(names.drop_last(), name, i);
            }
        } else {
            lemma_first_named(names.drop_last(), name, i - 1);
        }
    }
}

/// Renames the first module named `old_name` in the descriptor to
/// `new_name`; the other modules keep their names.
pub fn rename_first_module(doc: &mut serde_json::Value, old_name: &str, new_name: &str)
    ensures
        module_names_of(*final(doc)) == first_renamed(module_names_of(*old(doc)), old_name@, new_name@),
{
    let n = json_module_count(doc);
    let ghost before = module_names_of(*doc);
    let wanted = owned(old_name);
    let mut i: usize = 0;
    while i < n
        invariant
            i <= n == before.len(),
            before == module_names_of(*doc),
            before == module_names_of(*old(doc)),
            wanted@ == old_name@,
            forall|k: int| 0 <= k < i ==> before[k] != Some(old_name@),
        decreases n - i,
    {
        let found = match json_module_name(doc, i) {
            Some(name) => name == wanted,
            None => false,
        };
        if found {
            proof {
                lemma_first_named(before, old_name@, i as int);
            }
            set_json_module_name(doc, i, new_name);
            return;
        }
        i = i + 1;
    }
    proof {
        lemma_first_named(before, old_name@, i as int);
    }
}

/// The descriptor `text` with its first module named `old_name` renamed
/// to `new_name`, printed as compact JSON; `None` when `text` is not JSON.
pub fn rename_module_in_descriptor(text: &str, old_name: &str, new_name: &str) -> (r: Option<String>)
    ensures
        r is Some <==> json_parses(text@),
        r matches Some(t) ==> exists|d: serde_json::Value|
            #[trigger] json_text_of(d) == t@ && module_names_of(d) == first_renamed(
                json_text_module_names(text@),
                old_name@,
                new_name@,
            ),
{
    match parse_json(text) {
        Ok(mut doc) => {
            rename_first_module(&mut doc, old_name, new_name);
            let t = json_text(&doc);
            assert(json_text_of(doc) == t@);
            Some(t)
        },
        Err(_) => None,
    }
}

} // verus!
