//! INI documents: sections of key/value entries, where a key may repeat to
//! hold several values.
use vstd::prelude::*;

verus! {

#[verifier::external_type_specification]
#[verifier::external_body]
pub struct ExIni(ini::Ini);

#[verifier::external_type_specification]
#[verifier::external_body]
pub struct ExParseError(ini::ParseError);

/// The names of the sections of a document (`None` is the general section).
pub uninterp spec fn ini_sections(doc: ini::Ini) -> Set<Option<Seq<char>>>;

/// The values of each key, in order, in the first section of each name. A
/// section and key with no value are not in the domain.
pub uninterp spec fn ini_values(doc: ini::Ini) -> Map<(Option<Seq<char>>, Seq<char>), Seq<Seq<char>>>;

/// Whether `text` is a well-formed INI document.
pub uninterp spec fn ini_parses(text: Seq<char>) -> bool;

/// The values (as `ini_values` gives them) of the document that `text`
/// parses to.
pub uninterp spec fn ini_text_values(text: Seq<char>) -> Map<(Option<Seq<char>>, Seq<char>), Seq<Seq<char>>>;

/// The text that a document is written as.
pub uninterp spec fn ini_text_of(doc: ini::Ini) -> Seq<char>;

/// Every key with values lies in a section that exists.
pub open spec fn ini_consistent(doc: ini::Ini) -> bool {
    forall|sk: (Option<Seq<char>>, Seq<char>)|
        #[trigger] ini_values(doc).contains_key(sk) ==> ini_sections(doc).contains(sk.0)
}

/// Relies on `ini::Ini::load_from_str_opt`, with quotes and backslashes
/// kept as written, so that untouched values are written back unchanged.
#[verifier::external_body]
pub(crate) fn parse_ini(text: &str) -> (r: Result<ini::Ini, ini::ParseError>)
    ensures
        r is Ok <==> ini_parses(text@),
        r is Ok ==> ini_consistent(r->Ok_0),
        r is Ok ==> ini_values(r->Ok_0) == ini_text_values(text@),
{
    let opt = ini::ParseOption { enabled_quote: false, enabled_escape: false };
    ini::Ini::load_from_str_opt(text, opt)
}

/// Relies on `ini::Ini::write_to_opt`, escaping nothing, so that values are
/// written as they are held.
#[verifier::external_body]
pub(crate) fn ini_to_text(doc: &ini::Ini) -> (r: String)
    ensures
        r@ == ini_text_of(*doc),
{
    let mut buf: Vec<u8> = Vec::new();
    let opt = ini::WriteOption { escape_policy: ini::EscapePolicy::Nothing, ..Default::default() };
    match doc.write_to_opt(&mut buf, opt) {
        Ok(()) => String::from_utf8_lossy(&buf).into_owned(),
        Err(_) => String::new(),
    }
}

/// Relies on `ini::SectionSetter::set` (through `Ini::with_section`): the
/// section is created when absent, and the key's values in its first section
/// of that name are replaced by the one value.
#[verifier::external_body]
pub(crate) fn ini_set(doc: &mut ini::Ini, section: &str, key: &str, value: &str)
    ensures
        ini_sections(*final(doc)) == ini_sections(*old(doc)).insert(Some(section@)),
        ini_values(*final(doc)) == ini_values(*old(doc)).insert(
            (Some(section@), key@),
            seq![value@],
        ),
{
    doc.with_section(Some(section)).set(key, value);
}

/// Relies on `ini::Ini::entry` with `SectionEntry::or_insert_with`: an
/// empty section is added when none of that name exists.
#[verifier::external_body]
pub(crate) fn ini_ensure_section(doc: &mut ini::Ini, section: &str)
    ensures
        ini_sections(*final(doc)) == ini_sections(*old(doc)).insert(Some(section@)),
        ini_values(*final(doc)) == ini_values(*old(doc)),
{
    doc.entry(Some(section.to_string())).or_insert_with(Default::default);
}

/// Relies on `ini::Ini::section_mut` and `ini::Properties::append`: one
/// more value is added after the key's values in the first section of that
/// name.
#[verifier::external_body]
pub(crate) fn ini_append(doc: &mut ini::Ini, section: &str, key: &str, value: &str)
    requires
        ini_sections(*old(doc)).contains(Some(section@)),
    ensures
        ini_sections(*final(doc)) == ini_sections(*old(doc)),
        ini_values(*final(doc)) == ini_values(*old(doc)).insert(
            (Some(section@), key@),
            values_of(ini_values(*old(doc)), Some(section@), key@).push(value@),
        ),
{
    if let Some(props) = doc.section_mut(Some(section)) {
        props.append(key, value);
    }
}

/// Relies on `ini::Ini::section_mut` and `ini::Properties::remove_all`: the
/// key's values in the first section of that name are removed and handed
/// back in order.
#[verifier::external_body]
pub(crate) fn ini_take_all(doc: &mut ini::Ini, section: &str, key: &str) -> (r: Vec<String>)
    requires
        ini_sections(*old(doc)).contains(Some(section@)),
    ensures
        r@.map_values(|v: String| v@) == values_of(ini_values(*old(doc)), Some(section@), key@),
        ini_sections(*final(doc)) == ini_sections(*old(doc)),
        ini_values(*final(doc)) == ini_values(*old(doc)).remove((Some(section@), key@)),
{
    match doc.section_mut(Some(section)) {
        Some(props) => props.remove_all(key).collect(),
        None => Vec::new(),
    }
}

/// The values of `key` in `section`, empty when there are none.
pub open spec fn values_of(
    values: Map<(Option<Seq<char>>, Seq<char>), Seq<Seq<char>>>,
    section: Option<Seq<char>>,
    key: Seq<char>,
) -> Seq<Seq<char>> {
    if values.contains_key((section, key)) {
        values[(section, key)]
    } else {
        Seq::empty()
    }
}

/// Sets `key` in `section` to exactly `value`, creating the section when it
/// is absent and discarding the key's earlier values there.
pub fn set_ini_entry_in(doc: &mut ini::Ini, section: &str, key: &str, value: &str)
    ensures
        ini_consistent(*old(doc)) ==> ini_consistent(*final(doc)),
        ini_sections(*final(doc)) == ini_sections(*old(doc)).insert(Some(section@)),
        values_of(ini_values(*final(doc)), Some(section@), key@) == seq![value@],
        ini_values(*final(doc)) == ini_values(*old(doc)).insert((Some(section@), key@), seq![value@]),
        forall|s: Option<Seq<char>>, k: Seq<char>|
            !(s == Some(section@) && k == key@) ==> values_of(ini_values(*final(doc)), s, k)
                == values_of(ini_values(*old(doc)), s, k),
        ini_consistent(*old(doc)) && !ini_sections(*old(doc)).contains(Some(section@))
            ==> forall|k: Seq<char>|
            k != key@ ==> (#[trigger] values_of(ini_values(*final(doc)), Some(section@), k))
                == Seq::<Seq<char>>::empty(),
{
    let ghost d0 = *doc;
    ini_set(doc, section, key, value);
    assert forall|k: Seq<char>|
        k != key@ && ini_consistent(d0) && !ini_sections(d0).contains(Some(section@)) implies (#[trigger] values_of(
        ini_values(*doc),
        Some(section@),
        k,
    )) == Seq::<Seq<char>>::empty() by {
        if ini_values(d0).contains_key((Some(section@), k)) {
            assert(ini_sections(d0).contains(Some(section@)));
        }
    }
}

/// Adds `value` as one more value of `key` in `section`, creating the
/// section when it is absent; the key's earlier values stay, in order.
pub fn append_ini_entry_in(doc: &mut ini::Ini, section: &str, key: &str, value: &str)
    ensures
        ini_consistent(*old(doc)) ==> ini_consistent(*final(doc)),
        ini_sections(*final(doc)) == ini_sections(*old(doc)).insert(Some(section@)),
        values_of(ini_values(*final(doc)), Some(section@), key@) == values_of(
            ini_values(*old(doc)),
            Some(section@),
            key@,
        ).push(value@),
        ini_values(*final(doc)) == ini_values(*old(doc)).insert(
            (Some(section@), key@),
            values_of(ini_values(*old(doc)), Some(section@), key@).push(value@),
        ),
        forall|s: Option<Seq<char>>, k: Seq<char>|
            !(s == Some(section@) && k == key@) ==> values_of(ini_values(*final(doc)), s, k)
                == values_of(ini_values(*old(doc)), s, k),
{
    ini_ensure_section(doc, section);
    ini_append(doc, section, key, value);
}

} // verus!
