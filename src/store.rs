//! The persisted key-value store: an INI document whose general section holds
//! the destination template, the default template and the date format.
use ini::{EscapePolicy, Ini, ParseError};
use vstd::prelude::*;

use crate::options::Options;
use crate::text::{contains_seq, opt_chars};

verus! {

/// ini::Ini, an INI document, carried through opaque.
#[verifier::external_type_specification]
#[verifier::external_body]
pub struct ExIni(Ini);

/// ini::ParseError, the error of parsing INI text, carried through opaque.
#[verifier::external_type_specification]
#[verifier::external_body]
pub struct ExParseError(ParseError);

/// Whether `text` parses as an INI document.
pub uninterp spec fn ini_parses(text: Seq<char>) -> bool;

/// Whether the document parsed from `text` has a general section.
pub uninterp spec fn parsed_has_general(text: Seq<char>) -> bool;

/// What the general section of the document parsed from `text` holds: for
/// each key, its first value.
pub uninterp spec fn parsed_general(text: Seq<char>) -> Map<Seq<char>, Seq<char>>;

/// Whether the document has a general (unnamed) section.
pub uninterp spec fn has_general_section(ini: Ini) -> bool;

/// What the general section holds: for each key, its first value.
pub uninterp spec fn general_entries(ini: Ini) -> Map<Seq<char>, Seq<char>>;

/// The general section's entries; none where there is no such section.
pub open spec fn general_of(ini: Ini) -> Map<Seq<char>, Seq<char>> {
    if has_general_section(ini) {
        general_entries(ini)
    } else {
        Map::empty()
    }
}

/// The value stored under `k`, if any.
pub open spec fn lookup(m: Map<Seq<char>, Seq<char>>, k: Seq<char>) -> Option<Seq<char>> {
    if m.dom().contains(k) {
        Some(m[k])
    } else {
        None
    }
}

/// Relies on ini::Ini::new: a document without any section.
#[verifier::external_body]
fn ini_new() -> (r: Ini)
    ensures
        !has_general_section(r),
{
    Ini::new()
}

/// Relies on ini::Ini::load_from_str_noescape: parses INI text, reading `\`
/// as an ordinary character.
#[verifier::external_body]
pub(crate) fn ini_parse(text: &str) -> (r: Result<Ini, ParseError>)
    ensures
        r is Ok <==> ini_parses(text@),
        r matches Ok(i) ==> has_general_section(i) == parsed_has_general(text@) && general_entries(i)
            == parsed_general(text@),
{
    Ini::load_from_str_noescape(text)
}

/// Relies on ini::Ini::section: whether the general section exists.
#[verifier::external_body]
pub(crate) fn ini_has_general(ini: &Ini) -> (r: bool)
    ensures
        r == has_general_section(*ini),
{
    ini.section(None::<String>).is_some()
}

/// Relies on ini::Ini::get_from: the first value of `key` in the general
/// section, none where the section or the key is absent.
#[verifier::external_body]
pub(crate) fn ini_get(ini: &Ini, key: &str) -> (r: Option<String>)
    ensures
        opt_chars(r) == lookup(general_of(*ini), key@),
{
    ini.get_from(None::<String>, key).map(String::from)
}

/// Relies on ini::Ini::set_to: replaces all values of `key` in the general
/// section by `value`, creating the section where it is absent.
#[verifier::external_body]
fn ini_set(ini: &mut Ini, key: &str, value: &str)
    ensures
        has_general_section(*final(ini)),
        general_entries(*final(ini)) == general_of(*old(ini)).insert(key@, value@),
{
    ini.set_to(None::<String>, key.to_string(), value.to_string())
}

/// Relies on ini::Ini::write_to_policy with EscapePolicy::Nothing: the
/// document as INI text, each entry of the general section written as
/// `key=value` with nothing escaped. Writing into a `Vec` cannot fail.
#[verifier::external_body]
pub(crate) fn ini_render(ini: &Ini) -> (r: String)
    ensures
        has_general_section(*ini) ==> forall|k: Seq<char>| #[trigger]
            general_entries(*ini).dom().contains(k) ==> contains_seq(
                r@,
                k + "="@ + general_entries(*ini)[k],
            ),
{
    let mut buf: Vec<u8> = Vec::new();
    let _ = ini.write_to_policy(&mut buf, EscapePolicy::Nothing);
    String::from_utf8_lossy(&buf).into_owned()
}

/// The key of the destination template.
pub open spec fn key_path() -> Seq<char> {
    "path"@
}

/// The key of the default destination template.
pub open spec fn key_default_path() -> Seq<char> {
    "default-path"@
}

/// The key of the date format.
pub open spec fn key_date() -> Seq<char> {
    "date"@
}

/// The built-in destination template, and default template.
pub open spec fn default_template() -> Seq<char> {
    "file{DATE}"@
}

/// The built-in date format.
pub open spec fn default_date_format() -> Seq<char> {
    "%Y%m%d_%H%M%S"@
}

/// The store that a missing or unreadable file is replaced by, before the
/// overrides.
pub open spec fn defaults() -> Map<Seq<char>, Seq<char>> {
    Map::empty().insert(key_default_path(), default_template()).insert(
        key_path(),
        default_template(),
    ).insert(key_date(), default_date_format())
}

/// `m` with `k` set to `v` where `v` is given.
pub open spec fn put(m: Map<Seq<char>, Seq<char>>, k: Seq<char>, v: Option<Seq<char>>) -> Map<
    Seq<char>,
    Seq<char>,
> {
    match v {
        Some(x) => m.insert(k, x),
        None => m,
    }
}

/// The store after the overrides of `o`: the default template and the date
/// format where given; then, on reset, the template set to the (new) default
/// template where there is one; without reset, the template where given.
pub open spec fn merged(m: Map<Seq<char>, Seq<char>>, o: Options) -> Map<Seq<char>, Seq<char>> {
    let m1 = put(
        put(m, key_default_path(), opt_chars(o.path_default)),
        key_date(),
        opt_chars(o.format_date),
    );
    if o.reset {
        put(m1, key_path(), lookup(m1, key_default_path()))
    } else {
        put(m1, key_path(), opt_chars(o.path_dst))
    }
}

/// Sets `key` to `value` where a value is given.
fn update_value(ini: &mut Ini, key: &str, value: Option<&str>)
    ensures
        general_of(*final(ini)) == put(general_of(*old(ini)), key@, crate::text::opt_str_chars(value)),
        has_general_section(*old(ini)) ==> has_general_section(*final(ini)),
{
    if let Some(v) = value {
        ini_set(ini, key, v);
    }
}

/// Applies the overrides of `opts` to the general section.
pub fn update_section(ini: &mut Ini, opts: &Options)
    ensures
        general_of(*final(ini)) == merged(general_of(*old(ini)), *opts),
        has_general_section(*old(ini)) ==> has_general_section(*final(ini)),
{
    update_value(ini, "default-path", opts.path_default());
    update_value(ini, "date", opts.format_date());
    if opts.reset() {
        let default_path = ini_get(ini, "default-path");
        match default_path {
            Some(v) => ini_set(ini, "path", v.as_str()),
            None => {},
        }
    } else {
        update_value(ini, "path", opts.path_dst());
    }
}

/// A new document holding the built-in defaults with the overrides of `opts`
/// applied.
pub fn ini_from(opts: &Options) -> (r: Ini)
    ensures
        has_general_section(r),
        general_of(r) == merged(defaults(), *opts),
{
    let mut ini = ini_new();
    ini_set(&mut ini, "default-path", "file{DATE}");
    ini_set(&mut ini, "path", "file{DATE}");
    ini_set(&mut ini, "date", "%Y%m%d_%H%M%S");
    update_section(&mut ini, opts);
    ini
}

/// On reset the template becomes the default template, whatever template
/// the same overrides give: wherever a default template is stored or given,
/// the merged store holds it under both keys.
pub proof fn lemma_reset_takes_default(m: Map<Seq<char>, Seq<char>>, o: Options)
    requires
        o.reset,
        m.dom().contains(key_default_path()) || o.path_default is Some,
    ensures
        merged(m, o).dom().contains(key_path()),
        merged(m, o).dom().contains(key_default_path()),
        merged(m, o)[key_path()] == merged(m, o)[key_default_path()],
{
    reveal_strlit("path");
    reveal_strlit("default-path");
    reveal_strlit("date");
    assert(key_path() != key_default_path()) by {
        assert(key_path().len() != key_default_path().len());
    }
    assert(key_date() != key_default_path()) by {
        assert(key_date().len() != key_default_path().len());
    }
}

/// A reset that finds no default template, neither stored nor given.
pub open spec fn reset_lacks_default(m: Map<Seq<char>, Seq<char>>, o: Options) -> bool {
    o.reset && o.path_default is None && !m.dom().contains(key_default_path())
}

/// The merge removes no key, and leaves every key other than the three it
/// manages as it was.
pub proof fn lemma_merge_keeps_keys(m: Map<Seq<char>, Seq<char>>, o: Options)
    ensures
        forall|k: Seq<char>| #[trigger] m.dom().contains(k) ==> merged(m, o).dom().contains(k),
        forall|k: Seq<char>|
            k != key_path() && k != key_default_path() && k != key_date() ==> #[trigger] lookup(
                merged(m, o),
                k,
            ) == lookup(m, k),
{
}

/// A store rebuilt from the defaults holds all three keys, whatever the
/// overrides.
pub proof fn lemma_fresh_store_complete(o: Options)
    ensures
        merged(defaults(), o).dom().contains(key_default_path()),
        merged(defaults(), o).dom().contains(key_path()),
        merged(defaults(), o).dom().contains(key_date()),
{
}

} // verus!
