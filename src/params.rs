//! The plugin's configuration, read from its parameter string.

use vstd::prelude::*;
use crate::builder::{add_extern_path, builder_extern_paths, builder_retains_enum_prefix, builder_types, keep_enum_prefix, new_builder, TypeKey};
use crate::grammar::{entries_of, tokenize, Entry, EntryModel};
use pbjson_build::Builder;

verus! {

broadcast use vstd::string::group_string_axioms;

/// What a parameter string configures.
pub struct ParametersModel {
    /// File stem for packages without a name of their own; `None` when unset.
    pub default_package_filename: Option<Seq<char>>,
    /// Pairs of proto path and Rust path, in the order they were given.
    pub extern_path: Seq<(Seq<char>, Seq<char>)>,
    pub retain_enum_prefix: bool,
}

/// The configuration of an empty parameter string.
pub open spec fn default_model() -> ParametersModel {
    ParametersModel {
        default_package_filename: None,
        extern_path: Seq::empty(),
        retain_enum_prefix: false,
    }
}

/// What one entry does to the configuration, or `None` when it is not a
/// recognised entry.
pub open spec fn apply_entry(m: ParametersModel, e: EntryModel) -> Option<ParametersModel> {
    if e.name == "default_package_filename"@ && e.value is None {
        Some(ParametersModel { default_package_filename: e.key, ..m })
    } else if e.name == "retain_enum_prefix"@ && e.value is None && (e.key is None || e.key
        == Some("true"@)) {
        Some(ParametersModel { retain_enum_prefix: true, ..m })
    } else if e.name == "retain_enum_prefix"@ && e.value is None && e.key == Some("false"@) {
        Some(m)
    } else if e.name == "extern_path"@ && e.key is Some && e.value is Some {
        Some(
            ParametersModel {
                extern_path: m.extern_path.push((e.key->Some_0, e.value->Some_0)),
                ..m
            },
        )
    } else {
        None
    }
}

/// Applies the entries from index `i` on to `m`; the first entry that is not
/// recognised ends the parse with its text.
pub open spec fn apply_entries(m: ParametersModel, es: Seq<EntryModel>, i: int) -> Result<
    ParametersModel,
    Seq<char>,
>
    decreases es.len() - i,
{
    if 0 <= i < es.len() {
        match apply_entry(m, es[i]) {
            Some(next) => apply_entries(next, es, i + 1),
            None => Err(es[i].text),
        }
    } else {
        Ok(m)
    }
}

/// The configuration that a parameter string gives, or the text of its first
/// entry that is not recognised.
pub open spec fn parameters_of(s: Seq<char>) -> Result<ParametersModel, Seq<char>> {
    apply_entries(default_model(), entries_of(s), 0)
}

/// The file stem used for packages without a name of their own.
pub open spec fn resolved_filename(m: ParametersModel) -> Seq<char> {
    match m.default_package_filename {
        Some(f) => f,
        None => "_"@,
    }
}

/// The plugin's configuration.
pub struct Parameters {
    default_package_filename: Option<String>,
    extern_path: Vec<(String, String)>,
    retain_enum_prefix: bool,
}

pub open spec fn pair_view(p: (String, String)) -> (Seq<char>, Seq<char>) {
    (p.0@, p.1@)
}

impl View for Parameters {
    type V = ParametersModel;

    closed spec fn view(&self) -> ParametersModel {
        ParametersModel {
            default_package_filename: match self.default_package_filename {
                Some(f) => Some(f@),
                None => None,
            },
            extern_path: self.extern_path@.map_values(|p: (String, String)| pair_view(p)),
            retain_enum_prefix: self.retain_enum_prefix,
        }
    }
}

/// A parameter entry that is not recognised, with its text as written.
pub struct InvalidParameter(String);

impl View for InvalidParameter {
    type V = Seq<char>;

    closed spec fn view(&self) -> Seq<char> {
        self.0@
    }
}

impl InvalidParameter {
    /// The rejected entry, as written.
    pub fn parameter(&self) -> (r: &str)
        ensures
            r@ == self@,
    {
        self.0.as_str()
    }

    /// The message reported for the rejected entry.
    pub fn message(&self) -> (r: String)
        ensures
            r@ == "invalid parameter: "@ + self@,
    {
        let mut r = "invalid parameter: ".to_string();
        r.append(self.0.as_str());
        r
    }
}

fn same_text(a: &String, b: &str) -> (r: bool)
    ensures
        r == (a@ == b@),
{
    *a == b.to_string()
}

fn key_is(key: &Option<String>, word: &str) -> (r: bool)
    ensures
        r == (match key {
            Some(k) => k@ == word@,
            None => false,
        }),
{
    match key {
        Some(k) => same_text(k, word),
        None => false,
    }
}

fn copy_option(o: &Option<String>) -> (r: Option<String>)
    ensures
        match (o, r) {
            (Some(a), Some(b)) => a@ == b@,
            (None, None) => true,
            _ => false,
        },
{
    match o {
        Some(t) => Some(t.clone()),
        None => None,
    }
}

impl Parameters {
    /// Reads a parameter string. Fails on the first entry that is not
    /// recognised, and nothing of a partial configuration is returned.
    pub fn from_str(s: &str) -> (r: Result<Parameters, InvalidParameter>)
        ensures
            match (r, parameters_of(s@)) {
                (Ok(p), Ok(m)) => p@ == m,
                (Err(e), Err(t)) => e@ == t,
                _ => false,
            },
    {
        let entries = tokenize(s);
        let ghost es = entries_of(s@);
        let mut ret = Parameters {
            default_package_filename: None,
            extern_path: Vec::new(),
            retain_enum_prefix: false,
        };
        assert(ret@ == default_model()) by {
            assert(ret@.extern_path =~= Seq::<(Seq<char>, Seq<char>)>::empty());
        }
        let mut i: usize = 0;
        while i < entries.len()
            invariant
                i <= entries@.len() == es.len(),
                forall|j: int| 0 <= j < entries@.len() ==> #[trigger] entries@[j]@ == es[j],
                parameters_of(s@) == apply_entries(ret@, es, i as int),
            decreases entries@.len() - i,
        {
            let e: &Entry = &entries[i];
            assert(e@ == es[i as int]);
            let name = &e.name;
            if same_text(name, "default_package_filename") && e.value.is_none() {
                ret.default_package_filename = copy_option(&e.key);
            } else if same_text(name, "retain_enum_prefix") && e.value.is_none() && (
            e.key.is_none() || key_is(&e.key, "true")) {
                ret.retain_enum_prefix = true;
            } else if same_text(name, "retain_enum_prefix") && e.value.is_none() && key_is(
                &e.key,
                "false",
            ) {
            } else if same_text(name, "extern_path") && e.key.is_some() && e.value.is_some() {
                let key = e.key.as_ref().unwrap().clone();
                let value = e.value.as_ref().unwrap().clone();
                let ghost before = ret.extern_path@;
                ret.extern_path.push((key, value));
                proof {
                    assert(ret.extern_path@.map_values(|p: (String, String)| pair_view(p))
                        =~= before.map_values(|p: (String, String)| pair_view(p)).push(
                        (e.key->Some_0@, e.value->Some_0@),
                    ));
                }
            } else {
                return Err(InvalidParameter(e.text.clone()));
            }
            i = i + 1;
        }
        Ok(ret)
    }

    /// The file stem for packages without a name of their own: the configured
    /// one, or `_` when none was set.
    pub fn default_package_filename(&self) -> (r: &str)
        ensures
            r@ == resolved_filename(self@),
    {
        match &self.default_package_filename {
            Some(f) => f.as_str(),
            None => "_",
        }
    }

    /// A code builder with every extern path registered in order, set to keep
    /// enum prefixes when the configuration asks for it.
    pub fn to_pbjson_builder(&self) -> (r: Builder)
        ensures
            builder_extern_paths(r) == self@.extern_path,
            builder_retains_enum_prefix(r) == self@.retain_enum_prefix,
            builder_types(r) == Set::<TypeKey>::empty(),
    {
        let mut builder = new_builder();
        let mut i: usize = 0;
        while i < self.extern_path.len()
            invariant
                i <= self.extern_path@.len(),
                builder_extern_paths(builder) == self@.extern_path.subrange(0, i as int),
                !builder_retains_enum_prefix(builder),
                builder_types(builder) == Set::<TypeKey>::empty(),
            decreases self.extern_path@.len() - i,
        {
            let (proto_path, rust_path) = &self.extern_path[i];
            add_extern_path(&mut builder, proto_path.as_str(), rust_path.as_str());
            proof {
                assert(self@.extern_path.subrange(0, i + 1) =~= self@.extern_path.subrange(
                    0,
                    i as int,
                ).push(pair_view(self.extern_path@[i as int])));
            }
            i = i + 1;
        }
        assert(self@.extern_path.subrange(0, i as int) =~= self@.extern_path);
        if self.retain_enum_prefix {
            keep_enum_prefix(&mut builder);
        }
        builder
    }

    /// The configured stem, if one was set.
    pub fn configured_package_filename(&self) -> (r: Option<&str>)
        ensures
            match (r, self@.default_package_filename) {
                (Some(a), Some(b)) => a@ == b,
                (None, None) => true,
                _ => false,
            },
    {
        match &self.default_package_filename {
            Some(f) => Some(f.as_str()),
            None => None,
        }
    }

    /// The extern paths, as pairs of proto path and Rust path, in order.
    pub fn extern_path(&self) -> (r: &Vec<(String, String)>)
        ensures
            r@.map_values(|p: (String, String)| pair_view(p)) == self@.extern_path,
    {
        &self.extern_path
    }

    /// Whether enum variants keep their enum's name as prefix.
    pub fn retain_enum_prefix(&self) -> (r: bool)
        ensures
            r == self@.retain_enum_prefix,
    {
        self.retain_enum_prefix
    }
}

/// An empty parameter string configures nothing: no default file stem, no
/// extern path, enum prefixes stripped.
pub proof fn lemma_empty_string_gives_defaults()
    ensures
        parameters_of(Seq::<char>::empty()) == Ok::<ParametersModel, Seq<char>>(default_model()),
{
    assert(entries_of(Seq::<char>::empty()) =~= Seq::<EntryModel>::empty());
}

/// The names that the grammar recognises.
pub open spec fn known_name(n: Seq<char>) -> bool {
    n == "default_package_filename"@ || n == "retain_enum_prefix"@ || n == "extern_path"@
}

/// Whether an entry has one of the recognised shapes.
pub open spec fn accepted(e: EntryModel) -> bool {
    apply_entry(default_model(), e) is Some
}

/// The pairs of the `extern_path` entries from index `i` on, in order.
pub open spec fn extern_pairs(es: Seq<EntryModel>, i: int) -> Seq<(Seq<char>, Seq<char>)>
    decreases es.len() - i,
{
    if 0 <= i < es.len() {
        let rest = extern_pairs(es, i + 1);
        if es[i].name == "extern_path"@ && es[i].key is Some && es[i].value is Some {
            seq![(es[i].key->Some_0, es[i].value->Some_0)] + rest
        } else {
            rest
        }
    } else {
        Seq::empty()
    }
}

proof fn lemma_names_differ()
    ensures
        "default_package_filename"@ != "retain_enum_prefix"@,
        "default_package_filename"@ != "extern_path"@,
        "retain_enum_prefix"@ != "extern_path"@,
        "true"@ != "false"@,
{
    reveal_strlit("default_package_filename");
    reveal_strlit("retain_enum_prefix");
    reveal_strlit("extern_path");
    reveal_strlit("true");
    reveal_strlit("false");
    assert("default_package_filename"@[0] != "retain_enum_prefix"@[0]);
    assert("default_package_filename"@[0] != "extern_path"@[0]);
    assert("retain_enum_prefix"@[0] != "extern_path"@[0]);
    assert("true"@[0] != "false"@[0]);
}

/// Whether an entry is accepted does not depend on the configuration it is
/// applied to.
pub proof fn lemma_accepted_everywhere(m: ParametersModel, e: EntryModel)
    ensures
        apply_entry(m, e) is Some <==> accepted(e),
{
}

/// `retain_enum_prefix` and `retain_enum_prefix=true` both set the flag;
/// `retain_enum_prefix=false` leaves the configuration as it was.
pub proof fn lemma_retain_enum_prefix_entry(m: ParametersModel, e: EntryModel)
    requires
        e.name == "retain_enum_prefix"@,
        e.value is None,
    ensures
        e.key is None || e.key == Some("true"@) ==> apply_entry(m, e) == Some(
            ParametersModel { retain_enum_prefix: true, ..m },
        ),
        e.key == Some("false"@) ==> apply_entry(m, e) == Some(m),
{
    lemma_names_differ();
}

proof fn lemma_rejection_from(m: ParametersModel, es: Seq<EntryModel>, i: int, j: int)
    requires
        0 <= i <= j < es.len(),
        !accepted(es[j]),
    ensures
        apply_entries(m, es, i) is Err,
        exists|k: int|
            i <= k <= j && !accepted(es[k]) && apply_entries(m, es, i)->Err_0 == es[k].text,
        (forall|k: int| i <= k < j ==> accepted(#[trigger] es[k])) ==> apply_entries(m, es, i)->Err_0
            == es[j].text,
    decreases j - i,
{
    lemma_accepted_everywhere(m, es[i]);
    if i < j {
        match apply_entry(m, es[i]) {
            Some(next) => {
                lemma_rejection_from(next, es, i + 1, j);
                let k = choose|k: int|
                    i + 1 <= k <= j && !accepted(es[k]) && apply_entries(next, es, i + 1)->Err_0
                        == es[k].text;
                assert(i <= k <= j);
            },
            None => {},
        }
    }
}

/// A parameter string with an entry that is not recognised (an unknown name,
/// or a known one in the wrong shape) fails as a whole; the error carries the
/// text of its first such entry, as written.
pub proof fn lemma_rejected_entry_fails(s: Seq<char>, j: int)
    requires
        0 <= j < entries_of(s).len(),
        !accepted(entries_of(s)[j]),
    ensures
        parameters_of(s) is Err,
        exists|k: int|
            0 <= k <= j && !accepted(entries_of(s)[k]) && parameters_of(s)->Err_0 == entries_of(
                s,
            )[k].text,
        (forall|k: int| 0 <= k < j ==> accepted(#[trigger] entries_of(s)[k])) ==> parameters_of(
            s,
        )->Err_0 == entries_of(s)[j].text,
{
    lemma_rejection_from(default_model(), entries_of(s), 0, j);
}

/// An entry whose name is none of the recognised ones is rejected.
pub proof fn lemma_unknown_name_rejected(e: EntryModel)
    requires
        !known_name(e.name),
    ensures
        !accepted(e),
{
}

proof fn lemma_extern_pairs_from(m: ParametersModel, es: Seq<EntryModel>, i: int)
    requires
        0 <= i <= es.len(),
        apply_entries(m, es, i) is Ok,
    ensures
        apply_entries(m, es, i)->Ok_0.extern_path == m.extern_path + extern_pairs(es, i),
    decreases es.len() - i,
{
    lemma_names_differ();
    if i < es.len() {
        let next = apply_entry(m, es[i])->Some_0;
        lemma_extern_pairs_from(next, es, i + 1);
        if es[i].name == "extern_path"@ && es[i].key is Some && es[i].value is Some {
            assert(next.extern_path == m.extern_path.push((es[i].key->Some_0, es[i].value->Some_0)));
            assert(m.extern_path + extern_pairs(es, i) =~= next.extern_path + extern_pairs(
                es,
                i + 1,
            ));
        } else {
            assert(next.extern_path == m.extern_path);
        }
    } else {
        assert(m.extern_path + extern_pairs(es, i) =~= m.extern_path);
    }
}

/// Every `extern_path` entry of a parameter string that parses adds its pair,
/// in the order of the string: pairs with the same proto path are all kept.
pub proof fn lemma_extern_paths_all_kept(s: Seq<char>)
    requires
        parameters_of(s) is Ok,
    ensures
        parameters_of(s)->Ok_0.extern_path == extern_pairs(entries_of(s), 0),
{
    lemma_extern_pairs_from(default_model(), entries_of(s), 0);
    assert(default_model().extern_path + extern_pairs(entries_of(s), 0) =~= extern_pairs(
        entries_of(s),
        0,
    ));
}

proof fn lemma_filename_unset_from(m: ParametersModel, es: Seq<EntryModel>, i: int)
    requires
        0 <= i <= es.len(),
        m.default_package_filename is None,
        forall|k: int| i <= k < es.len() ==> (#[trigger] es[k]).name != "default_package_filename"@,
        apply_entries(m, es, i) is Ok,
    ensures
        apply_entries(m, es, i)->Ok_0.default_package_filename is None,
    decreases es.len() - i,
{
    if i < es.len() {
        lemma_filename_unset_from(apply_entry(m, es[i])->Some_0, es, i + 1);
    }
}

/// Without a `default_package_filename` entry, the file stem is unset and
/// resolves to `_`.
pub proof fn lemma_unset_filename_resolves_to_underscore(s: Seq<char>)
    requires
        parameters_of(s) is Ok,
        forall|k: int|
            0 <= k < entries_of(s).len() ==> (#[trigger] entries_of(s)[k]).name
                != "default_package_filename"@,
    ensures
        parameters_of(s)->Ok_0.default_package_filename is None,
        resolved_filename(parameters_of(s)->Ok_0) == "_"@,
{
    lemma_filename_unset_from(default_model(), entries_of(s), 0);
}

impl std::str::FromStr for Parameters {
    type Err = InvalidParameter;

    fn from_str(s: &str) -> Result<Parameters, InvalidParameter> {
        Parameters::from_str(s)
    }
}

} // verus!
