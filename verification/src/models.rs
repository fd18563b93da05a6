//! The model catalogue: which entries of the vendor's model listing the tool
//! offers. An entry is kept when its capability list includes content
//! generation and its identifier carries the product marker; the listed name
//! drops the catalogue prefix.

use vstd::prelude::*;
use crate::json::{
    error_detail_of, has_error_of, json_is_valid, json_parses, vendor_error_detail,
};
use crate::response::{vendor_error_message, FixError};
use crate::text::{chars_of, contains_chars, contains_string, contains_sub, replace_all, replace_chars, string_from_chars};

verus! {

/// One entry of the vendor's model listing, reduced to what the filter
/// reads: the identifier and the supported generation methods.
#[derive(Debug, Clone, PartialEq, Eq)]
pub struct ModelEntry {
    pub name: String,
    pub methods: Vec<String>,
}

/// The mathematical content of a model entry.
pub struct ModelEntryView {
    pub name: Seq<char>,
    pub methods: Seq<Seq<char>>,
}

impl View for ModelEntry {
    type V = ModelEntryView;

    open spec fn view(&self) -> ModelEntryView {
        ModelEntryView { name: self.name@, methods: self.methods.deep_view() }
    }
}

/// The views of a row of entries.
pub open spec fn views_of(entries: Seq<ModelEntry>) -> Seq<ModelEntryView> {
    entries.map_values(|e: ModelEntry| e@)
}

/// The identifiers of the reply's `models` entries, one per entry, empty
/// where an entry's is missing or no string. A function of the reply alone;
/// meaningful only where `json_parses` holds.
pub uninterp spec fn model_names_of(s: Seq<char>) -> Seq<Seq<char>>;

/// The method strings listed by each of the reply's `models` entries, in
/// step with `model_names_of`. A function of the reply alone; meaningful
/// only where `json_parses` holds.
pub uninterp spec fn model_methods_of(s: Seq<char>) -> Seq<Seq<Seq<char>>>;

/// The catalogue a listing reply describes.
pub open spec fn catalogue_of(s: Seq<char>) -> Seq<ModelEntryView> {
    Seq::new(
        model_names_of(s).len(),
        |i: int| ModelEntryView { name: model_names_of(s)[i], methods: model_methods_of(s)[i] },
    )
}

/// An entry is offered when it supports content generation and its
/// identifier carries the product marker.
pub open spec fn keep_model_spec(name: Seq<char>, methods: Seq<Seq<char>>) -> bool {
    methods.contains("generateContent"@) && contains_sub(name, "gemini"@)
}

/// The name an offered entry is listed under: the identifier without the
/// catalogue prefix.
pub open spec fn display_name_spec(name: Seq<char>) -> Seq<char> {
    replace_all(name, "models/"@, Seq::<char>::empty())
}

/// The names the listing offers, in catalogue order.
pub open spec fn listed_models(entries: Seq<ModelEntryView>) -> Seq<Seq<char>>
    decreases entries.len(),
{
    if entries.len() == 0 {
        Seq::<Seq<char>>::empty()
    } else {
        let front = listed_models(entries.drop_last());
        let e = entries.last();
        if keep_model_spec(e.name, e.methods) {
            front.push(display_name_spec(e.name))
        } else {
            front
        }
    }
}

/// Whether an entry is offered.
pub fn keep_model(name: &str, methods: &Vec<String>) -> (r: bool)
    ensures
        r == keep_model_spec(name@, methods.deep_view()),
{
    let supports = contains_string(methods, "generateContent");
    if !supports {
        return false;
    }
    let name_cs = chars_of(name);
    let marker = chars_of("gemini");
    proof {
        reveal_strlit("gemini");
    }
    contains_chars(&name_cs, &marker)
}

/// The name an entry is listed under.
pub fn model_display_name(name: &str) -> (r: String)
    ensures
        r@ == display_name_spec(name@),
{
    let cs = chars_of(name);
    let pat = chars_of("models/");
    proof {
        reveal_strlit("models/");
    }
    let rep: Vec<char> = Vec::new();
    let out = replace_chars(&cs, &pat, &rep);
    string_from_chars(&out)
}

/// Filters the catalogue entries down to the offered names.
pub fn filter_model_entries(entries: &Vec<ModelEntry>) -> (r: Vec<String>)
    ensures
        r.deep_view() == listed_models(views_of(entries@)),
{
    let ghost all = views_of(entries@);
    let mut out: Vec<String> = Vec::new();
    let mut i: usize = 0;
    proof {
        assert(out.deep_view() =~= listed_models(all.take(0)));
    }
    while i < entries.len()
        invariant
            i <= entries.len(),
            all == views_of(entries@),
            all.len() == entries@.len(),
            forall|k: int| 0 <= k < all.len() ==> all[k] == entries@[k]@,
            out.deep_view() == listed_models(all.take(i as int)),
        decreases entries.len() - i,
    {
        let ghost pre = out.deep_view();
        let e = &entries[i];
        if keep_model(e.name.as_str(), &e.methods) {
            out.push(model_display_name(e.name.as_str()));
        }
        i = i + 1;
        proof {
            assert(all.take(i as int).drop_last() =~= all.take(i - 1));
            assert(all.take(i as int).last() == entries@[i - 1]@);
            if keep_model_spec(entries@[i - 1]@.name, entries@[i - 1]@.methods) {
                assert(out.deep_view() =~= pre.push(display_name_spec(entries@[i - 1]@.name)));
            }
            assert(out.deep_view() == listed_models(all.take(i as int)));
        }
    }
    proof {
        assert(all.take(entries@.len() as int) =~= all);
    }
    out
}

/// Relies on `serde_json::from_str::<Value>`, `Value`'s indexing (`Null` for
/// anything missing), `Value::as_array` and `Value::as_str`: the entries of
/// the reply's `models` array — each entry's identifier (empty where missing
/// or no string) and its method strings (values that are no strings are
/// dropped). A missing or malformed array reads as no entries.
#[verifier::external_body]
fn model_catalogue(body: &str) -> (r: Vec<ModelEntry>)
    ensures
        json_parses(body@) ==> r@.len() == model_names_of(body@).len(),
        json_parses(body@) ==> r@.len() == model_methods_of(body@).len(),
        json_parses(body@) ==> (forall|i: int|
            0 <= i < r@.len() ==> (#[trigger] r@[i]).name@ == model_names_of(body@)[i]
                && r@[i].methods.deep_view() == model_methods_of(body@)[i]),
{
    let mut out = Vec::new();
    if let Ok(v) = serde_json::from_str::<serde_json::Value>(body) {
        for m in v["models"].as_array().map(Vec::as_slice).unwrap_or(&[]) {
            let name = m["name"].as_str().unwrap_or("").to_owned();
            let methods = match m["supportedGenerationMethods"].as_array() {
                Some(a) => a.iter().filter_map(|s| s.as_str().map(str::to_owned)).collect(),
                None => Vec::new(),
            };
            out.push(ModelEntry { name, methods });
        }
    }
    out
}

/// Interprets the model-listing reply: an error for a body that is no JSON
/// document or that the vendor refused, and the offered names otherwise. A
/// missing or malformed `models` array reads as an empty catalogue.
pub fn parse_models_response(body: &str) -> (r: Result<Vec<String>, FixError>)
    ensures
        (r == Err::<Vec<String>, FixError>(FixError::MalformedResponse)) <==> !json_parses(body@),
        json_parses(body@) && has_error_of(body@) ==> (r matches Err(FixError::VendorError(m))
            && m@ == "API Error: "@ + error_detail_of(body@)),
        json_parses(body@) && !has_error_of(body@) ==> (r matches Ok(names) && names.deep_view()
            == listed_models(catalogue_of(body@))),
{
    if !json_is_valid(body) {
        return Err(FixError::MalformedResponse);
    }
    match vendor_error_detail(body) {
        Some(detail) => Err(FixError::VendorError(vendor_error_message(detail.as_str()))),
        None => {
            let entries = model_catalogue(body);
            proof {
                assert forall|i: int| 0 <= i < views_of(entries@).len() implies views_of(
                    entries@,
                )[i] == catalogue_of(body@)[i] by {
                    assert(views_of(entries@)[i] == entries@[i]@);
                }
                assert(views_of(entries@) =~= catalogue_of(body@));
            }
            Ok(filter_model_entries(&entries))
        },
    }
}

/// Law: the listing excludes every entry whose capability list omits content
/// generation, and every entry whose identifier lacks the product marker.
pub proof fn lemma_model_filter_excludes(name: Seq<char>, methods: Seq<Seq<char>>)
    requires
        !methods.contains("generateContent"@) || !contains_sub(name, "gemini"@),
    ensures
        !keep_model_spec(name, methods),
{
}

/// Law: an entry that is not offered contributes nothing to the listing.
pub proof fn lemma_excluded_entry_adds_nothing(entries: Seq<ModelEntryView>)
    requires
        entries.len() > 0,
        !keep_model_spec(entries.last().name, entries.last().methods),
    ensures
        listed_models(entries) == listed_models(entries.drop_last()),
{
}

/// Law: every listed name is the display name of some offered entry — an
/// entry the filter excludes never reaches the listing.
pub proof fn lemma_listed_models_sound(entries: Seq<ModelEntryView>, j: int)
    requires
        0 <= j < listed_models(entries).len(),
    ensures
        exists|i: int|
            0 <= i < entries.len() && keep_model_spec(entries[i].name, entries[i].methods)
                && listed_models(entries)[j] == display_name_spec(entries[i].name),
    decreases entries.len(),
{
    let front = listed_models(entries.drop_last());
    let e = entries.last();
    if keep_model_spec(e.name, e.methods) && j == front.len() {
        let w = entries.len() - 1;
        assert(0 <= w < entries.len() && keep_model_spec(entries[w].name, entries[w].methods)
            && listed_models(entries)[j] == display_name_spec(entries[w].name));
    } else {
        lemma_listed_models_sound(entries.drop_last(), j);
        let i = choose|i: int|
            0 <= i < entries.drop_last().len() && keep_model_spec(
                entries.drop_last()[i].name,
                entries.drop_last()[i].methods,
            ) && front[j] == display_name_spec(entries.drop_last()[i].name);
        assert(entries.drop_last()[i] == entries[i]);
        assert(0 <= i < entries.len() && keep_model_spec(entries[i].name, entries[i].methods)
            && listed_models(entries)[j] == display_name_spec(entries[i].name));
    }
}

/// Law: every offered entry reaches the listing under its display name.
pub proof fn lemma_kept_entry_listed(entries: Seq<ModelEntryView>, i: int)
    requires
        0 <= i < entries.len(),
        keep_model_spec(entries[i].name, entries[i].methods),
    ensures
        listed_models(entries).contains(display_name_spec(entries[i].name)),
    decreases entries.len(),
{
    let front = listed_models(entries.drop_last());
    let e = entries.last();
    if i == entries.len() - 1 {
        let r = listed_models(entries);
        assert(r[r.len() - 1] == display_name_spec(entries[i].name));
    } else {
        assert(entries.drop_last()[i] == entries[i]);
        lemma_kept_entry_listed(entries.drop_last(), i);
        let j = choose|j: int|
            0 <= j < front.len() && front[j] == display_name_spec(entries.drop_last()[i].name);
        assert(listed_models(entries)[j] == display_name_spec(entries[i].name));
    }
}

} // verus!
