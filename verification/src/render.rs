//! The rendering of configuration templates with handlebars.
use vstd::prelude::*;

use serde_json::Value;

verus! {

/// Named text values: a name and its value, in order.
pub type Fields = Seq<(Seq<char>, Seq<char>)>;

/// Named lists of records, each record a sequence of named text values.
pub type FieldLists = Seq<(Seq<char>, Seq<Fields>)>;

/// A rendered text, or the text of the error that stopped the rendering.
pub type RenderOutcome = Result<Seq<char>, Seq<char>>;

/// The text of each name and value.
pub open spec fn pair_texts(pairs: Seq<(String, String)>) -> Fields {
    pairs.map_values(|p: (String, String)| (p.0@, p.1@))
}

/// The text of each list's name and of each of its records.
pub open spec fn list_texts(lists: Seq<(String, Vec<Vec<(String, String)>>)>) -> FieldLists {
    lists.map_values(
        |l: (String, Vec<Vec<(String, String)>>)|
            (l.0@, l.1@.map_values(|record: Vec<(String, String)>| pair_texts(record@))),
    )
}

/// What `handlebars` renders from `template` with the data object made of the named
/// text values `values` and the named lists of records `lists` (where a name occurs
/// twice, the later entry counts, a list after a value): values are inserted without
/// HTML escaping, and `strict` tells whether a missing value is an error rather than
/// nothing.
pub uninterp spec fn handlebars_rendering(template: Seq<char>, strict: bool, values: Fields, lists: FieldLists) -> RenderOutcome;

/// `handlebars::Handlebars::render_template(template, data)` on a registry whose escape
/// function is `handlebars::no_escape` and whose strict mode is `strict`, `data` being
/// the JSON object of the values (as strings) and of the lists (as arrays of objects);
/// its error turned into its text. In the crate's source (4.5.0) the rendering is a
/// function of the template, the mode and the data alone, so the contract names it.
#[verifier::external_body]
pub(crate) fn render_template(
    template: &str,
    strict: bool,
    values: &Vec<(String, String)>,
    lists: &Vec<(String, Vec<Vec<(String, String)>>)>,
) -> (r: Result<String, String>)
    ensures
        r matches Ok(t) ==> handlebars_rendering(template@, strict, pair_texts(values@), list_texts(lists@)) == RenderOutcome::Ok(t@),
        r matches Err(e) ==> handlebars_rendering(template@, strict, pair_texts(values@), list_texts(lists@)) == RenderOutcome::Err(e@),
{
    let object = |pairs: &Vec<(String, String)>| -> serde_json::Map<String, Value> {
        pairs.iter().map(|(k, v)| (k.clone(), Value::String(v.clone()))).collect()
    };
    let mut data = object(values);
    for (name, records) in lists {
        data.insert(name.clone(), Value::Array(records.iter().map(|p| Value::Object(object(p))).collect()));
    }
    let mut registry = handlebars::Handlebars::new();
    registry.register_escape_fn(handlebars::no_escape);
    registry.set_strict_mode(strict);
    registry.render_template(template, &Value::Object(data)).map_err(|e| e.to_string())
}

} // verus!
