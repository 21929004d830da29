//! The encoded form of an invoice's item list: a JSON array of objects, one
//! for each line, kept in a text column of the invoice row.

use crate::error::StoreError;
use crate::models::FactureItem;
use crate::store::{
    distinct_keys, json_array, json_as_number, json_as_text, json_elements, json_field,
    json_from_str, json_number, json_object, json_read, json_text, json_to_string, json_written,
    value_elements, value_field, value_number, value_text,
};
use vstd::prelude::*;
use vstd::string::StringExecFns;

verus! {

/// The line that five decoded fields make up, if none of them is missing.
pub open spec fn item_of_fields(
    description: Option<String>,
    quantity: Option<serde_json::Number>,
    prix_unitaire: Option<serde_json::Number>,
    frais_service_unitaire: Option<serde_json::Number>,
    total: Option<serde_json::Number>,
) -> Option<FactureItem> {
    if description is Some && quantity is Some && prix_unitaire is Some
        && frais_service_unitaire is Some && total is Some {
        Some(
            FactureItem {
                description: description->Some_0,
                quantity: quantity->Some_0,
                prix_unitaire: prix_unitaire->Some_0,
                frais_service_unitaire: frais_service_unitaire->Some_0,
                total: total->Some_0,
            },
        )
    } else {
        None
    }
}

/// Puts a line together from its five fields as they were found in an
/// encoded object. A line with a field missing or of the wrong kind is no
/// line.
pub fn assemble_item(
    description: Option<String>,
    quantity: Option<serde_json::Number>,
    prix_unitaire: Option<serde_json::Number>,
    frais_service_unitaire: Option<serde_json::Number>,
    total: Option<serde_json::Number>,
) -> (r: Option<FactureItem>)
    ensures
        r == item_of_fields(description, quantity, prix_unitaire, frais_service_unitaire, total),
{
    match (description, quantity, prix_unitaire, frais_service_unitaire, total) {
        (Some(d), Some(q), Some(p), Some(f), Some(t)) => Some(
            FactureItem {
                description: d,
                quantity: q,
                prix_unitaire: p,
                frais_service_unitaire: f,
                total: t,
            },
        ),
        _ => None,
    }
}

/// The text under `key` in the JSON object `v`, where `v` is an object that
/// has the key with a JSON string under it.
pub open spec fn field_text(v: serde_json::Value, key: Seq<char>) -> Option<Seq<char>> {
    match value_field(v, key) {
        Some(f) => value_text(f),
        None => None,
    }
}

/// The number under `key` in the JSON object `v`, where `v` is an object that
/// has the key with a JSON number under it.
pub open spec fn field_number(v: serde_json::Value, key: Seq<char>) -> Option<
    serde_json::Number,
> {
    match value_field(v, key) {
        Some(f) => value_number(f),
        None => None,
    }
}

/// `v` is a well-formed line: an object with a text under `description` and
/// a number under each of `quantity`, `prix_unitaire`,
/// `frais_service_unitaire` and `total`.
pub open spec fn is_item(v: serde_json::Value) -> bool {
    &&& field_text(v, "description"@) is Some
    &&& field_number(v, "quantity"@) is Some
    &&& field_number(v, "prix_unitaire"@) is Some
    &&& field_number(v, "frais_service_unitaire"@) is Some
    &&& field_number(v, "total"@) is Some
}

/// `v` is the encoded form of `item`: under each of the five names it holds
/// what the line has in that field.
pub open spec fn encodes(v: serde_json::Value, item: FactureItem) -> bool {
    &&& field_text(v, "description"@) == Some(item.description@)
    &&& field_number(v, "quantity"@) == Some(item.quantity)
    &&& field_number(v, "prix_unitaire"@) == Some(item.prix_unitaire)
    &&& field_number(v, "frais_service_unitaire"@) == Some(item.frais_service_unitaire)
    &&& field_number(v, "total"@) == Some(item.total)
}

/// Every element is a well-formed line.
pub open spec fn all_items(elements: Seq<serde_json::Value>) -> bool {
    forall|i: int| 0 <= i < elements.len() ==> is_item(#[trigger] elements[i])
}

/// `elements` are the encoded forms of `items`, one for one and in order.
pub open spec fn encode_all(elements: Seq<serde_json::Value>, items: Seq<FactureItem>) -> bool {
    &&& elements.len() == items.len()
    &&& forall|i: int| 0 <= i < items.len() ==> encodes(elements[i], #[trigger] items[i])
}

/// `v` is a JSON array of well-formed lines.
pub open spec fn is_item_list(v: serde_json::Value) -> bool {
    value_elements(v) is Some && all_items(value_elements(v)->Some_0)
}

/// `items` is what an item column reads as when its text parses to `parsed`:
/// the lines of a well-formed list, one for one and in order, and no line
/// for anything else.
pub open spec fn reads_as(parsed: Option<serde_json::Value>, items: Seq<FactureItem>) -> bool {
    if parsed is Some && is_item_list(parsed->Some_0) {
        encode_all(value_elements(parsed->Some_0)->Some_0, items)
    } else {
        items.len() == 0
    }
}

fn text_field(v: &serde_json::Value, key: &str) -> (r: Option<String>)
    ensures
        r is Some <==> field_text(*v, key@) is Some,
        r matches Some(text) ==> field_text(*v, key@) == Some(text@),
{
    match json_field(v, key) {
        Some(f) => json_as_text(&f),
        None => None,
    }
}

fn number_field(v: &serde_json::Value, key: &str) -> (r: Option<serde_json::Number>)
    ensures
        r == field_number(*v, key@),
{
    match json_field(v, key) {
        Some(f) => json_as_number(&f),
        None => None,
    }
}

/// Decodes one element of the encoded list: its five fields are looked up by
/// name and put together by `assemble_item`.
fn decode_item(v: &serde_json::Value) -> (r: Option<FactureItem>)
    ensures
        r is Some <==> is_item(*v),
        r matches Some(item) ==> encodes(*v, item),
{
    assemble_item(
        text_field(v, "description"),
        number_field(v, "quantity"),
        number_field(v, "prix_unitaire"),
        number_field(v, "frais_service_unitaire"),
        number_field(v, "total"),
    )
}

/// Encodes one line as a JSON object of its five fields.
fn encode_item(item: &FactureItem) -> (r: serde_json::Value)
    ensures
        encodes(r, *item),
{
    let mut fields: Vec<(String, serde_json::Value)> = Vec::new();
    fields.push((String::from_str("description"), json_text(item.description.clone())));
    fields.push((String::from_str("quantity"), json_number(item.quantity.clone())));
    fields.push((String::from_str("prix_unitaire"), json_number(item.prix_unitaire.clone())));
    fields.push(
        (
            String::from_str("frais_service_unitaire"),
            json_number(item.frais_service_unitaire.clone()),
        ),
    );
    fields.push((String::from_str("total"), json_number(item.total.clone())));
    proof {
        reveal_strlit("description");
        reveal_strlit("quantity");
        reveal_strlit("prix_unitaire");
        reveal_strlit("frais_service_unitaire");
        reveal_strlit("total");
        assert(fields@[0].0@ == "description"@);
        assert(fields@[1].0@ == "quantity"@);
        assert(fields@[2].0@ == "prix_unitaire"@);
        assert(fields@[3].0@ == "frais_service_unitaire"@);
        assert(fields@[4].0@ == "total"@);
        assert(distinct_keys(fields@));
    }
    let ghost listed = fields@;
    let r = json_object(fields);
    proof {
        assert(value_field(r, listed[0].0@) == Some(listed[0].1));
        assert(value_field(r, listed[1].0@) == Some(listed[1].1));
        assert(value_field(r, listed[2].0@) == Some(listed[2].1));
        assert(value_field(r, listed[3].0@) == Some(listed[3].1));
        assert(value_field(r, listed[4].0@) == Some(listed[4].1));
    }
    r
}

/// Every element was decoded to a line.
pub open spec fn all_decoded(decoded: Seq<Option<FactureItem>>) -> bool {
    forall|i: int| 0 <= i < decoded.len() ==> (#[trigger] decoded[i]) is Some
}

fn copy_item(item: &FactureItem) -> (r: FactureItem)
    ensures
        r == *item,
{
    FactureItem {
        description: item.description.clone(),
        quantity: item.quantity.clone(),
        prix_unitaire: item.prix_unitaire.clone(),
        frais_service_unitaire: item.frais_service_unitaire.clone(),
        total: item.total.clone(),
    }
}

/// The item list that the decoded elements of an encoded list make up. The
/// list counts only as a whole: where every element is a line, the lines in
/// their order; where one is not, no line at all.
pub fn whole_list(decoded: &Vec<Option<FactureItem>>) -> (r: Vec<FactureItem>)
    ensures
        all_decoded(decoded@) ==> r.len() == decoded.len() && forall|i: int|
            0 <= i < r.len() ==> decoded[i] == Some(#[trigger] r[i]),
        !all_decoded(decoded@) ==> r.len() == 0,
{
    let mut out: Vec<FactureItem> = Vec::new();
    let mut i: usize = 0;
    while i < decoded.len()
        invariant
            i <= decoded.len(),
            out.len() == i,
            forall|j: int| 0 <= j < i ==> decoded[j] == Some(#[trigger] out[j]),
        decreases decoded.len() - i,
    {
        match &decoded[i] {
            Some(item) => {
                out.push(copy_item(item));
            },
            None => {
                assert(!all_decoded(decoded@));
                return Vec::new();
            },
        }
        i += 1;
    }
    assert forall|k: int| 0 <= k < decoded.len() implies (#[trigger] decoded[k]) is Some by {
        assert(decoded[k] == Some(out[k]));
    }
    out
}

/// Decodes the elements of an encoded list: each element by `decode_item`,
/// and the whole by `whole_list`. Where every element is a well-formed line,
/// the result has the line of each, in their order; where one is not, the
/// result is empty.
pub fn decode_elements(elements: &Vec<serde_json::Value>) -> (r: Vec<FactureItem>)
    ensures
        r.len() == elements.len() || r.len() == 0,
        all_items(elements@) ==> encode_all(elements@, r@),
        !all_items(elements@) ==> r.len() == 0,
{
    let mut decoded: Vec<Option<FactureItem>> = Vec::new();
    let mut i: usize = 0;
    while i < elements.len()
        invariant
            i <= elements.len(),
            decoded.len() == i,
            forall|j: int| 0 <= j < i ==> ((#[trigger] decoded[j]) is Some <==> is_item(elements[j])),
            forall|j: int|
                0 <= j < i && (#[trigger] decoded[j]) is Some ==> encodes(
                    elements[j],
                    decoded[j]->Some_0,
                ),
        decreases elements.len() - i,
    {
        decoded.push(decode_item(&elements[i]));
        i += 1;
    }
    let r = whole_list(&decoded);
    proof {
        if all_items(elements@) {
            assert forall|k: int| 0 <= k < decoded.len() implies (#[trigger] decoded[k]) is Some by {
                assert(is_item(elements[k]));
            }
            assert forall|k: int| 0 <= k < r.len() implies encodes(elements[k], #[trigger] r[k]) by {
                assert(decoded[k] == Some(r[k]));
            }
        } else {
            let k = choose|k: int| 0 <= k < elements.len() && !is_item(#[trigger] elements[k]);
            assert(decoded[k] is None);
            assert(!all_decoded(decoded@));
        }
    }
    r
}

/// The item list for a parsed item column: the lines of a JSON array of
/// well-formed lines, and no line where the text was no JSON, no array, or
/// held an element that is no well-formed line.
pub fn decode_items(parsed: Result<serde_json::Value, serde_json::Error>) -> (r: Vec<FactureItem>)
    ensures
        parsed is Err ==> r.len() == 0,
        parsed matches Ok(v) ==> reads_as(Some(v), r@),
{
    match parsed {
        Ok(v) => match json_elements(&v) {
            Some(elements) => decode_elements(&elements),
            None => Vec::new(),
        },
        Err(_) => Vec::new(),
    }
}

/// Reads the item column of an invoice row. A column that does not hold a
/// well-formed item list reads as the empty list; this never fails.
pub fn items_from_json(text: &str) -> (r: Vec<FactureItem>)
    ensures
        reads_as(json_read(text@), r@),
{
    decode_items(json_from_str(text))
}

/// The two lines agree in every field.
pub open spec fn same_fields(a: FactureItem, b: FactureItem) -> bool {
    &&& a.description@ == b.description@
    &&& a.quantity == b.quantity
    &&& a.prix_unitaire == b.prix_unitaire
    &&& a.frais_service_unitaire == b.frais_service_unitaire
    &&& a.total == b.total
}

/// A JSON array of encoded lines reads back as those lines: as many, in the
/// same order, and each with the same fields.
pub proof fn lemma_encoded_items_read_back(
    v: serde_json::Value,
    written: Seq<FactureItem>,
    read: Seq<FactureItem>,
)
    requires
        value_elements(v) is Some,
        encode_all(value_elements(v)->Some_0, written),
        reads_as(Some(v), read),
    ensures
        read.len() == written.len(),
        forall|i: int| 0 <= i < read.len() ==> same_fields(#[trigger] read[i], written[i]),
{
    let elements = value_elements(v)->Some_0;
    assert forall|i: int| 0 <= i < elements.len() implies is_item(#[trigger] elements[i]) by {
        assert(encodes(elements[i], written[i]));
    }
    assert(is_item_list(v));
    assert forall|i: int| 0 <= i < read.len() implies same_fields(#[trigger] read[i], written[i]) by {
        assert(encodes(elements[i], written[i]));
        assert(encodes(elements[i], read[i]));
    }
}

/// `text` is the written form of a JSON array that holds the encoded forms
/// of `items`, one for one and in order.
pub open spec fn is_json_of(text: Seq<char>, items: Seq<FactureItem>) -> bool {
    exists|v: serde_json::Value|
        #![trigger json_written(v)]
        json_written(v) == Some(text) && value_elements(v) is Some && encode_all(
            value_elements(v)->Some_0,
            items,
        )
}

/// Some JSON array that holds the encoded forms of `items`, one for one and
/// in order, has no written form.
pub open spec fn cannot_be_written(items: Seq<FactureItem>) -> bool {
    exists|v: serde_json::Value|
        #![trigger json_written(v)]
        json_written(v) is None && value_elements(v) is Some && encode_all(
            value_elements(v)->Some_0,
            items,
        )
}

/// Writes an item list as the text kept in the item column: a JSON array
/// with one object for each line, in the order of the lines. It fails only
/// where the JSON writer has no text for that array.
pub fn items_to_json(items: &Vec<FactureItem>) -> (r: Result<String, StoreError>)
    ensures
        r matches Ok(text) ==> is_json_of(text@, items@),
        r matches Err(e) ==> e is Json,
        r is Err ==> cannot_be_written(items@),
{
    let mut elements: Vec<serde_json::Value> = Vec::new();
    let mut i: usize = 0;
    while i < items.len()
        invariant
            i <= items.len(),
            elements.len() == i,
            forall|j: int| 0 <= j < i ==> encodes(elements[j], #[trigger] items[j]),
        decreases items.len() - i,
    {
        elements.push(encode_item(&items[i]));
        i += 1;
    }
    let ghost listed = elements@;
    let array = json_array(elements);
    match json_to_string(&array) {
        Ok(text) => {
            proof {
                assert(encode_all(listed, items@));
                assert(json_written(array) == Some(text@));
            }
            Ok(text)
        },
        Err(e) => {
            proof {
                assert(encode_all(listed, items@));
                assert(json_written(array) is None);
            }
            Err(StoreError::Json(e))
        },
    }
}

} // verus!
