//! The record type of the catalog: one product per element of the input
//! document's top-level array, with every field owned as a plain value.

use vstd::prelude::*;

use crate::json::JsonValue;
use crate::json::get_field;
use crate::json::json_tree;
use crate::json::lookup;
use crate::json::parse_document;
use crate::json::document_tree;

verus! {

/// One catalog entry, created once at load time and never mutated afterwards.
///
/// Every field of the source document is kept as a plain value: strings stay
/// strings (prices and ratings are carried verbatim, not parsed), the list of
/// detail mappings is held as a list of key/value pair lists in document
/// order.
#[derive(Debug)]
pub struct Product {
    pub _id: String,
    pub actual_price: String,
    pub average_rating: String,
    pub brand: String,
    pub category: String,
    pub crawled_at: String,
    pub description: String,
    pub discount: String,
    pub images: Vec<String>,
    pub out_of_stock: bool,
    pub pid: String,
    pub product_details: Vec<Vec<(String, String)>>,
    pub seller: String,
    pub selling_price: String,
    pub sub_category: String,
    pub title: String,
    pub url: String,
}

/// The mathematical value of a `Product`: each string as its character
/// sequence, each list as a sequence.
pub ghost struct ProductView {
    pub _id: Seq<char>,
    pub actual_price: Seq<char>,
    pub average_rating: Seq<char>,
    pub brand: Seq<char>,
    pub category: Seq<char>,
    pub crawled_at: Seq<char>,
    pub description: Seq<char>,
    pub discount: Seq<char>,
    pub images: Seq<Seq<char>>,
    pub out_of_stock: bool,
    pub pid: Seq<char>,
    pub product_details: Seq<Seq<(Seq<char>, Seq<char>)>>,
    pub seller: Seq<char>,
    pub selling_price: Seq<char>,
    pub sub_category: Seq<char>,
    pub title: Seq<char>,
    pub url: Seq<char>,
}

impl View for Product {
    type V = ProductView;

    open spec fn view(&self) -> ProductView {
        ProductView {
            _id: self._id@,
            actual_price: self.actual_price@,
            average_rating: self.average_rating@,
            brand: self.brand@,
            category: self.category@,
            crawled_at: self.crawled_at@,
            description: self.description@,
            discount: self.discount@,
            images: self.images.deep_view(),
            out_of_stock: self.out_of_stock,
            pid: self.pid@,
            product_details: self.product_details.deep_view(),
            seller: self.seller@,
            selling_price: self.selling_price@,
            sub_category: self.sub_category@,
            title: self.title@,
            url: self.url@,
        }
    }
}

impl DeepView for Product {
    type V = ProductView;

    open spec fn deep_view(&self) -> ProductView {
        self.view()
    }
}

/// Why a document was rejected: not syntactically valid JSON, or valid JSON
/// whose shape does not match the record schema.
#[derive(Clone, Copy, Debug, PartialEq, Eq, Structural)]
pub enum DecodeError {
    Syntax,
    Shape,
}

/// The named field of a decoded object when it holds a string.
pub open spec fn str_field(fields: Seq<(String, JsonValue)>, key: Seq<char>) -> Option<Seq<char>> {
    match lookup(fields, key) {
        Some(JsonValue::Str(s)) => Some(s@),
        _ => None,
    }
}

/// The named field of a decoded object when it holds a boolean.
pub open spec fn bool_field(fields: Seq<(String, JsonValue)>, key: Seq<char>) -> Option<bool> {
    match lookup(fields, key) {
        Some(JsonValue::Bool(b)) => Some(b),
        _ => None,
    }
}

/// The elements of a JSON array when every one of them is a string.
pub open spec fn str_items(items: Seq<JsonValue>) -> Option<Seq<Seq<char>>> {
    if forall|k: int| 0 <= k < items.len() ==> items[k] is Str {
        Some(Seq::new(items.len(), |k: int| items[k]->Str_0@))
    } else {
        None
    }
}

/// The pairs of a decoded JSON object when every value in it is a string.
pub open spec fn str_pairs(fields: Seq<(String, JsonValue)>) -> Option<
    Seq<(Seq<char>, Seq<char>)>,
> {
    if forall|k: int| 0 <= k < fields.len() ==> fields[k].1 is Str {
        Some(Seq::new(fields.len(), |k: int| (fields[k].0@, fields[k].1->Str_0@)))
    } else {
        None
    }
}

/// The elements of a JSON array when every one is an object of strings.
pub open spec fn detail_items(items: Seq<JsonValue>) -> Option<
    Seq<Seq<(Seq<char>, Seq<char>)>>,
> {
    if forall|k: int|
        0 <= k < items.len() ==> items[k] is Object && str_pairs(items[k]->Object_0@) is Some {
        Some(Seq::new(items.len(), |k: int| str_pairs(items[k]->Object_0@)->Some_0))
    } else {
        None
    }
}

/// The named field when it holds an array of strings.
pub open spec fn str_list_field(fields: Seq<(String, JsonValue)>, key: Seq<char>) -> Option<
    Seq<Seq<char>>,
> {
    match lookup(fields, key) {
        Some(JsonValue::Array(a)) => str_items(a@),
        _ => None,
    }
}

/// The named field when it holds an array of objects of strings.
pub open spec fn details_field(fields: Seq<(String, JsonValue)>, key: Seq<char>) -> Option<
    Seq<Seq<(Seq<char>, Seq<char>)>>,
> {
    match lookup(fields, key) {
        Some(JsonValue::Array(a)) => detail_items(a@),
        _ => None,
    }
}

/// The record decoded from one JSON object: every field of the schema must be
/// present under its name with the required shape, otherwise the object is
/// rejected. Fields not named in the schema are ignored.
pub open spec fn product_of(fields: Seq<(String, JsonValue)>) -> Option<ProductView> {
    let _id = str_field(fields, "_id"@);
    let actual_price = str_field(fields, "actual_price"@);
    let average_rating = str_field(fields, "average_rating"@);
    let brand = str_field(fields, "brand"@);
    let category = str_field(fields, "category"@);
    let crawled_at = str_field(fields, "crawled_at"@);
    let description = str_field(fields, "description"@);
    let discount = str_field(fields, "discount"@);
    let images = str_list_field(fields, "images"@);
    let out_of_stock = bool_field(fields, "out_of_stock"@);
    let pid = str_field(fields, "pid"@);
    let product_details = details_field(fields, "product_details"@);
    let seller = str_field(fields, "seller"@);
    let selling_price = str_field(fields, "selling_price"@);
    let sub_category = str_field(fields, "sub_category"@);
    let title = str_field(fields, "title"@);
    let url = str_field(fields, "url"@);
    if _id is Some && actual_price is Some && average_rating is Some && brand is Some
        && category is Some && crawled_at is Some && description is Some && discount is Some
        && images is Some && out_of_stock is Some && pid is Some && product_details is Some
        && seller is Some && selling_price is Some && sub_category is Some && title is Some
        && url is Some {
        Some(
            ProductView {
                _id: _id->Some_0,
                actual_price: actual_price->Some_0,
                average_rating: average_rating->Some_0,
                brand: brand->Some_0,
                category: category->Some_0,
                crawled_at: crawled_at->Some_0,
                description: description->Some_0,
                discount: discount->Some_0,
                images: images->Some_0,
                out_of_stock: out_of_stock->Some_0,
                pid: pid->Some_0,
                product_details: product_details->Some_0,
                seller: seller->Some_0,
                selling_price: selling_price->Some_0,
                sub_category: sub_category->Some_0,
                title: title->Some_0,
                url: url->Some_0,
            },
        )
    } else {
        None
    }
}

/// The record decoded from one array element: the element must be an object.
pub open spec fn item_product(j: JsonValue) -> Option<ProductView> {
    match j {
        JsonValue::Object(fields) => product_of(fields@),
        _ => None,
    }
}

/// The records of the document's top-level array, when every element decodes;
/// there is no per-record recovery.
pub open spec fn records_of(items: Seq<JsonValue>) -> Option<Seq<ProductView>> {
    if forall|k: int| 0 <= k < items.len() ==> item_product(items[k]) is Some {
        Some(Seq::new(items.len(), |k: int| item_product(items[k])->Some_0))
    } else {
        None
    }
}

/// What decoding a parsed document yields: the whole record set in document
/// order, or a shape error.
pub open spec fn decode_products_spec(j: JsonValue) -> Result<Seq<ProductView>, DecodeError> {
    match j {
        JsonValue::Array(items) => match records_of(items@) {
            Some(ps) => Ok(ps),
            None => Err(DecodeError::Shape),
        },
        _ => Err(DecodeError::Shape),
    }
}

/// What loading from text yields: a syntax error on malformed JSON, otherwise
/// the decode of the parsed tree.
pub open spec fn parse_products_spec(s: Seq<char>) -> Result<Seq<ProductView>, DecodeError> {
    match json_tree(s) {
        None => Err(DecodeError::Syntax),
        Some(j) => decode_products_spec(j),
    }
}

/// Law: a document that decodes keeps its length and, element by element, the
/// decoded record of each source object, in document order.
pub proof fn lemma_records_preserved(items: Seq<JsonValue>)
    requires
        records_of(items) is Some,
    ensures
        records_of(items)->Some_0.len() == items.len(),
        forall|k: int|
            0 <= k < items.len() ==> item_product(items[k]) is Some && records_of(items)->Some_0[k]
                == item_product(items[k])->Some_0,
{
}

fn get_string(fields: &Vec<(String, JsonValue)>, key: &str) -> (r: Option<String>)
    ensures
        match r {
            Some(s) => str_field(fields@, key@) == Some(s@),
            None => str_field(fields@, key@) is None,
        },
{
    match get_field(fields, key) {
        Some(JsonValue::Str(s)) => Some(s.clone()),
        _ => None,
    }
}

fn get_bool(fields: &Vec<(String, JsonValue)>, key: &str) -> (r: Option<bool>)
    ensures
        match r {
            Some(b) => bool_field(fields@, key@) == Some(b),
            None => bool_field(fields@, key@) is None,
        },
{
    match get_field(fields, key) {
        Some(JsonValue::Bool(b)) => Some(*b),
        _ => None,
    }
}

fn string_items(items: &Vec<JsonValue>) -> (r: Option<Vec<String>>)
    ensures
        match r {
            Some(v) => str_items(items@) == Some(v.deep_view()),
            None => str_items(items@) is None,
        },
{
    let n = items.len();
    let mut out: Vec<String> = Vec::new();
    let mut i: usize = 0;
    while i < n
        invariant
            n == items.len(),
            i <= n,
            out@.len() == i,
            forall|k: int| 0 <= k < i ==> items@[k] is Str,
            forall|k: int| 0 <= k < i ==> out@[k]@ == items@[k]->Str_0@,
        decreases n - i,
    {
        match &items[i] {
            JsonValue::Str(s) => out.push(s.clone()),
            _ => {
                proof {
                    assert(!(items@[i as int] is Str));
                }
                return None;
            },
        }
        i += 1;
    }
    proof {
        assert(str_items(items@) is Some);
        assert forall|k: int| 0 <= k < n implies out.deep_view()[k] == str_items(
            items@,
        )->Some_0[k] by {
            assert(out.deep_view()[k] == out@[k]@);
        }
        assert(str_items(items@)->Some_0 =~= out.deep_view());
    }
    Some(out)
}

fn string_pairs(fields: &Vec<(String, JsonValue)>) -> (r: Option<Vec<(String, String)>>)
    ensures
        match r {
            Some(v) => str_pairs(fields@) == Some(v.deep_view()),
            None => str_pairs(fields@) is None,
        },
{
    let n = fields.len();
    let mut out: Vec<(String, String)> = Vec::new();
    let mut i: usize = 0;
    while i < n
        invariant
            n == fields.len(),
            i <= n,
            out@.len() == i,
            forall|k: int| 0 <= k < i ==> fields@[k].1 is Str,
            forall|k: int|
                0 <= k < i ==> out@[k].0@ == fields@[k].0@ && out@[k].1@ == fields@[k].1->Str_0@,
        decreases n - i,
    {
        match &fields[i].1 {
            JsonValue::Str(s) => out.push((fields[i].0.clone(), s.clone())),
            _ => {
                proof {
                    assert(!(fields@[i as int].1 is Str));
                }
                return None;
            },
        }
        i += 1;
    }
    proof {
        assert(str_pairs(fields@) is Some);
        assert forall|k: int| 0 <= k < n implies out.deep_view()[k] == str_pairs(
            fields@,
        )->Some_0[k] by {
            assert(out.deep_view()[k] == (out@[k].0@, out@[k].1@));
        }
        assert(str_pairs(fields@)->Some_0 =~= out.deep_view());
    }
    Some(out)
}

fn detail_entries(items: &Vec<JsonValue>) -> (r: Option<Vec<Vec<(String, String)>>>)
    ensures
        match r {
            Some(v) => detail_items(items@) == Some(v.deep_view()),
            None => detail_items(items@) is None,
        },
{
    let n = items.len();
    let mut out: Vec<Vec<(String, String)>> = Vec::new();
    let mut i: usize = 0;
    while i < n
        invariant
            n == items.len(),
            i <= n,
            out@.len() == i,
            forall|k: int|
                0 <= k < i ==> items@[k] is Object && str_pairs(items@[k]->Object_0@) is Some,
            forall|k: int|
                0 <= k < i ==> out@[k].deep_view() == str_pairs(items@[k]->Object_0@)->Some_0,
        decreases n - i,
    {
        match &items[i] {
            JsonValue::Object(fields) => match string_pairs(fields) {
                Some(m) => out.push(m),
                None => {
                    proof {
                        assert(str_pairs(items@[i as int]->Object_0@) is None);
                    }
                    return None;
                },
            },
            _ => {
                proof {
                    assert(!(items@[i as int] is Object));
                }
                return None;
            },
        }
        i += 1;
    }
    proof {
        assert(detail_items(items@) is Some);
        assert forall|k: int| 0 <= k < n implies out.deep_view()[k] == detail_items(
            items@,
        )->Some_0[k] by {
            assert(out.deep_view()[k] == out@[k].deep_view());
        }
        assert(detail_items(items@)->Some_0 =~= out.deep_view());
    }
    Some(out)
}

fn get_str_list(fields: &Vec<(String, JsonValue)>, key: &str) -> (r: Option<Vec<String>>)
    ensures
        match r {
            Some(v) => str_list_field(fields@, key@) == Some(v.deep_view()),
            None => str_list_field(fields@, key@) is None,
        },
{
    match get_field(fields, key) {
        Some(JsonValue::Array(items)) => string_items(items),
        _ => None,
    }
}

fn get_details(fields: &Vec<(String, JsonValue)>, key: &str) -> (r: Option<
    Vec<Vec<(String, String)>>,
>)
    ensures
        match r {
            Some(v) => details_field(fields@, key@) == Some(v.deep_view()),
            None => details_field(fields@, key@) is None,
        },
{
    match get_field(fields, key) {
        Some(JsonValue::Array(items)) => detail_entries(items),
        _ => None,
    }
}

/// Decodes one record from the fields of one JSON object.
fn decode_product(fields: &Vec<(String, JsonValue)>) -> (r: Option<Product>)
    ensures
        match r {
            Some(p) => product_of(fields@) == Some(p.deep_view()),
            None => product_of(fields@) is None,
        },
{
    let _id = match get_string(fields, "_id") {
        Some(s) => s,
        None => {
            return None;
        },
    };
    let actual_price = match get_string(fields, "actual_price") {
        Some(s) => s,
        None => {
            return None;
        },
    };
    let average_rating = match get_string(fields, "average_rating") {
        Some(s) => s,
        None => {
            return None;
        },
    };
    let brand = match get_string(fields, "brand") {
        Some(s) => s,
        None => {
            return None;
        },
    };
    let category = match get_string(fields, "category") {
        Some(s) => s,
        None => {
            return None;
        },
    };
    let crawled_at = match get_string(fields, "crawled_at") {
        Some(s) => s,
        None => {
            return None;
        },
    };
    let description = match get_string(fields, "description") {
        Some(s) => s,
        None => {
            return None;
        },
    };
    let discount = match get_string(fields, "discount") {
        Some(s) => s,
        None => {
            return None;
        },
    };
    let images = match get_str_list(fields, "images") {
        Some(v) => v,
        None => {
            return None;
        },
    };
    let out_of_stock = match get_bool(fields, "out_of_stock") {
        Some(b) => b,
        None => {
            return None;
        },
    };
    let pid = match get_string(fields, "pid") {
        Some(s) => s,
        None => {
            return None;
        },
    };
    let product_details = match get_details(fields, "product_details") {
        Some(v) => v,
        None => {
            return None;
        },
    };
    let seller = match get_string(fields, "seller") {
        Some(s) => s,
        None => {
            return None;
        },
    };
    let selling_price = match get_string(fields, "selling_price") {
        Some(s) => s,
        None => {
            return None;
        },
    };
    let sub_category = match get_string(fields, "sub_category") {
        Some(s) => s,
        None => {
            return None;
        },
    };
    let title = match get_string(fields, "title") {
        Some(s) => s,
        None => {
            return None;
        },
    };
    let url = match get_string(fields, "url") {
        Some(s) => s,
        None => {
            return None;
        },
    };
    Some(
        Product {
            _id,
            actual_price,
            average_rating,
            brand,
            category,
            crawled_at,
            description,
            discount,
            images,
            out_of_stock,
            pid,
            product_details,
            seller,
            selling_price,
            sub_category,
            title,
            url,
        },
    )
}

/// Decodes the whole record set from a parsed document: the document must be
/// an array and every element must decode, otherwise the whole call fails
/// with a shape error.
pub fn decode_products(document: &JsonValue) -> (r: Result<Vec<Product>, DecodeError>)
    ensures
        (r matches Ok(ps) ==> decode_products_spec(*document) == Ok::<
            Seq<ProductView>,
            DecodeError,
        >(ps.deep_view())),
        (r matches Err(e) ==> decode_products_spec(*document) == Err::<
            Seq<ProductView>,
            DecodeError,
        >(e)),
{
    match document {
        JsonValue::Array(items) => {
            proof {
                assert(*document == JsonValue::Array(*items));
            }
            let n = items.len();
            let mut out: Vec<Product> = Vec::new();
            let mut i: usize = 0;
            while i < n
                invariant
                    *document == JsonValue::Array(*items),
                    n == items.len(),
                    i <= n,
                    out@.len() == i,
                    forall|k: int| 0 <= k < i ==> item_product(items@[k]) is Some,
                    forall|k: int|
                        0 <= k < i ==> out@[k].deep_view() == item_product(items@[k])->Some_0,
                decreases n - i,
            {
                match &items[i] {
                    JsonValue::Object(fields) => match decode_product(fields) {
                        Some(p) => out.push(p),
                        None => {
                            proof {
                                assert(item_product(items@[i as int]) is None);
                                assert(records_of(items@) is None);
                            }
                            return Err(DecodeError::Shape);
                        },
                    },
                    _ => {
                        proof {
                            assert(item_product(items@[i as int]) is None);
                            assert(records_of(items@) is None);
                        }
                        return Err(DecodeError::Shape);
                    },
                }
                i += 1;
            }
            proof {
                assert(records_of(items@) is Some);
                assert forall|k: int| 0 <= k < n implies out.deep_view()[k] == records_of(
                    items@,
                )->Some_0[k] by {
                    assert(out.deep_view()[k] == out@[k].deep_view());
                }
                assert(records_of(items@)->Some_0 =~= out.deep_view());
            }
            Ok(out)
        },
        _ => Err(DecodeError::Shape),
    }
}

/// Decodes a JSON text into the record set: the text must be one valid JSON
/// array whose every element is an object of the record schema. Either the
/// whole set decodes or the call fails as a whole.
pub fn parse_json_product(json_str: &str) -> (r: Result<Vec<Product>, DecodeError>)
    ensures
        (r matches Ok(ps) ==> parse_products_spec(json_str@) == Ok::<
            Seq<ProductView>,
            DecodeError,
        >(ps.deep_view())),
        (r matches Err(e) ==> parse_products_spec(json_str@) == Err::<
            Seq<ProductView>,
            DecodeError,
        >(e)),
{
    match parse_document(json_str) {
        Err(_) => Err(DecodeError::Syntax),
        Ok(v) => {
            let tree = document_tree(&v);
            decode_products(&tree)
        },
    }
}

} // verus!
