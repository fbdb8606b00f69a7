//! Decoding of the external tool's output report: a JSON object mapping
//! each output name to a wrapper object whose `value` field holds the
//! output. Every output becomes a display string: a string value is taken
//! verbatim, every other value keeps its canonical JSON text.

use vstd::prelude::*;
use vstd::string::StringExecFns;
use crate::invoke::ToolError;

verus! {

#[verifier::external_type_specification]
#[verifier::external_body]
pub struct ExValue(serde_json::Value);

/// One JSON value standing in a wrapper object's field, as the decoder
/// reads it: scalar values keep their own shape, and a nested array or
/// object keeps only its canonical JSON text, which is all the decoder
/// ever uses of it.
pub enum JsonLeaf {
    Null,
    Bool(bool),
    /// A number, as its canonical JSON text.
    Num(String),
    /// A string value, verbatim.
    Str(String),
    /// An array or object, as its canonical JSON text.
    Composite(String),
}

/// One output entry's wrapper: a JSON object with its fields in order, or
/// a value of any other shape, which carries no `value` field and is
/// dropped by the decoder.
pub enum OutputWrapper {
    Fields(Vec<(String, JsonLeaf)>),
    NotObject,
}

/// What parsing an output report yields: `None` when the bytes are not a
/// JSON object, and otherwise the entries of that object in the parser's
/// order, each value reduced to an `OutputWrapper`. The result is a
/// function of the bytes alone.
pub uninterp spec fn output_doc_of(bytes: Seq<u8>) -> Option<Seq<(String, OutputWrapper)>>;

/// Relies on serde_json::Value: one arm for each variant; a number, an
/// array or an object keeps its canonical JSON text through the value's
/// Display implementation.
#[verifier::external_body]
fn leaf_of_value(v: serde_json::Value) -> JsonLeaf {
    match v {
        serde_json::Value::Null => JsonLeaf::Null,
        serde_json::Value::Bool(b) => JsonLeaf::Bool(b),
        serde_json::Value::Number(n) => JsonLeaf::Num(n.to_string()),
        serde_json::Value::String(s) => JsonLeaf::Str(s),
        other => JsonLeaf::Composite(other.to_string()),
    }
}

/// Relies on serde_json::Value: an object value hands over its fields in
/// the map's order; any other value has no fields.
#[verifier::external_body]
fn wrapper_of_value(v: serde_json::Value) -> OutputWrapper {
    match v {
        serde_json::Value::Object(fields) => OutputWrapper::Fields(
            fields.into_iter().map(|(k, f)| (k, leaf_of_value(f))).collect(),
        ),
        _ => OutputWrapper::NotObject,
    }
}

/// Relies on serde_json::from_slice: the bytes parse to a top-level JSON
/// object exactly when a map deserializes from them, and the map hands
/// its entries out in a deterministic order, so the parse is a function
/// of the bytes alone.
#[verifier::external_body]
fn parse_output_doc(bytes: &[u8]) -> (r: Option<Vec<(String, OutputWrapper)>>)
    ensures
        r matches Some(d) ==> output_doc_of(bytes@) == Some(d@),
        r is None ==> output_doc_of(bytes@) is None,
{
    let doc: serde_json::Map<String, serde_json::Value> = match serde_json::from_slice(bytes) {
        Ok(doc) => doc,
        Err(_) => return None,
    };
    Some(doc.into_iter().map(|(k, v)| (k, wrapper_of_value(v))).collect())
}

/// The display string of a leaf value: a string verbatim, everything else
/// its canonical JSON text.
pub open spec fn leaf_text(l: JsonLeaf) -> Seq<char> {
    match l {
        JsonLeaf::Null => "null"@,
        JsonLeaf::Bool(b) => if b {
            "true"@
        } else {
            "false"@
        },
        JsonLeaf::Num(s) => s@,
        JsonLeaf::Str(s) => s@,
        JsonLeaf::Composite(s) => s@,
    }
}

/// The first `value` field among a wrapper object's fields.
pub open spec fn wrapper_value_of(fields: Seq<(String, JsonLeaf)>) -> Option<JsonLeaf>
    decreases fields.len(),
{
    if fields.len() == 0 {
        None
    } else if fields[0].0@ == "value"@ {
        Some(fields[0].1)
    } else {
        wrapper_value_of(fields.drop_first())
    }
}

/// The display string of one output entry: the coerced `value` field, or
/// nothing when the wrapper is no object or lacks a `value` field.
pub open spec fn entry_text(w: OutputWrapper) -> Option<Seq<char>> {
    match w {
        OutputWrapper::Fields(fields) => match wrapper_value_of(fields@) {
            Some(l) => Some(leaf_text(l)),
            None => None,
        },
        OutputWrapper::NotObject => None,
    }
}

/// The decoded output set of a parsed report: every entry with a `value`
/// field becomes a name and a display string, in the report's order;
/// entries without one are omitted.
pub open spec fn decoded_doc(doc: Seq<(String, OutputWrapper)>) -> Seq<(Seq<char>, Seq<char>)>
    decreases doc.len(),
{
    if doc.len() == 0 {
        Seq::empty()
    } else {
        (match entry_text(doc[0].1) {
            Some(t) => seq![(doc[0].0@, t)],
            None => Seq::empty(),
        }) + decoded_doc(doc.drop_first())
    }
}

/// The views of a decoded output list.
pub open spec fn pair_views(pairs: Seq<(String, String)>) -> Seq<(Seq<char>, Seq<char>)> {
    pairs.map_values(|p: (String, String)| (p.0@, p.1@))
}

proof fn lemma_decoded_doc_concat(a: Seq<(String, OutputWrapper)>, b: Seq<(String, OutputWrapper)>)
    ensures
        decoded_doc(a + b) == decoded_doc(a) + decoded_doc(b),
    decreases a.len(),
{
    if a.len() == 0 {
        assert(a + b =~= b);
        assert(decoded_doc(a) + decoded_doc(b) =~= decoded_doc(b));
    } else {
        lemma_decoded_doc_concat(a.drop_first(), b);
        assert((a + b).drop_first() =~= a.drop_first() + b);
        assert(decoded_doc(a + b) =~= decoded_doc(a) + decoded_doc(b));
    }
}

fn leaf_display(l: &JsonLeaf) -> (r: String)
    ensures
        r@ == leaf_text(*l),
{
    match l {
        JsonLeaf::Null => String::from_str("null"),
        JsonLeaf::Bool(b) => if *b {
            String::from_str("true")
        } else {
            String::from_str("false")
        },
        JsonLeaf::Num(s) => s.clone(),
        JsonLeaf::Str(s) => s.clone(),
        JsonLeaf::Composite(s) => s.clone(),
    }
}

fn wrapper_value<'a>(fields: &'a Vec<(String, JsonLeaf)>) -> (r: Option<&'a JsonLeaf>)
    ensures
        r matches Some(l) ==> wrapper_value_of(fields@) == Some(*l),
        r is None ==> wrapper_value_of(fields@) is None,
{
    let key = String::from_str("value");
    let mut i: usize = 0;
    proof {
        assert(fields@.skip(0) =~= fields@);
    }
    while i < fields.len()
        invariant
            i <= fields@.len(),
            key@ == "value"@,
            wrapper_value_of(fields@) == wrapper_value_of(fields@.skip(i as int)),
        decreases fields@.len() - i,
    {
        if fields[i].0 == key {
            proof {
                assert(fields@.skip(i as int)[0] == fields@[i as int]);
            }
            return Some(&fields[i].1);
        }
        proof {
            assert(fields@.skip(i as int).drop_first() =~= fields@.skip(i + 1));
        }
        i += 1;
    }
    proof {
        assert(fields@.skip(fields@.len() as int) =~= Seq::<(String, JsonLeaf)>::empty());
    }
    None
}

/// Decode the bytes of the tool's output report into the output set. The
/// report must be a JSON object; each of its entries whose value is an
/// object with a `value` field yields one output, a string value taken
/// verbatim and any other value as its canonical JSON text; all other
/// entries are omitted. Bytes that are no JSON object are refused.
pub fn decode_outputs(bytes: &[u8]) -> (r: Result<Vec<(String, String)>, ToolError>)
    ensures
        output_doc_of(bytes@) matches Some(d) ==> (r matches Ok(out) && pair_views(out@)
            == decoded_doc(d)),
        output_doc_of(bytes@) is None ==> (r matches Err(e) && e == ToolError::OutputDecode),
{
    let doc = match parse_output_doc(bytes) {
        Some(d) => d,
        None => {
            return Err(ToolError::OutputDecode);
        },
    };
    let mut out: Vec<(String, String)> = Vec::new();
    let mut i: usize = 0;
    while i < doc.len()
        invariant
            i <= doc@.len(),
            output_doc_of(bytes@) == Some(doc@),
            pair_views(out@) == decoded_doc(doc@.take(i as int)),
        decreases doc@.len() - i,
    {
        let ghost out_before = out@;
        match &doc[i].1 {
            OutputWrapper::Fields(fields) => {
                match wrapper_value(fields) {
                    Some(l) => {
                        let name = doc[i].0.clone();
                        let text = leaf_display(l);
                        out.push((name, text));
                    },
                    None => (),
                }
            },
            OutputWrapper::NotObject => (),
        }
        proof {
            let entry = doc@[i as int];
            lemma_decoded_doc_concat(doc@.take(i as int), seq![entry]);
            assert(doc@.take(i + 1) =~= doc@.take(i as int) + seq![entry]);
            assert(seq![entry].drop_first() =~= Seq::<(String, OutputWrapper)>::empty());
            assert(decoded_doc(Seq::<(String, OutputWrapper)>::empty()) =~= Seq::<(
                Seq<char>,
                Seq<char>,
            )>::empty());
            match entry_text(entry.1) {
                Some(t) => {
                    assert(decoded_doc(seq![entry]) =~= seq![(entry.0@, t)]);
                    assert(pair_views(out@) =~= pair_views(out_before) + seq![(entry.0@, t)]);
                },
                None => {
                    assert(decoded_doc(seq![entry]) =~= Seq::<(Seq<char>, Seq<char>)>::empty());
                },
            }
            assert(pair_views(out@) =~= decoded_doc(doc@.take(i + 1)));
        }
        i += 1;
    }
    proof {
        assert(doc@.take(doc@.len() as int) =~= doc@);
    }
    Ok(out)
}

} // verus!
