//! Utilities on property maps.

use vstd::prelude::*;

use crate::bindings::Bindings;
use crate::value::Value;

verus! {

/// The JSON text that serialization gives to a value.
pub uninterp spec fn json_text_of(v: Value) -> Seq<char>;

/// Relies on `serde_json::to_string`: serializes a value as a string of JSON,
/// a function of the value alone.  Serialization of these plain values cannot
/// fail (only maps with non-string keys can make it fail), and the empty
/// string is returned in that unreachable case.
#[verifier::external_body]
fn value_to_text(v: &Value) -> (r: String)
    ensures
        r@ == json_text_of(*v),
{
    let j: serde_json::Value = match v {
        Value::Null => serde_json::Value::Null,
        Value::Bool(b) => serde_json::Value::Bool(*b),
        Value::Int(i) => serde_json::Value::from(*i),
        Value::Str(s) => serde_json::Value::String(s.clone()),
    };
    serde_json::to_string(&j).unwrap_or_default()
}

/// The pairs of `ps` with every value replaced by its JSON text.
pub open spec fn textified(ps: Seq<(String, Value)>) -> Seq<(Seq<char>, Seq<char>)> {
    ps.map_values(|p: (String, Value)| (p.0@, json_text_of(p.1)))
}

/// Merge two property maps into one map of JSON texts.
///
/// The result binds, in order, every key of `first` and then every key of
/// `second` to the JSON serialization of its value, so a binding of `second`
/// wins over one of `first` for the same key.
pub fn merge_maps(first: &Bindings<Value>, second: &Bindings<Value>) -> (r: Bindings<String>)
    ensures
        r.pairs@.map_values(|p: (String, String)| (p.0@, p.1@)) == textified(
            first.pairs@ + second.pairs@,
        ),
{
    let ghost all = first.pairs@ + second.pairs@;
    let mut r: Bindings<String> = Bindings::new();
    let mut i: usize = 0;
    while i < first.pairs.len()
        invariant
            i <= first.pairs@.len(),
            all == first.pairs@ + second.pairs@,
            r.pairs@.len() == i,
            forall|k: int|
                0 <= k < i ==> (#[trigger] r.pairs@[k]).0@ == all[k].0@ && r.pairs@[k].1@
                    == json_text_of(all[k].1),
        decreases first.pairs@.len() - i,
    {
        let key = first.pairs[i].0.clone();
        let text = value_to_text(&first.pairs[i].1);
        r.push(key, text);
        i = i + 1;
    }
    let n = first.pairs.len();
    let mut j: usize = 0;
    while j < second.pairs.len()
        invariant
            n == first.pairs@.len(),
            j <= second.pairs@.len(),
            all == first.pairs@ + second.pairs@,
            r.pairs@.len() == n + j,
            forall|k: int|
                0 <= k < n + j ==> (#[trigger] r.pairs@[k]).0@ == all[k].0@ && r.pairs@[k].1@
                    == json_text_of(all[k].1),
        decreases second.pairs@.len() - j,
    {
        let key = second.pairs[j].0.clone();
        let text = value_to_text(&second.pairs[j].1);
        r.push(key, text);
        j = j + 1;
    }
    proof {
        assert(r.pairs@.map_values(|p: (String, String)| (p.0@, p.1@)) =~= textified(all));
    }
    r
}

} // verus!
