//! The plain per-entity record shape kept for compatibility with earlier
//! runs of the pipeline.

use vstd::prelude::*;
use crate::chars::string_from_chars;
use crate::jsonout::{int_list_chars, json_escaped, push_i32_list, push_json_escaped, push_str_chars};

verus! {

/// A per-entity record carrying the five concentration differences.
#[derive(Debug)]
pub struct Model {
    pub stock_id: String,
    pub exchange_date: String,
    pub concentration: Vec<i32>,
}

impl Model {
    /// The exact JSON text of this record.
    pub open spec fn json_spec(&self) -> Seq<char> {
        "{\"stock_id\":\""@ + json_escaped(self.stock_id@) + "\",\"exchange_date\":\""@
            + json_escaped(self.exchange_date@) + "\",\"concentration\":["@ + int_list_chars(
            self.concentration@.map_values(|x: i32| x as int),
        ) + "]}"@
    }

    /// Serializes the record as one JSON object.
    pub fn to_json(&self) -> (r: String)
        ensures
            r@ == self.json_spec(),
    {
        let mut out: Vec<char> = Vec::new();
        push_str_chars(&mut out, "{\"stock_id\":\"");
        push_json_escaped(&mut out, self.stock_id.as_str());
        push_str_chars(&mut out, "\",\"exchange_date\":\"");
        push_json_escaped(&mut out, self.exchange_date.as_str());
        push_str_chars(&mut out, "\",\"concentration\":[");
        push_i32_list(&mut out, &self.concentration);
        push_str_chars(&mut out, "]}");
        proof {
            assert(out@ =~= self.json_spec());
        }
        string_from_chars(&out)
    }
}

} // verus!
