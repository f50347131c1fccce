use vstd::prelude::*;

use crate::json::json_string_text;

verus! {

/// An HTTP-level error: a message and the status code to answer with.
#[derive(Clone, Debug)]
pub struct Error {
    pub message: String,
    pub status: u16,
}

impl Error {
    /// The JSON body of the error response.
    pub fn error_body(&self) -> (r: String)
        ensures
            r@ == "{\"error\":"@ + json_string_text(self.message@) + seq!['}'],
    {
        proof {
            reveal_strlit("}");
        }
        let mut out = String::from_str("{\"error\":");
        crate::json::append_json_string(&mut out, self.message.as_str());
        out.append("}");
        proof {
            assert("}"@ =~= seq!['}']);
        }
        out
    }
}

} // verus!
