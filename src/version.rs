use vstd::prelude::*;
use vstd::string::*;
use crate::error::BridgeError;
use crate::json::{json_quoted, push_quoted};

verus! {

/// The versions of the command protocol that are served.
#[derive(Debug, Clone)]
pub struct Response {
    pub versions: Vec<String>,
}

/// The items of `s` as JSON strings, separated by commas.
pub open spec fn json_string_list(s: Seq<Seq<char>>) -> Seq<char>
    decreases s.len(),
{
    if s.len() == 0 {
        Seq::empty()
    } else if s.len() == 1 {
        json_quoted(s[0])
    } else {
        json_string_list(s.drop_last()) + seq![','] + json_quoted(s.last())
    }
}

/// `{"versions":[<each version as a JSON string>]}`
pub open spec fn versions_envelope(versions: Seq<Seq<char>>) -> Seq<char> {
    "{\"versions\":["@ + json_string_list(versions) + "]}"@
}

pub open spec fn views(v: Seq<String>) -> Seq<Seq<char>> {
    v.map_values(|s: String| s@)
}

impl Response {
    pub fn encode(&self) -> (r: String)
        ensures
            r@ == versions_envelope(views(self.versions@)),
    {
        let mut out = String::from_str("{\"versions\":[");
        let ghost start = out@;
        let mut i: usize = 0;
        while i < self.versions.len()
            invariant
                i <= self.versions@.len(),
                out@ == start + json_string_list(views(self.versions@).take(i as int)),
            decreases self.versions@.len() - i,
        {
            let ghost before = out@;
            if i > 0 {
                out.append(",");
                proof { reveal_strlit(","); }
            }
            push_quoted(&mut out, self.versions[i].as_str());
            proof {
                let all = views(self.versions@);
                assert(all.take(i + 1).drop_last() =~= all.take(i as int));
                assert(all.take(i + 1).last() == self.versions@[i as int]@);
                if i == 0 {
                    assert(json_string_list(all.take(0)) =~= Seq::<char>::empty());
                    assert(out@ =~= start + json_string_list(all.take(1)));
                } else {
                    assert(out@ =~= start + json_string_list(all.take(i + 1)));
                }
            }
            i = i + 1;
        }
        assert(views(self.versions@).take(self.versions@.len() as int) =~= views(
            self.versions@,
        ));
        out.append("]}");
        out
    }
}

/// The one protocol version served.
pub open spec fn served_versions() -> Seq<Seq<char>> {
    seq!["1.0"@]
}

/// Answers a version request; nothing in the request plays a part.
pub fn process() -> (r: Result<String, BridgeError>)
    ensures
        r matches Ok(t) && t@ == versions_envelope(served_versions()),
{
    let response = Response { versions: vec![String::from_str("1.0")] };
    let text = response.encode();
    assert(views(response.versions@) =~= served_versions());
    Ok(text)
}

} // verus!
