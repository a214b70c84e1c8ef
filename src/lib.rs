use vstd::prelude::*;

pub mod option_builder_pattern;
pub mod type_state_builder_pattern;

verus! {

/// A finished request, seen as plain values.
pub struct RequestView {
    pub url: Seq<char>,
    pub method: Seq<char>,
    pub body: Option<Seq<char>>,
    pub headers: Seq<(Seq<char>, Seq<char>)>,
}

/// The characters of an optional string.
pub open spec fn opt_text(o: Option<String>) -> Option<Seq<char>> {
    match o {
        Some(s) => Some(s@),
        None => None,
    }
}

/// The characters of each key and value of a header list, in order.
pub open spec fn pairs_text(v: Seq<(String, String)>) -> Seq<(Seq<char>, Seq<char>)> {
    v.map_values(|p: (String, String)| (p.0@, p.1@))
}

/// Appending one pair to a header list appends its characters to the view.
pub proof fn lemma_pairs_text_push(v: Seq<(String, String)>, p: (String, String))
    ensures
        pairs_text(v.push(p)) == pairs_text(v).push((p.0@, p.1@)),
{
    assert(pairs_text(v.push(p)) =~= pairs_text(v).push((p.0@, p.1@)));
}

} // verus!
