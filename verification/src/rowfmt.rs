//! The on-disk text of a sample log: the header line and the data rows.
//!
//! A log starts with the literal header `args,n_exec,total_elapsed_time`.
//! Each sample then occupies one row: the quoted, parenthesis-wrapped,
//! trailing-comma-terminated property tuple (`()` when empty), the literal
//! occurrence count `1`, and the elapsed seconds in scientific notation with
//! six fractional digits. Every line ends in a newline.

use vstd::prelude::*;

use crate::numfmt::sci_string;
use crate::numfmt::spec_sci;

verus! {

/// The header line, newline included.
pub open spec fn spec_header() -> Seq<char> {
    "args,n_exec,total_elapsed_time\n"@
}

/// The header written once when a log is created.
pub fn header_line() -> (r: &'static str)
    ensures
        r@ == spec_header(),
{
    "args,n_exec,total_elapsed_time\n"
}

/// The inside of the property tuple: every property followed by a comma, so
/// that a one-element set prints as `2,` and an empty set as nothing.
pub open spec fn spec_props_body(props: Seq<Seq<char>>) -> Seq<char>
    decreases props.len(),
{
    if props.len() == 0 {
        Seq::empty()
    } else {
        props[0] + seq![','] + spec_props_body(props.drop_first())
    }
}

pub proof fn lemma_props_body_snoc(props: Seq<Seq<char>>, p: Seq<char>)
    ensures
        spec_props_body(props.push(p)) == spec_props_body(props) + p + seq![','],
    decreases props.len(),
{
    if props.len() == 0 {
        assert(spec_props_body(Seq::<Seq<char>>::empty()) == Seq::<char>::empty());
        assert(props.push(p).drop_first() =~= Seq::<Seq<char>>::empty());
        assert(props.push(p)[0] == p);
        assert(spec_props_body(props.push(p)) =~= p + seq![',']);
        assert(spec_props_body(props) + p + seq![','] =~= p + seq![',']);
    } else {
        assert(props.push(p).drop_first() =~= props.drop_first().push(p));
        lemma_props_body_snoc(props.drop_first(), p);
        assert(spec_props_body(props.push(p)) =~= spec_props_body(props) + p + seq![
            ',',
        ]);
    }
}

/// One data row for a sample: properties, the literal `1`, and the elapsed
/// nanoseconds expressed in seconds, newline-terminated.
pub open spec fn spec_row(props: Seq<Seq<char>>, nanos: nat) -> Seq<char> {
    "\"("@ + spec_props_body(props) + ")\",1,"@ + spec_sci(nanos) + "\n"@
}

/// Renders the row for one sample, matching `spec_row`.
pub fn format_row(properties: &Vec<String>, elapsed_nanos: u64) -> (r: String)
    ensures
        r@ == spec_row(
            properties@.map_values(|p: String| p@),
            elapsed_nanos as nat,
        ),
{
    proof {
        reveal_strlit(",");
    }
    let ghost props = properties@.map_values(|p: String| p@);
    let mut s = "\"(".to_owned();
    let mut i: usize = 0;
    proof {
        assert(props.take(0) =~= Seq::<Seq<char>>::empty());
    }
    while i < properties.len()
        invariant
            i <= properties.len(),
            props == properties@.map_values(|p: String| p@),
            props.len() == properties.len(),
            s@ == "\"("@ + spec_props_body(props.take(i as int)),
        decreases properties.len() - i,
    {
        let p = &properties[i];
        s.append(p.as_str());
        s.append(",");
        proof {
            reveal_strlit(",");
            assert(p@ == props[i as int]);
            lemma_props_body_snoc(props.take(i as int), props[i as int]);
            assert(props.take(i + 1) =~= props.take(i as int).push(props[i as int]));
            assert(s@ =~= "\"("@ + spec_props_body(props.take(i + 1)));
        }
        i = i + 1;
    }
    proof {
        assert(props.take(properties.len() as int) =~= props);
    }
    s.append(")\",1,");
    let sci = sci_string(elapsed_nanos);
    s.append(sci.as_str());
    s.append("\n");
    proof {
        assert(s@ =~= spec_row(props, elapsed_nanos as nat));
    }
    s
}

} // verus!
