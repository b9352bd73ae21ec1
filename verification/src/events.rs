//! The event alphabet of the worksheet body: markup tokens as plain values,
//! and attribute lookup over them.

use vstd::prelude::*;

use crate::text::str_eq;

verus! {

/// One attribute of a markup element.
#[derive(Debug, Clone)]
pub struct XmlAttr {
    /// Attribute name as it stood in the source.
    pub key: String,
    /// Attribute value, entity references already resolved.
    pub value: String,
}

/// One token of the worksheet body, with names reduced to their local part
/// and text content already unescaped. The end of input is the end of the
/// token sequence itself.
#[derive(Debug, Clone)]
pub enum XmlEvent {
    /// An opening tag.
    Start { name: String, attrs: Vec<XmlAttr> },
    /// A self-closing tag.
    Empty { name: String, attrs: Vec<XmlAttr> },
    /// A closing tag.
    End { name: String },
    /// Character data between tags.
    Text { content: String },
}

/// Value of the first attribute named `key`, if any.
pub open spec fn spec_attr(attrs: Seq<XmlAttr>, key: Seq<char>) -> Option<Seq<char>>
    decreases attrs.len(),
{
    if attrs.len() == 0 {
        None
    } else if attrs[0].key@ == key {
        Some(attrs[0].value@)
    } else {
        spec_attr(attrs.drop_first(), key)
    }
}

/// Look up the first attribute named `key`.
pub fn get_attribute(attrs: &Vec<XmlAttr>, key: &str) -> (r: Option<String>)
    ensures
        r is Some <==> spec_attr(attrs@, key@) is Some,
        r is Some ==> Some(r->0@) == spec_attr(attrs@, key@),
{
    let n = attrs.len();
    let mut i: usize = 0;
    proof {
        assert(attrs@.skip(0) =~= attrs@);
    }
    while i < n
        invariant
            i <= n == attrs@.len(),
            spec_attr(attrs@, key@) == spec_attr(attrs@.skip(i as int), key@),
        decreases n - i,
    {
        if str_eq(attrs[i].key.as_str(), key) {
            proof {
                assert(attrs@.skip(i as int)[0] == attrs@[i as int]);
            }
            return Some(attrs[i].value.clone());
        }
        proof {
            assert(attrs@.skip(i as int).drop_first() =~= attrs@.skip(i as int + 1));
            assert(attrs@.skip(i as int)[0] == attrs@[i as int]);
        }
        i += 1;
    }
    proof {
        assert(attrs@.skip(n as int).len() == 0);
    }
    None
}

/// A markup truth value: the literal one or the word true.
pub open spec fn spec_bool_attr(v: Seq<char>) -> bool {
    v == "1"@ || v == "true"@
}

/// Read a markup truth value.
pub fn bool_attr(v: &str) -> (r: bool)
    ensures
        r == spec_bool_attr(v@),
{
    str_eq(v, "1") || str_eq(v, "true")
}

} // verus!
