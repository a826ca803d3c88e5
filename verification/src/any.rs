//! The typed envelope: opaque bytes together with a tag that names their type.

use vstd::prelude::*;

verus! {

/// A payload of some message type, with the URL that names the type.
#[derive(Clone, Debug, PartialEq, Eq)]
pub struct Any {
    pub type_url: String,
    pub value: Vec<u8>,
}

/// What an `Any` holds, as mathematical sequences.
pub struct AnyView {
    pub type_url: Seq<char>,
    pub value: Seq<u8>,
}

impl View for Any {
    type V = AnyView;

    open spec fn view(&self) -> AnyView {
        AnyView { type_url: self.type_url@, value: self.value@ }
    }
}

/// The view of an envelope that may be absent.
pub open spec fn option_any_view(any: Option<Any>) -> Option<AnyView> {
    match any {
        Some(a) => Some(a@),
        None => None,
    }
}

/// The views of a list of envelopes, in order.
pub open spec fn any_views(list: Seq<Any>) -> Seq<AnyView> {
    Seq::new(list.len(), |i: int| list[i]@)
}

impl Any {
    /// An envelope with the given tag and payload.
    pub fn new(type_url: String, value: Vec<u8>) -> (r: Any)
        ensures
            r.type_url == type_url,
            r.value == value,
    {
        Any { type_url, value }
    }

    /// A copy with the same tag and payload.
    pub fn duplicate(&self) -> (r: Any)
        ensures
            r@ == self@,
    {
        Any { type_url: self.type_url.clone(), value: self.value.clone() }
    }
}

} // verus!
