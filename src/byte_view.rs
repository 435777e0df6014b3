use vstd::prelude::*;

use crate::compiler::{ConfigField, Error};

verus! {

/// What `String::from_utf8` yields for these bytes: the decoded text when they
/// are valid UTF-8, `None` otherwise.
pub uninterp spec fn utf8_decoded(b: Seq<u8>) -> Option<Seq<char>>;

/// The text that a view converts to: absent when empty, else its decoding.
pub open spec fn view_text(v: Seq<u8>) -> Option<Seq<char>> {
    if v.len() == 0 {
        None
    } else {
        utf8_decoded(v)
    }
}

/// The view is empty or holds valid UTF-8.
pub open spec fn view_is_text(v: Seq<u8>) -> bool {
    v.len() == 0 || utf8_decoded(v) is Some
}

/// Relies on `String::from_utf8`: it decodes valid UTF-8 and rejects anything else,
/// and the text it decodes depends on the bytes alone.
#[verifier::external_body]
fn decode_utf8(b: &[u8]) -> (r: Option<String>)
    ensures
        match r {
            Some(s) => utf8_decoded(b@) == Some(s@),
            None => utf8_decoded(b@) is None,
        },
{
    String::from_utf8(b.to_vec()).ok()
}

/// A view of bytes owned by the caller. A view of length zero stands for an
/// absent value.
pub struct ByteSliceView {
    bytes: Vec<u8>,
}

impl View for ByteSliceView {
    type V = Seq<u8>;

    closed spec fn view(&self) -> Seq<u8> {
        self.bytes@
    }
}

impl ByteSliceView {
    /// A view of the given bytes.
    pub fn new(bytes: Vec<u8>) -> (r: ByteSliceView)
        ensures
            r@ == bytes@,
    {
        ByteSliceView { bytes }
    }

    /// The view that stands for an absent value.
    pub fn nil() -> (r: ByteSliceView)
        ensures
            r@.len() == 0,
    {
        ByteSliceView { bytes: Vec::new() }
    }

    /// Whether the view stands for an absent value.
    pub fn is_nil(&self) -> (r: bool)
        ensures
            r == (self@.len() == 0),
    {
        self.bytes.len() == 0
    }

    /// The bytes of the view, or `None` for an empty view.
    pub fn read(&self) -> (r: Option<&[u8]>)
        ensures
            self@.len() == 0 ==> r is None,
            self@.len() > 0 ==> (r matches Some(b) && b@ == self@),
    {
        if self.bytes.len() == 0 {
            None
        } else {
            Some(self.bytes.as_slice())
        }
    }

    /// The text of the view: `None` for an empty view, the decoded text for
    /// valid UTF-8, and an error naming `field` otherwise.
    pub fn read_text(&self, field: ConfigField) -> (r: Result<Option<String>, Error>)
        ensures
            view_is_text(self@) ==> (r matches Ok(t) && match t {
                Some(s) => view_text(self@) == Some(s@),
                None => view_text(self@) is None,
            }),
            !view_is_text(self@) ==> r == Err::<Option<String>, Error>(Error::MalformedText(field)),
    {
        match self.read() {
            None => Ok(None),
            Some(b) => match decode_utf8(b) {
                Some(s) => Ok(Some(s)),
                None => Err(Error::MalformedText(field)),
            },
        }
    }
}

} // verus!
