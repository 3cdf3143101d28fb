use vstd::prelude::*;

verus! {

/// A file found by the Everything index.
#[derive(Debug, Clone)]
pub struct EverythingFile {
    pub name: String,
    pub path: String,
    pub full_path: String,
    pub size: u64,
    /// Last modification, as the index reports it.
    pub modified: i64,
}

/// Handle on the Everything search service.
#[derive(Debug)]
pub struct EverythingClient {
    available: bool,
}

/// What `String::from_utf16` gives for the code units `v`: the text, or
/// nothing when they are not valid UTF-16.
pub uninterp spec fn utf16_decoded(v: Seq<u16>) -> Option<Seq<char>>;

/// Relies on `String::from_utf16`: decodes UTF-16 and fails on unpaired
/// surrogates; the result depends on the code units alone.
#[verifier::external_body]
fn decode_utf16(v: &[u16]) -> (r: Option<String>)
    ensures
        match r {
            Some(s) => utf16_decoded(v@) == Some(s@),
            None => utf16_decoded(v@) is None,
        },
{
    String::from_utf16(v).ok()
}

impl EverythingClient {
    /// A client of the given availability.
    pub fn with_availability(available: bool) -> (r: EverythingClient)
        ensures
            r.is_available_spec() == available,
    {
        EverythingClient { available }
    }

    pub closed spec fn is_available_spec(&self) -> bool {
        self.available
    }

    /// Whether the service answered when the client was made.
    pub fn is_available(&self) -> (r: bool)
        ensures
            r == self.is_available_spec(),
    {
        self.available
    }

    /// The text of a UTF-16 buffer, or `None` when it is not valid UTF-16.
    pub fn from_wide_slice(slice: &[u16]) -> (r: Option<String>)
        ensures
            match r {
                Some(s) => utf16_decoded(slice@) == Some(s@),
                None => utf16_decoded(slice@) is None,
            },
    {
        decode_utf16(slice)
    }
}

} // verus!
