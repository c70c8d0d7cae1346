use vstd::prelude::*;

use crate::client::FetchError;

verus! {

/// A payload whose structured form is built only when first asked for.
///
/// The payload text is kept in both states, so that writing the value out
/// gives the text it was made from, whether or not it was ever decoded.
#[derive(Debug)]
pub enum LazyResponse<T> {
    /// Not decoded yet: the text as received.
    Raw(String),
    /// Decoded once and for all, beside the text it came from.
    Parsed { value: T, raw: String },
}

impl<T> LazyResponse<T> {
    /// The text the value was made from.
    pub open spec fn payload(&self) -> Seq<char> {
        match self {
            LazyResponse::Raw(raw) => raw@,
            LazyResponse::Parsed { raw, .. } => raw@,
        }
    }

    /// The state after a resolution with the decoder's result `decoded`:
    /// a decoded value is kept for good; a failure leaves the text as it was.
    pub open spec fn resolved(self, decoded: Result<T, FetchError>) -> Self {
        match self {
            LazyResponse::Raw(raw) => match decoded {
                Ok(value) => LazyResponse::Parsed { value, raw },
                Err(_) => self,
            },
            LazyResponse::Parsed { .. } => self,
        }
    }

    /// Holds a payload as received, undecoded.
    pub fn from_raw(raw: String) -> (r: Self)
        ensures
            r == LazyResponse::<T>::Raw(raw),
    {
        LazyResponse::Raw(raw)
    }

    /// The text still waiting to be decoded, if the value is not decoded yet.
    pub fn pending(&self) -> (r: Option<&str>)
        ensures
            self is Raw <==> r is Some,
            r is Some ==> r->0@ == self.payload(),
    {
        match self {
            LazyResponse::Raw(raw) => Some(raw.as_str()),
            LazyResponse::Parsed { .. } => None,
        }
    }

    /// Records the decoder's result for the pending text. A value already
    /// decoded stays as it is and `decoded` is not looked at; a decoding
    /// failure is handed back and leaves the value undecoded.
    pub fn resolve(&mut self, decoded: Result<T, FetchError>) -> (r: Result<(), FetchError>)
        ensures
            *final(self) == old(self).resolved(decoded),
            r is Err <==> (*old(self) is Raw && decoded is Err),
            r is Err ==> r == match decoded { Err(e) => Err::<(), FetchError>(e), Ok(_) => Ok(()) },
    {
        match self {
            LazyResponse::Parsed { .. } => Ok(()),
            LazyResponse::Raw(raw) => match decoded {
                Ok(value) => {
                    let mut text = String::new();
                    std::mem::swap(&mut text, raw);
                    *self = LazyResponse::Parsed { value, raw: text };
                    Ok(())
                },
                Err(e) => Err(e),
            },
        }
    }

    /// The decoded value, once there is one.
    pub fn get(&self) -> (r: Option<&T>)
        ensures
            self is Parsed <==> r is Some,
            r is Some ==> *r->0 == self->Parsed_value,
    {
        match self {
            LazyResponse::Parsed { value, .. } => Some(value),
            LazyResponse::Raw(_) => None,
        }
    }

    /// The text to write out for this value: the payload it was made from,
    /// in either state.
    pub fn serialize(&self) -> (r: &str)
        ensures
            r@ == self.payload(),
    {
        match self {
            LazyResponse::Raw(raw) => raw.as_str(),
            LazyResponse::Parsed { raw, .. } => raw.as_str(),
        }
    }
}

/// Writing a payload out gives it back unchanged, before and after it is
/// decoded, and whatever the decoder made of it.
pub proof fn lemma_round_trip<T>(payload: String, decoded: Result<T, FetchError>)
    ensures
        LazyResponse::<T>::Raw(payload).payload() == payload@,
        LazyResponse::<T>::Raw(payload).resolved(decoded).payload() == payload@,
{
}

/// Decoding happens at most once: after a successful resolution, further
/// resolutions change nothing.
pub proof fn lemma_resolve_memoizes<T>(
    lazy: LazyResponse<T>,
    first: Result<T, FetchError>,
    later: Result<T, FetchError>,
)
    requires
        lazy.resolved(first) is Parsed,
    ensures
        lazy.resolved(first).resolved(later) == lazy.resolved(first),
{
}

} // verus!
