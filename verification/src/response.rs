//! Pure decoding of the broker's response notification: a two-element wire
//! tuple `(status tag, vardict payload)` turned into a typed envelope.

use vstd::prelude::*;

use crate::error::Error;
use crate::wire::WireValue;

verus! {

/// The broker-reported failure outcomes of a well-formed exchange.
#[derive(Debug, Copy, PartialEq, Hash, Clone, Eq, Structural)]
pub enum ResponseError {
    /// The user cancelled the request.
    Cancelled,
    /// Something else happened.
    Other,
}

impl ResponseError {
    /// A short description of the outcome, for reporting at the edge of the
    /// program.
    pub fn describe(&self) -> (s: &'static str)
        ensures
            self is Cancelled ==> s@ == "Cancelled"@,
            self is Other ==> s@ == "Other"@,
    {
        match self {
            ResponseError::Cancelled => "Cancelled",
            ResponseError::Other => "Other",
        }
    }
}

/// The wire signature of a response notification's body: the status tag (an
/// unsigned 32-bit value) and the string-keyed variant mapping, as one tuple.
pub fn response_signature() -> (s: &'static str)
    ensures
        s@ == "(ua{sv})"@,
{
    "(ua{sv})"
}

/// The status tag of a response notification.  The protocol closes the tag
/// space at these three values; any other numeric tag is a decode error, not
/// a silently-accepted unknown variant.
#[derive(Debug, Copy, PartialEq, Clone, Eq, Structural)]
pub enum ResponseType {
    /// The request was carried out.
    Success,
    /// The user cancelled the interaction.
    Cancelled,
    /// The user interaction ended in some other way.
    Other,
}

/// The variant that the numeric wire tag `tag` names, if any.
pub open spec fn spec_from_tag(tag: u32) -> Option<ResponseType> {
    if tag == 0 {
        Some(ResponseType::Success)
    } else if tag == 1 {
        Some(ResponseType::Cancelled)
    } else if tag == 2 {
        Some(ResponseType::Other)
    } else {
        None
    }
}

/// The numeric wire tag of a status variant.
pub open spec fn spec_tag(t: ResponseType) -> u32 {
    match t {
        ResponseType::Success => 0,
        ResponseType::Cancelled => 1,
        ResponseType::Other => 2,
    }
}

impl ResponseType {
    /// Map a numeric wire tag to its status variant; `None` outside the
    /// closed tag space {0, 1, 2}.
    pub fn from_tag(tag: u32) -> (r: Option<ResponseType>)
        ensures
            r == spec_from_tag(tag),
    {
        if tag == 0 {
            Some(ResponseType::Success)
        } else if tag == 1 {
            Some(ResponseType::Cancelled)
        } else if tag == 2 {
            Some(ResponseType::Other)
        } else {
            None
        }
    }

    /// The numeric wire tag this status variant is sent as.
    pub fn tag(&self) -> (t: u32)
        ensures
            t == spec_tag(*self),
    {
        match self {
            ResponseType::Success => 0,
            ResponseType::Cancelled => 1,
            ResponseType::Other => 2,
        }
    }
}

/// Law: the numeric tag names its variant and nothing else — the
/// tag-to-variant table and the variant-to-tag table are mutual inverses.
pub proof fn lemma_tag_round_trip(t: ResponseType, tag: u32)
    ensures
        spec_from_tag(spec_tag(t)) == Some(t),
        spec_from_tag(tag) matches Some(v) ==> spec_tag(v) == tag,
{
}

/// A payload record that can be decoded from a vardict: a structured record
/// keyed by field name, drawn from the string-keyed variant mapping that a
/// response notification carries.
pub trait PayloadRecord: Sized {
    /// The mathematical decoding of a vardict into this record, `None` when
    /// the vardict does not hold the record's fields in the expected shapes.
    spec fn spec_decode(d: Seq<(String, WireValue)>) -> Option<Self>;

    /// Decode the vardict into the record.
    fn decode(d: &Vec<(String, WireValue)>) -> (r: Option<Self>)
        ensures
            r == Self::spec_decode(d@),
    ;
}

/// The outcome of a request, as reported by the broker's response
/// notification.  A typed payload is present if and only if the outcome is
/// `Success`; the other two outcomes never carry one.
#[derive(Debug, PartialEq)]
pub enum Response<T> {
    /// The request was carried out; the payload holds its results.
    Success(T),
    /// The user cancelled the request.
    Cancelled,
    /// The interaction ended in some other way.
    Other,
}

/// The decoding of the wire tuple `(tag, payload)` into a typed envelope:
/// tag 0 demands a payload that decodes as `T`; tags 1 and 2 keep their
/// payload undecoded; any other tag is malformed.
pub open spec fn spec_decode_response<T: PayloadRecord>(
    tag: u32,
    d: Seq<(String, WireValue)>,
) -> Result<Response<T>, Error> {
    match spec_from_tag(tag) {
        Some(ResponseType::Success) => match T::spec_decode(d) {
            Some(t) => Ok(Response::Success(t)),
            None => Err(Error::MalformedMessage),
        },
        Some(ResponseType::Cancelled) => Ok(Response::Cancelled),
        Some(ResponseType::Other) => Ok(Response::Other),
        None => Err(Error::MalformedMessage),
    }
}

/// Decode the two-element wire tuple `(tag, payload)` of a response
/// notification into a typed envelope.  A pure mapping: the payload is
/// decoded into `T` only when the tag reports success; on the two failure
/// tags the payload has no guaranteed shape and is not validated.
pub fn decode_response<T: PayloadRecord>(tag: u32, d: &Vec<(String, WireValue)>) -> (r: Result<
    Response<T>,
    Error,
>)
    ensures
        r == spec_decode_response::<T>(tag, d@),
{
    match ResponseType::from_tag(tag) {
        Some(ResponseType::Success) => match T::decode(d) {
            Some(t) => Ok(Response::Success(t)),
            None => Err(Error::MalformedMessage),
        },
        Some(ResponseType::Cancelled) => Ok(Response::Cancelled),
        Some(ResponseType::Other) => Ok(Response::Other),
        None => Err(Error::MalformedMessage),
    }
}

/// Law: each tag in the closed tag space decodes to its own envelope.  The
/// success tag requires a decodable payload and yields exactly the decoded
/// record; the two failure tags never require one and always decode.
pub proof fn lemma_valid_tags_decode<T: PayloadRecord>(tag: u32, d: Seq<(String, WireValue)>)
    requires
        tag == 0 || tag == 1 || tag == 2,
    ensures
        tag == 0 ==> spec_decode_response::<T>(tag, d) == (match T::spec_decode(d) {
            Some(t) => Ok::<Response<T>, Error>(Response::Success(t)),
            None => Err::<Response<T>, Error>(Error::MalformedMessage),
        }),
        tag == 1 ==> spec_decode_response::<T>(tag, d) == Ok::<Response<T>, Error>(
            Response::Cancelled,
        ),
        tag == 2 ==> spec_decode_response::<T>(tag, d) == Ok::<Response<T>, Error>(Response::Other),
{
}

/// Law: a typed payload is present in a decoded envelope if and only if the
/// tag reported success — and then the payload is exactly the decoded record.
/// The two failure envelopes never carry one.
pub proof fn lemma_payload_iff_success<T: PayloadRecord>(tag: u32, d: Seq<(String, WireValue)>)
    ensures
        spec_decode_response::<T>(tag, d) matches Ok(outcome) ==> ((outcome is Success) <==> (tag == 0
            && T::spec_decode(d) is Some)),
        spec_decode_response::<T>(tag, d) matches Ok(Response::Success(t)) ==> T::spec_decode(d)
            == Some(t),
{
}

/// Law: a wire tuple whose tag lies outside the closed tag space {0, 1, 2}
/// never decodes — whatever its payload, the result is a malformed-message
/// failure.
pub proof fn lemma_unknown_tag_rejected<T: PayloadRecord>(tag: u32, d: Seq<(String, WireValue)>)
    requires
        tag != 0 && tag != 1 && tag != 2,
    ensures
        spec_decode_response::<T>(tag, d) == Err::<Response<T>, Error>(Error::MalformedMessage),
{
}

/// Law: decoding is a pure function of the wire tuple — byte-identical wire
/// tuples decode to equal envelopes, however often they are decoded.
pub proof fn lemma_decode_deterministic<T: PayloadRecord>(
    tag1: u32,
    d1: Seq<(String, WireValue)>,
    tag2: u32,
    d2: Seq<(String, WireValue)>,
)
    requires
        tag1 == tag2,
        d1 == d2,
    ensures
        spec_decode_response::<T>(tag1, d1) == spec_decode_response::<T>(tag2, d2),
{
}

} // verus!
