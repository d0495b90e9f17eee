use core::convert::Infallible;
use core::num::TryFromIntError;
use vstd::prelude::*;

verus! {

/// The text with which every conversion error's message begins.
pub open spec fn conversion_message_prefix() -> Seq<char> {
    "Unable to convert "@
}

/// Whether `s` is the message of a conversion error: the common prefix,
/// followed by a description of the failure.
pub open spec fn is_conversion_message(s: Seq<char>) -> bool {
    &&& s.len() >= conversion_message_prefix().len()
    &&& s.subrange(0, conversion_message_prefix().len() as int) == conversion_message_prefix()
}

/// The error of a conversion whose value does not fit the requested width.
#[derive(Debug)]
pub struct ConvertError {
    message: String,
}

/// Relies on `format!` for the `Debug` text of `TryFromIntError`.
#[verifier::external_body]
fn describe(e: &TryFromIntError) -> String {
    format!("{:?}", e)
}

/// Relies on `format!` for the `Debug` text of `Infallible`.
#[verifier::external_body]
fn describe_infallible(e: &Infallible) -> String {
    format!("{:?}", e)
}

/// Relies on `String::push_str`, which appends `tail` to `s`.
#[verifier::external_body]
fn append(s: &mut String, tail: &str)
    ensures
        final(s)@ == old(s)@ + tail@,
{
    s.push_str(tail)
}

impl View for ConvertError {
    type V = Seq<char>;

    /// The text of the message.
    closed spec fn view(&self) -> Seq<char> {
        self.message@
    }
}

impl ConvertError {
    /// An error whose message is the common prefix followed by `detail`.
    fn with_detail(detail: &str) -> (r: ConvertError)
        ensures
            r@ == conversion_message_prefix() + detail@,
    {
        let mut message = "Unable to convert ".to_owned();
        append(&mut message, detail);
        ConvertError { message }
    }

    /// The human-readable description of the failed conversion.
    pub fn message(&self) -> (r: &str)
        ensures
            r@ == self@,
    {
        self.message.as_str()
    }
}

impl From<TryFromIntError> for ConvertError {
    fn from(value: TryFromIntError) -> (r: Self)
        ensures
            is_conversion_message(r@),
    {
        let detail = describe(&value);
        let r = ConvertError::with_detail(detail.as_str());
        assert(r@.subrange(0, conversion_message_prefix().len() as int)
            =~= conversion_message_prefix());
        r
    }
}

impl vstd::std_specs::convert::FromSpecImpl<TryFromIntError> for ConvertError {
    open spec fn obeys_from_spec() -> bool {
        false
    }

    open spec fn from_spec(v: TryFromIntError) -> ConvertError {
        arbitrary()
    }
}

impl From<Infallible> for ConvertError {
    fn from(value: Infallible) -> (r: Self)
        ensures
            is_conversion_message(r@),
    {
        let detail = describe_infallible(&value);
        let r = ConvertError::with_detail(detail.as_str());
        assert(r@.subrange(0, conversion_message_prefix().len() as int)
            =~= conversion_message_prefix());
        r
    }
}

impl vstd::std_specs::convert::FromSpecImpl<Infallible> for ConvertError {
    open spec fn obeys_from_spec() -> bool {
        false
    }

    open spec fn from_spec(v: Infallible) -> ConvertError {
        arbitrary()
    }
}

/// Carries a narrowing result over, with the error described.
pub(crate) fn lift<T>(r: Result<T, TryFromIntError>) -> (o: Result<T, ConvertError>)
    ensures
        o is Ok <==> r is Ok,
        r matches Ok(x) ==> o matches Ok(y) && y == x,
        o matches Err(e) ==> is_conversion_message(e@),
{
    match r {
        Ok(x) => Ok(x),
        Err(e) => Err(ConvertError::from(e)),
    }
}

} // verus!
