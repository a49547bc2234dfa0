use vstd::prelude::*;
use crate::error::{Error, error_code, error_message};

verus! {

/// The message of a successful response.
pub open spec fn success_message() -> Seq<char> {
    "success"@
}

/// Response of an RPC handler: a code (zero for success), a message, and
/// the data, if any.
#[derive(Debug)]
pub struct Response<T> {
    pub code: u32,
    pub message: String,
    pub data: Option<T>,
}

impl<T> Default for Response<T> {
    /// A successful response without data.
    fn default() -> (r: Self)
        ensures
            r.code == 0,
            r.message@ == success_message(),
            r.data is None,
    {
        Response { code: 0, message: String::from_str("success"), data: None }
    }
}

impl<T> vstd::std_specs::convert::FromSpecImpl<Error> for Response<T> {
    /// The response's message is only known by its view, so the exact value
    /// is not promised here; `from` states the fields in its own `ensures`.
    open spec fn obeys_from_spec() -> bool {
        false
    }

    open spec fn from_spec(v: Error) -> Self {
        Response { code: error_code(v), message: vstd::pervasive::arbitrary(), data: None }
    }
}

impl<T> From<Error> for Response<T> {
    /// The response that reports an error: its code and message, no data.
    fn from(e: Error) -> (r: Self)
        ensures
            r.reports(e),
    {
        Response { code: e.code(), message: e.message(), data: None }
    }
}

impl<T> Response<T> {
    /// The response reports `e`: it carries the error's code and message and
    /// no data.
    pub open spec fn reports(self, e: Error) -> bool {
        &&& self.code == error_code(e)
        &&& self.message@ == error_message(e)
        &&& self.data is None
    }

    /// What a module's dispatcher answers for this response: an RPC
    /// application error made of the code and the message where the code is
    /// not zero, else the data.
    pub open spec fn call_result(self) -> Result<Option<T>, Error> {
        if self.code != 0 {
            Err(Error::RPCApplicationError(self.code, self.message))
        } else {
            Ok(self.data)
        }
    }

    /// A successful response that carries `t`.
    pub fn new(t: T) -> (r: Self)
        ensures
            r.code == 0,
            r.message@ == success_message(),
            r.data == Some(t),
    {
        Response { code: 0, message: String::from_str("success"), data: Some(t) }
    }

    /// Turns the response into what the module's dispatcher answers.
    pub fn into_call_result(self) -> (r: Result<Option<T>, Error>)
        ensures
            r == self.call_result(),
    {
        if self.code != 0 {
            Err(Error::new_rpc_error(self.code, self.message))
        } else {
            Ok(self.data)
        }
    }
}

/// A response that reports an error whose code is not zero is answered as an
/// RPC application error with that same code and message.
pub proof fn law_reported_error_is_answered_as_error<T>(r: Response<T>, e: Error)
    requires
        r.reports(e),
        error_code(e) != 0,
    ensures
        r.call_result() matches Err(answer) && error_code(answer) == error_code(e)
            && error_message(answer) == error_message(e),
{
}

/// An RPC application error with a non-zero code, reported in a response and
/// answered by the dispatcher, comes back as the same error (its message by
/// its text).
pub proof fn law_rpc_error_round_trip<T>(r: Response<T>, code: u32, message: String)
    requires
        r.reports(Error::RPCApplicationError(code, message)),
        code != 0,
    ensures
        r.call_result() == Err::<Option<T>, Error>(Error::RPCApplicationError(code, r.message)),
        r.message@ == message@,
{
}

/// Every error of the framework other than an RPC application error has a
/// non-zero code, so a response that reports one is never read as success.
pub proof fn law_framework_errors_are_not_success(e: Error)
    requires
        !(e is RPCApplicationError),
    ensures
        error_code(e) != 0,
{
}

/// A successful response is answered with its data, whatever it carries.
pub proof fn law_success_is_answered_with_data<T>(r: Response<T>)
    requires
        r.code == 0,
    ensures
        r.call_result() == Ok::<Option<T>, Error>(r.data),
{
}

} // verus!
