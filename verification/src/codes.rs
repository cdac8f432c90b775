//! Status codes of failed operations, and the codes that a configuration names.
use vstd::prelude::*;

verus! {

/// The status of an operation.
#[derive(Clone, Copy, Debug, PartialEq, Eq, Structural)]
pub enum Code {
    Success,
    Cancelled,
    Unknown,
    InvalidArgument,
    DeadlineExceeded,
    NotFound,
    AlreadyExists,
    PermissionDenied,
    ResourceExhausted,
    FailedPrecondition,
    Aborted,
    OutOfRange,
    Unimplemented,
    Internal,
    Unavailable,
    DataLoss,
    Unauthenticated,
}

/// An error code that a configuration can name as worth a retry.
#[derive(Clone, Copy, Debug, PartialEq, Eq, Structural)]
pub enum ErrorCode {
    Cancelled,
    Unknown,
    InvalidArgument,
    DeadlineExceeded,
    NotFound,
    AlreadyExists,
    PermissionDenied,
    ResourceExhausted,
    FailedPrecondition,
    Aborted,
    OutOfRange,
    Unimplemented,
    Internal,
    Unavailable,
    DataLoss,
    Unauthenticated,
}

/// The status that an error code of a configuration stands for.
pub open spec fn status_of(error_code: ErrorCode) -> Code {
    match error_code {
        ErrorCode::Cancelled => Code::Cancelled,
        ErrorCode::Unknown => Code::Unknown,
        ErrorCode::InvalidArgument => Code::InvalidArgument,
        ErrorCode::DeadlineExceeded => Code::DeadlineExceeded,
        ErrorCode::NotFound => Code::NotFound,
        ErrorCode::AlreadyExists => Code::AlreadyExists,
        ErrorCode::PermissionDenied => Code::PermissionDenied,
        ErrorCode::ResourceExhausted => Code::ResourceExhausted,
        ErrorCode::FailedPrecondition => Code::FailedPrecondition,
        ErrorCode::Aborted => Code::Aborted,
        ErrorCode::OutOfRange => Code::OutOfRange,
        ErrorCode::Unimplemented => Code::Unimplemented,
        ErrorCode::Internal => Code::Internal,
        ErrorCode::Unavailable => Code::Unavailable,
        ErrorCode::DataLoss => Code::DataLoss,
        ErrorCode::Unauthenticated => Code::Unauthenticated,
    }
}

/// Whether a list of error codes covers a status: it holds the error code that
/// stands for the status, or `Unknown` for the one status that no error code
/// stands for.
pub open spec fn covers(listed: Seq<ErrorCode>, code: Code) -> bool {
    if code is Success {
        listed.contains(ErrorCode::Unknown)
    } else {
        exists|e: ErrorCode| #[trigger] listed.contains(e) && status_of(e) == code
    }
}

/// The error code under which a configuration lists a status.
pub fn to_error_code(code: &Code) -> (error_code: ErrorCode)
    ensures
        *code is Success ==> error_code is Unknown,
        *code !is Success ==> status_of(error_code) == *code,
{
    match code {
        Code::Cancelled => ErrorCode::Cancelled,
        Code::Unknown => ErrorCode::Unknown,
        Code::InvalidArgument => ErrorCode::InvalidArgument,
        Code::DeadlineExceeded => ErrorCode::DeadlineExceeded,
        Code::NotFound => ErrorCode::NotFound,
        Code::AlreadyExists => ErrorCode::AlreadyExists,
        Code::PermissionDenied => ErrorCode::PermissionDenied,
        Code::ResourceExhausted => ErrorCode::ResourceExhausted,
        Code::FailedPrecondition => ErrorCode::FailedPrecondition,
        Code::Aborted => ErrorCode::Aborted,
        Code::OutOfRange => ErrorCode::OutOfRange,
        Code::Unimplemented => ErrorCode::Unimplemented,
        Code::Internal => ErrorCode::Internal,
        Code::Unavailable => ErrorCode::Unavailable,
        Code::DataLoss => ErrorCode::DataLoss,
        Code::Unauthenticated => ErrorCode::Unauthenticated,
        _ => ErrorCode::Unknown,
    }
}

/// Whether the list of error codes covers the status.
pub fn is_covered(listed: &Vec<ErrorCode>, code: &Code) -> (found: bool)
    ensures
        found == covers(listed@, *code),
{
    let wanted = to_error_code(code);
    for i in 0..listed.len()
        invariant
            *code is Success ==> wanted is Unknown,
            *code !is Success ==> status_of(wanted) == *code,
            forall|j: int| 0 <= j < i ==> listed@[j] != wanted,
    {
        if listed[i] == wanted {
            assert(listed@.contains(wanted));
            return true;
        }
    }
    proof {
        assert(!listed@.contains(wanted));
        if *code !is Success {
            assert forall|e: ErrorCode| #[trigger] listed@.contains(e) implies status_of(e)
                != *code by {
                law_error_codes_are_distinct(e, wanted);
            }
        }
    }
    false
}

/// No two error codes stand for the same status, and none stands for success.
pub proof fn law_error_codes_are_distinct(a: ErrorCode, b: ErrorCode)
    ensures
        status_of(a) == status_of(b) ==> a == b,
        status_of(a) !is Success,
{
}

/// An error code stands for the status of the same name, and for no other.
pub proof fn law_error_code_stands_for_its_namesake(error_code: ErrorCode)
    ensures
        error_code is Cancelled <==> status_of(error_code) is Cancelled,
        error_code is Unknown <==> status_of(error_code) is Unknown,
        error_code is InvalidArgument <==> status_of(error_code) is InvalidArgument,
        error_code is DeadlineExceeded <==> status_of(error_code) is DeadlineExceeded,
        error_code is NotFound <==> status_of(error_code) is NotFound,
        error_code is AlreadyExists <==> status_of(error_code) is AlreadyExists,
        error_code is PermissionDenied <==> status_of(error_code) is PermissionDenied,
        error_code is ResourceExhausted <==> status_of(error_code) is ResourceExhausted,
        error_code is FailedPrecondition <==> status_of(error_code) is FailedPrecondition,
        error_code is Aborted <==> status_of(error_code) is Aborted,
        error_code is OutOfRange <==> status_of(error_code) is OutOfRange,
        error_code is Unimplemented <==> status_of(error_code) is Unimplemented,
        error_code is Internal <==> status_of(error_code) is Internal,
        error_code is Unavailable <==> status_of(error_code) is Unavailable,
        error_code is DataLoss <==> status_of(error_code) is DataLoss,
        error_code is Unauthenticated <==> status_of(error_code) is Unauthenticated,
{
}

/// A list covers the status of each error code in it, and apart from success no
/// other. It covers success where it holds `Unknown`.
pub proof fn law_list_covers_what_it_holds(
    listed: Seq<ErrorCode>,
    error_code: ErrorCode,
    code: Code,
)
    ensures
        listed.contains(error_code) ==> covers(listed, status_of(error_code)),
        covers(listed, status_of(error_code)) ==> listed.contains(error_code),
        covers(listed, code) && code !is Success ==> exists|i: int|
            0 <= i < listed.len() && status_of(#[trigger] listed[i]) == code,
        covers(listed, Code::Success) <==> listed.contains(ErrorCode::Unknown),
{
    law_error_codes_are_distinct(error_code, error_code);
    if covers(listed, status_of(error_code)) {
        let e = choose|e: ErrorCode| #[trigger]
            listed.contains(e) && status_of(e) == status_of(error_code);
        law_error_codes_are_distinct(e, error_code);
    }
    if covers(listed, code) && code !is Success {
        let e = choose|e: ErrorCode| #[trigger] listed.contains(e) && status_of(e) == code;
        let i = choose|i: int| 0 <= i < listed.len() && listed[i] == e;
        assert(status_of(listed[i]) == code);
    }
}

/// A status is listed under the error code that stands for it. Success, which no
/// error code stands for, is listed under `Unknown`. Any status can be looked up.
pub proof fn law_status_is_listed_under_its_namesake(code: Code, error_code: ErrorCode)
    requires
        call_ensures(to_error_code, (&code,), error_code),
    ensures
        code !is Success ==> status_of(error_code) == code,
        code is Success ==> error_code is Unknown,
        call_requires(to_error_code, (&code,)),
{
}

/// A status is found in a list where the error code that stands for it is at some
/// place of the list, wherever that is, and success where `Unknown` is. Any status
/// can be looked up in any list.
pub proof fn law_listed_status_is_found(listed: Vec<ErrorCode>, code: Code, found: bool)
    requires
        call_ensures(is_covered, (&listed, &code), found),
    ensures
        code !is Success ==> (found <==> exists|i: int|
            0 <= i < listed@.len() && status_of(#[trigger] listed@[i]) == code),
        code is Success ==> (found <==> exists|i: int|
            0 <= i < listed@.len() && #[trigger] listed@[i] is Unknown),
        call_requires(is_covered, (&listed, &code)),
{
    if exists|i: int| 0 <= i < listed@.len() && status_of(#[trigger] listed@[i]) == code {
        let i = choose|i: int| 0 <= i < listed@.len() && status_of(#[trigger] listed@[i]) == code;
        assert(listed@.contains(listed@[i]));
        law_list_covers_what_it_holds(listed@, listed@[i], code);
        law_error_codes_are_distinct(listed@[i], listed@[i]);
    }
    law_list_covers_what_it_holds(listed@, ErrorCode::Unknown, code);
    if exists|i: int| 0 <= i < listed@.len() && #[trigger] listed@[i] is Unknown {
        let i = choose|i: int| 0 <= i < listed@.len() && #[trigger] listed@[i] is Unknown;
        assert(listed@[i] == ErrorCode::Unknown);
        assert(listed@.contains(ErrorCode::Unknown));
    }
    if listed@.contains(ErrorCode::Unknown) {
        let i = choose|i: int| 0 <= i < listed@.len() && listed@[i] == ErrorCode::Unknown;
        assert(listed@[i] is Unknown);
    }
}

} // verus!
