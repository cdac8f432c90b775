//! Errors and the messages that they collect on their way up.
use crate::codes::Code;
use vstd::prelude::*;
use vstd::string::StringExecFns;

verus! {

/// A failure: its status and the messages added to it, oldest first.
#[derive(Clone, Debug, PartialEq, Eq)]
pub struct Error {
    pub code: Code,
    pub messages: Vec<String>,
}

/// An [`Error`] over mathematical values.
#[verifier::ext_equal]
pub struct ErrorView {
    pub code: Code,
    pub messages: Seq<Seq<char>>,
}

impl ErrorView {
    /// The error with one message.
    pub open spec fn new(code: Code, message: Seq<char>) -> ErrorView {
        ErrorView { code, messages: seq![message] }
    }

    /// The same failure with one more message.
    pub open spec fn append(self, message: Seq<char>) -> ErrorView {
        ErrorView { code: self.code, messages: self.messages.push(message) }
    }
}

impl View for Error {
    type V = ErrorView;

    open spec fn view(&self) -> ErrorView {
        ErrorView {
            code: self.code,
            messages: self.messages@.map_values(|message: String| message@),
        }
    }
}

impl Error {
    /// The failure with status `code` and one message.
    pub fn new(code: Code, message: String) -> (error: Error)
        ensures
            error@ == ErrorView::new(code, message@),
    {
        let mut messages: Vec<String> = Vec::new();
        messages.push(message);
        let error = Error { code, messages };
        assert(error@.messages =~= seq![message@]);
        error
    }

    /// The same failure with one more message.
    pub fn append(self, message: String) -> (error: Error)
        ensures
            error@ == self@.append(message@),
    {
        let mut messages = self.messages;
        messages.push(message);
        let error = Error { code: self.code, messages };
        assert(error@.messages =~= self@.messages.push(message@));
        error
    }
}

/// What a result says, with its error over mathematical values.
pub open spec fn result_view<T>(result: Result<T, Error>) -> Result<T, ErrorView> {
    match result {
        Ok(value) => Ok(value),
        Err(error) => Err(error@),
    }
}

/// The decimal digit for a number below ten.
pub open spec fn digit(d: nat) -> char {
    (48 + d) as char
}

/// A number in decimal, without leading zeros.
pub open spec fn decimal(n: nat) -> Seq<char>
    decreases n,
{
    if n < 10 {
        seq![digit(n)]
    } else {
        decimal(n / 10).push(digit(n % 10))
    }
}

/// The message that tells on which attempt an operation failed.
pub open spec fn on_attempt_text(attempt: nat) -> Seq<char> {
    "On attempt "@ + decimal(attempt)
}

/// The message for an operation that stopped offering attempts.
pub open spec fn ended_abruptly_text(attempt: nat) -> Seq<char> {
    "Retry stream ended abruptly on attempt "@ + decimal(attempt)
}

/// Adds a decimal digit to a text.
fn push_digit(text: &mut String, d: u32)
    requires
        d < 10,
    ensures
        final(text)@ == old(text)@.push(digit(d as nat)),
{
    let ghost before = text@;
    proof {
        reveal_strlit("0");
        reveal_strlit("1");
        reveal_strlit("2");
        reveal_strlit("3");
        reveal_strlit("4");
        reveal_strlit("5");
        reveal_strlit("6");
        reveal_strlit("7");
        reveal_strlit("8");
        reveal_strlit("9");
    }
    let literal: &str = match d {
        0 => "0",
        1 => "1",
        2 => "2",
        3 => "3",
        4 => "4",
        5 => "5",
        6 => "6",
        7 => "7",
        8 => "8",
        _ => "9",
    };
    assert(literal@ =~= seq![digit(d as nat)]);
    text.append(literal);
    assert(text@ =~= before.push(digit(d as nat)));
}

/// Adds a number in decimal to a text.
fn push_decimal(text: &mut String, n: u32)
    ensures
        final(text)@ == old(text)@ + decimal(n as nat),
    decreases n,
{
    let ghost before = text@;
    if n >= 10 {
        push_decimal(text, n / 10);
    }
    push_digit(text, n % 10);
    assert(text@ =~= before + decimal(n as nat));
}

/// The message that tells on which attempt an operation failed.
pub fn on_attempt(attempt: u32) -> (text: String)
    ensures
        text@ == on_attempt_text(attempt as nat),
{
    let mut text = "On attempt ".to_string();
    push_decimal(&mut text, attempt);
    text
}

/// The message for an operation that stopped offering attempts.
pub fn ended_abruptly(attempt: u32) -> (text: String)
    ensures
        text@ == ended_abruptly_text(attempt as nat),
{
    let mut text = "Retry stream ended abruptly on attempt ".to_string();
    push_decimal(&mut text, attempt);
    text
}

/// The view of an error shows its status and each of its messages in its place.
pub proof fn law_view_shows_the_messages(error: Error)
    ensures
        error@.code == error.code,
        error@.messages.len() == error.messages@.len(),
        forall|i: int|
            0 <= i < error.messages@.len() ==> error@.messages[i] == (
            #[trigger] error.messages@[i])@,
{
    assert forall|i: int| 0 <= i < error.messages@.len() implies error@.messages[i] == (
    #[trigger] error.messages@[i])@ by {
        assert(error@.messages[i] == error.messages@[i]@);
    }
}

/// A new error has its status and just the one message.
pub proof fn law_new_error_has_one_message(code: Code, message: String, error: Error)
    requires
        call_ensures(Error::new, (code, message), error),
    ensures
        error.code == code,
        error.messages@.len() == 1,
        error.messages@[0]@ == message@,
        call_requires(Error::new, (code, message)),
{
    law_view_shows_the_messages(error);
    assert(error@.messages[0] == message@);
}

/// A message is added behind the ones that are there, which stay as they are, and
/// so does the status.
pub proof fn law_message_is_added_last(error: Error, message: String, longer: Error)
    requires
        call_ensures(Error::append, (error, message), longer),
    ensures
        longer.code == error.code,
        longer.messages@.len() == error.messages@.len() + 1,
        longer.messages@.last()@ == message@,
        forall|i: int|
            0 <= i < error.messages@.len() ==> (#[trigger] longer.messages@[i])@
                == error.messages@[i]@,
        call_requires(Error::append, (error, message)),
{
    law_view_shows_the_messages(error);
    law_view_shows_the_messages(longer);
    assert(longer@.messages.last() == message@);
}

/// A number in decimal is read back digit by digit, and starts with a zero only if
/// it is zero.
pub proof fn law_decimal_reads_back(n: nat)
    ensures
        decimal(n).fold_left(0int, |value: int, c: char| 10 * value + (c as int - '0' as int)) == n,
        forall|i: int| 0 <= i < decimal(n).len() ==> '0' <= #[trigger] decimal(n)[i] <= '9',
        decimal(n).len() > 0,
        decimal(n)[0] == '0' ==> n == 0 && decimal(n).len() == 1,
    decreases n,
{
    let read = |value: int, c: char| 10 * value + (c as int - '0' as int);
    if n < 10 {
        assert(decimal(n).drop_last() =~= seq![]);
        reveal_with_fuel(Seq::fold_left, 2);
    } else {
        law_decimal_reads_back(n / 10);
        assert(decimal(n).drop_last() =~= decimal(n / 10));
        assert(decimal(n).fold_left(0int, read) == read(
            decimal(n / 10).fold_left(0int, read),
            digit(n % 10),
        ));
    }
}

/// The message for a failed attempt names the attempt.
pub proof fn law_message_names_the_attempt(attempt: u32, text: String)
    requires
        call_ensures(on_attempt, (attempt,), text),
    ensures
        text@ == "On attempt "@ + decimal(attempt as nat),
        call_requires(on_attempt, (attempt,)),
{
}

/// The message for an operation that stopped offering attempts names the attempt
/// that it did not offer.
pub proof fn law_message_names_the_missing_attempt(attempt: u32, text: String)
    requires
        call_ensures(ended_abruptly, (attempt,), text),
    ensures
        text@ == "Retry stream ended abruptly on attempt "@ + decimal(attempt as nat),
        call_requires(ended_abruptly, (attempt,)),
{
}

} // verus!
