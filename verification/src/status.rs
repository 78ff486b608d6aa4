use vstd::prelude::*;

verus! {

/// What `reqwest::StatusCode` prints for the status with this code: the code
/// in decimal, a space, and the reason phrase that the crate's table holds for
/// it (a fixed placeholder where the table has none).
pub uninterp spec fn status_line(code: u16) -> Seq<char>;

/// The decimal digit `d` as a character.
pub open spec fn digit(d: u16) -> char
    recommends
        d < 10,
{
    seq!['0', '1', '2', '3', '4', '5', '6', '7', '8', '9'][d as int]
}

/// The three decimal digits of a status code.
pub open spec fn code_digits(code: u16) -> Seq<char>
    recommends
        is_status_code(code),
{
    seq![digit(code / 100), digit(code / 10 % 10), digit(code % 10)]
}

/// Whether `code` can be the status of an HTTP response: three decimal digits.
pub open spec fn is_status_code(code: u16) -> bool {
    100 <= code <= 999
}

/// Whether a status with this code reports success: the 2xx class.
pub open spec fn is_success_code(code: u16) -> bool {
    200 <= code < 300
}

/// Calls `reqwest::StatusCode::from_u16` and prints the status through its
/// `Display` impl. Trusted: for a code of three digits the conversion
/// succeeds, and the text is `status_line` of the code, the same for the same
/// code every time; it begins with the three digits of the code.
#[verifier::external_body]
fn print_status(code: u16) -> (line: String)
    requires
        is_status_code(code),
    ensures
        line@ == status_line(code),
        code_digits(code).is_prefix_of(line@),
{
    match reqwest::StatusCode::from_u16(code) {
        Ok(status) => status.to_string(),
        Err(_) => String::new(),
    }
}

/// The status of an HTTP response. Holds a code of three decimal digits.
#[derive(Clone, Copy, Debug, PartialEq, Eq)]
pub struct HttpStatus {
    code: u16,
}

impl View for HttpStatus {
    type V = u16;

    closed spec fn view(&self) -> u16 {
        self.code
    }
}

impl HttpStatus {
    #[verifier::type_invariant]
    spec fn three_digits(self) -> bool {
        is_status_code(self.code)
    }

    /// The status with this code, if the code has three digits.
    pub fn from_code(code: u16) -> (status: Option<HttpStatus>)
        ensures
            status.is_some() == is_status_code(code),
            status matches Some(s) ==> s@ == code,
    {
        if 100 <= code && code <= 999 {
            Some(HttpStatus { code })
        } else {
            None
        }
    }

    /// The numeric code.
    pub fn code(&self) -> (code: u16)
        ensures
            code == self@,
            is_status_code(code),
    {
        proof {
            use_type_invariant(self);
        }
        self.code
    }

    /// Whether the status is in the 2xx class.
    pub fn is_success(&self) -> (yes: bool)
        ensures
            yes == is_success_code(self@),
    {
        200 <= self.code && self.code < 300
    }

    /// The status as it is shown to a reader: code and reason phrase.
    pub fn line(&self) -> (line: String)
        ensures
            line@ == status_line(self@),
            code_digits(self@).is_prefix_of(line@),
    {
        proof {
            use_type_invariant(self);
        }
        print_status(self.code)
    }
}

} // verus!
