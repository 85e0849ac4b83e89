//! The application error and the fixed-format error page it is answered
//! with: a render failure becomes a plain body carrying the HTTP status
//! code and a generic message, composed here character by character.

use vstd::prelude::*;

verus! {

/// The decimal digit `d` as a character.
pub open spec fn digit_char(d: nat) -> char {
    if d == 0 {
        '0'
    } else if d == 1 {
        '1'
    } else if d == 2 {
        '2'
    } else if d == 3 {
        '3'
    } else if d == 4 {
        '4'
    } else if d == 5 {
        '5'
    } else if d == 6 {
        '6'
    } else if d == 7 {
        '7'
    } else if d == 8 {
        '8'
    } else {
        '9'
    }
}

/// The decimal digits of `n`, most significant first, with no leading
/// zeros (a lone `0` for zero itself).
pub open spec fn dec_digits(n: nat) -> Seq<char>
    decreases n,
{
    if n < 10 {
        seq![digit_char(n)]
    } else {
        dec_digits(n / 10).push(digit_char(n % 10))
    }
}

/// The decimal digit `d` as a one-character string slice.
fn digit_str(d: u16) -> (s: &'static str)
    requires
        d < 10,
    ensures
        s@ == seq![digit_char(d as nat)],
{
    proof {
        reveal_strlit("0");
        reveal_strlit("1");
        reveal_strlit("2");
        reveal_strlit("3");
        reveal_strlit("4");
        reveal_strlit("5");
        reveal_strlit("6");
        reveal_strlit("7");
        reveal_strlit("8");
        reveal_strlit("9");
    }
    let s = if d == 0 {
        "0"
    } else if d == 1 {
        "1"
    } else if d == 2 {
        "2"
    } else if d == 3 {
        "3"
    } else if d == 4 {
        "4"
    } else if d == 5 {
        "5"
    } else if d == 6 {
        "6"
    } else if d == 7 {
        "7"
    } else if d == 8 {
        "8"
    } else {
        "9"
    };
    proof {
        assert(s@ =~= seq![digit_char(d as nat)]);
    }
    s
}

/// Append the decimal digits of `n` to `out`.
fn append_decimal(n: u16, out: &mut String)
    ensures
        final(out)@ == old(out)@ + dec_digits(n as nat),
    decreases n,
{
    if n < 10 {
        out.append(digit_str(n));
    } else {
        append_decimal(n / 10, out);
        out.append(digit_str(n % 10));
        proof {
            assert(final(out)@ =~= old(out)@ + dec_digits(n as nat));
        }
    }
}

/// Render `n` in decimal.
pub fn u16_decimal(n: u16) -> (s: String)
    ensures
        s@ == dec_digits(n as nat),
{
    let mut s = String::new();
    append_decimal(n, &mut s);
    proof {
        assert(s@ =~= dec_digits(n as nat));
    }
    s
}

/// The fixed-format error page for a status code and a message.
pub open spec fn error_body_spec(status: nat, message: Seq<char>) -> Seq<char> {
    "error has occurred with status code "@ + dec_digits(status) + " and message "@ + message
}

/// Compose the fixed-format error page.
pub fn error_body(status: u16, message: &str) -> (r: String)
    ensures
        r@ == error_body_spec(status as nat, message@),
{
    let mut s: String = "error has occurred with status code ".to_owned();
    append_decimal(status, &mut s);
    s.append(" and message ");
    s.append(message);
    proof {
        assert(s@ =~= error_body_spec(status as nat, message@));
    }
    s
}

/// The failures a request handler can answer with.  Rendering a template
/// is the one fallible step the handlers around the library take.
pub enum AppError {
    /// A template failed to render.
    Render,
}

impl AppError {
    /// The HTTP status code the error is surfaced with.
    pub fn status_code(&self) -> (r: u16)
        ensures
            r == self.status_spec(),
    {
        match self {
            AppError::Render => 500,
        }
    }

    /// The generic client-visible message; it names no internal detail.
    pub fn message(&self) -> (r: String)
        ensures
            r@ == self.message_spec(),
    {
        "Internal server error".to_owned()
    }

    /// The full body of the error response for this error.
    pub fn response_body(&self) -> (r: String)
        ensures
            r@ == error_body_spec(self.status_spec() as nat, self.message_spec()),
    {
        let status = self.status_code();
        let message = self.message();
        error_body(status, message.as_str())
    }

    /// The status code, as a specification-level value.
    pub open spec fn status_spec(&self) -> u16 {
        match self {
            AppError::Render => 500,
        }
    }

    /// The client-visible message, as a specification-level value.
    pub open spec fn message_spec(&self) -> Seq<char> {
        "Internal server error"@
    }
}

} // verus!
