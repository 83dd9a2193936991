use vstd::prelude::*;

verus! {

/// What `str::trim` returns on `s`.
pub uninterp spec fn trimmed(s: Seq<char>) -> Seq<char>;

/// Every character is an ASCII decimal digit.
pub open spec fn all_digits(d: Seq<char>) -> bool {
    forall|i: int| 0 <= i < d.len() ==> '0' <= #[trigger] d[i] <= '9'
}

/// The value of a string of decimal digits.
pub open spec fn digits_value(d: Seq<char>) -> int
    decreases d.len(),
{
    if d.len() == 0 {
        0
    } else {
        digits_value(d.drop_last()) * 10 + (d.last() as u32 - '0' as u32)
    }
}

/// A `u8` written in decimal: an optional `+`, then at least one digit,
/// with a value of at most 255.
pub open spec fn decimal_u8(s: Seq<char>) -> Option<u8> {
    let d = if s.len() > 0 && s[0] == '+' { s.drop_first() } else { s };
    if d.len() > 0 && all_digits(d) && digits_value(d) <= 255 {
        Some(digits_value(d) as u8)
    } else {
        None
    }
}

/// Relies on `str::trim`: the input without leading and trailing whitespace;
/// an empty input stays empty.
#[verifier::external_body]
fn trim(s: &str) -> (r: &str)
    ensures
        r@ == trimmed(s@),
        s@.len() == 0 ==> r@.len() == 0,
{
    s.trim()
}

/// Relies on `<u8 as FromStr>::from_str`, which accepts an optional `+`
/// followed by decimal digits only, and refuses an empty string and a value
/// that does not fit in a `u8`.
#[verifier::external_body]
fn parse_u8(s: &str) -> (r: Option<u8>)
    ensures
        r == decimal_u8(s@),
{
    s.parse::<u8>().ok()
}

/// Why an operator's input was refused.
#[derive(Debug, Clone, PartialEq, Eq)]
pub enum InputError {
    /// The text typed for `field` is not a valid number.
    InvalidNumber { field: String, input: String },
    /// A commission above 100 percent.
    CommissionOutOfRange(u8),
}

/// A payer that cannot cover an amount: what is required and what is there.
#[derive(Debug, Clone, Copy, PartialEq, Eq, Structural)]
pub struct InsufficientBalance {
    pub required: u64,
    pub available: u64,
}

impl InsufficientBalance {
    /// Lamports missing.
    pub fn shortfall(&self) -> (r: u64)
        requires
            self.available < self.required,
        ensures
            r == self.required - self.available,
    {
        self.required - self.available
    }
}

/// Refuses a payer whose balance is below the required amount.
pub fn check_minimum_balance(available_lamports: u64, required_lamports: u64) -> (r: Result<(), InsufficientBalance>)
    ensures
        r is Ok <==> available_lamports >= required_lamports,
        r is Err ==> r->Err_0 == (InsufficientBalance { required: required_lamports, available: available_lamports }),
{
    if available_lamports < required_lamports {
        Err(InsufficientBalance { required: required_lamports, available: available_lamports })
    } else {
        Ok(())
    }
}

/// The input names a number it cannot be read as.
pub open spec fn invalid_number(e: InputError, field: Seq<char>, input: Seq<char>) -> bool {
    e is InvalidNumber && e->field@ == field && e->input@ == input
}

/// Reads an optional number for `field_name`: blank input (after trimming)
/// is `None`, a number is `Some`, anything else is an error naming the
/// field and the trimmed text.
pub fn trim_and_parse(s: &str, field_name: &str) -> (r: Result<Option<u8>, InputError>)
    ensures
        trimmed(s@).len() == 0 ==> r == Ok::<Option<u8>, InputError>(None),
        trimmed(s@).len() > 0 ==> match decimal_u8(trimmed(s@)) {
            Some(v) => r == Ok::<Option<u8>, InputError>(Some(v)),
            None => r is Err && invalid_number(r->Err_0, field_name@, trimmed(s@)),
        },
{
    let t = trim(s);
    if t.is_empty() {
        return Ok(None);
    }
    match parse_u8(t) {
        Some(v) => Ok(Some(v)),
        None => Err(InputError::InvalidNumber { field: field_name.to_owned(), input: t.to_owned() }),
    }
}

/// A validator commission, in percent.
#[derive(Debug, Clone, Copy, PartialEq, Eq, Structural)]
pub struct Commission(u8);

impl View for Commission {
    type V = u8;

    closed spec fn view(&self) -> u8 {
        self.0
    }
}

impl Commission {
    pub fn value(&self) -> (r: u8)
        ensures
            r == self@,
    {
        self.0
    }

    /// The commission an operator's answer stands for, given what reading it
    /// gave: blank is 0, a number up to 100 is taken, a larger one is refused.
    pub fn from_answer(answer: Result<Option<u8>, InputError>) -> (r: Result<Commission, InputError>)
        ensures
            answer == Ok::<Option<u8>, InputError>(None) ==> r is Ok && r->Ok_0@ == 0,
            answer is Ok && answer->Ok_0 is Some ==> ({
                let v = answer->Ok_0->Some_0;
                &&& v <= 100 ==> r is Ok && r->Ok_0@ == v
                &&& v > 100 ==> r == Err::<Commission, InputError>(InputError::CommissionOutOfRange(v))
            }),
            answer is Err ==> r == Err::<Commission, InputError>(answer->Err_0),
            r is Ok ==> r->Ok_0@ <= 100,
    {
        match answer {
            Ok(None) => Ok(Commission(0)),
            Ok(Some(v)) => {
                if v > 100 {
                    Err(InputError::CommissionOutOfRange(v))
                } else {
                    Ok(Commission(v))
                }
            },
            Err(e) => Err(e),
        }
    }

    /// Reads a commission typed by the operator.
    pub fn parse(s: &str) -> (r: Result<Commission, InputError>)
        ensures
            trimmed(s@).len() == 0 ==> r is Ok && r->Ok_0@ == 0,
            trimmed(s@).len() > 0 ==> match decimal_u8(trimmed(s@)) {
                Some(v) => if v <= 100 {
                    r is Ok && r->Ok_0@ == v
                } else {
                    r == Err::<Commission, InputError>(InputError::CommissionOutOfRange(v))
                },
                None => r is Err && invalid_number(r->Err_0, "commission"@, trimmed(s@)),
            },
    {
        Self::from_answer(trim_and_parse(s, "commission"))
    }
}

} // verus!
