//! The textual protocol of the `acpi_call` kernel module.
//!
//! A call is written to the control file as the method path followed by its `u32` parameters in
//! decimal, separated by single spaces. The control file then reads back either
//! `Error: <message>`, a decimal number, or a `0x`-prefixed hexadecimal number, possibly followed
//! by NUL characters.
use vstd::prelude::*;
use vstd::string::{StrSliceExecFns, StringExecFns};

verus! {

/// The decimal digit `d` as a character.
pub open spec fn digit_char(d: nat) -> char {
    if d == 0 { '0' } else if d == 1 { '1' } else if d == 2 { '2' } else if d == 3 { '3' }
    else if d == 4 { '4' } else if d == 5 { '5' } else if d == 6 { '6' } else if d == 7 { '7' }
    else if d == 8 { '8' } else { '9' }
}

/// `n` written in decimal, without sign or leading zeros.
pub open spec fn decimal(n: nat) -> Seq<char>
    decreases n,
{
    if n < 10 {
        seq![digit_char(n)]
    } else {
        decimal(n / 10).push(digit_char(n % 10))
    }
}

/// The command text for `method` called with `parameters`: the method, then each parameter in
/// decimal, all joined by single spaces.
pub open spec fn command_text(method: Seq<char>, parameters: Seq<u32>) -> Seq<char>
    decreases parameters.len(),
{
    if parameters.len() == 0 {
        method
    } else {
        command_text(method, parameters.drop_last()) + seq![' '] + decimal(
            parameters.last() as nat,
        )
    }
}

proof fn lemma_digit_char(d: nat)
    requires
        d < 10,
    ensures
        digit_value(digit_char(d), 10) == Some(d),
        digit_char(d) != '+',
{
    assert('0' as u32 == 48);
}

proof fn lemma_decimal_digits(n: nat)
    ensures
        decimal(n).len() > 0,
        decimal(n)[0] != '+',
        all_digits(decimal(n), 10),
        digits_value(decimal(n), 10) == n,
    decreases n,
{
    if n < 10 {
        lemma_digit_char(n);
        assert(decimal(n).drop_last() =~= Seq::<char>::empty());
        assert(decimal(n).last() == digit_char(n));
        assert(digits_value(Seq::<char>::empty(), 10) == 0);
        assert(digits_value(decimal(n), 10) == 0 * 10 + n);
    } else {
        lemma_decimal_digits(n / 10);
        lemma_digit_char(n % 10);
        let prefix = decimal(n / 10);
        assert(decimal(n).drop_last() =~= prefix);
        assert(decimal(n).last() == digit_char(n % 10));
        assert(decimal(n)[0] == prefix[0]);
        assert(n == (n / 10) * 10 + n % 10);
        assert(digits_value(decimal(n), 10) == digits_value(prefix, 10) * 10 + n % 10);
        assert forall|i: int| 0 <= i < decimal(n).len() implies (#[trigger] digit_value(
            decimal(n)[i],
            10,
        )) is Some by {
            if i < prefix.len() {
                assert(decimal(n)[i] == prefix[i]);
            }
        }
    }
}

/// A parameter written into a command reads back as the same number: its decimal rendering
/// is made of digits only and parses to its value.
pub proof fn decimal_reads_back(x: u32)
    ensures
        all_digits(decimal(x as nat), 10),
        parse_number(decimal(x as nat), 10) == Some(x),
{
    lemma_decimal_digits(x as nat);
}

fn digit_str(d: u32) -> (r: &'static str)
    requires
        d < 10,
    ensures
        r@ == seq![digit_char(d as nat)],
{
    proof {
        reveal_strlit("0");
        reveal_strlit("1");
        reveal_strlit("2");
        reveal_strlit("3");
        reveal_strlit("4");
        reveal_strlit("5");
        reveal_strlit("6");
        reveal_strlit("7");
        reveal_strlit("8");
        reveal_strlit("9");
    }
    if d == 0 { "0" } else if d == 1 { "1" } else if d == 2 { "2" } else if d == 3 { "3" }
    else if d == 4 { "4" } else if d == 5 { "5" } else if d == 6 { "6" } else if d == 7 { "7" }
    else if d == 8 { "8" } else { "9" }
}

/// Renders `n` in decimal.
pub fn decimal_string(n: u32) -> (r: String)
    ensures
        r@ == decimal(n as nat),
    decreases n,
{
    if n < 10 {
        String::from_str(digit_str(n))
    } else {
        let mut s = decimal_string(n / 10);
        s.append(digit_str(n % 10));
        s
    }
}

/// Builds the command text written to the control file.
pub fn build_command(method: &str, parameters: &Vec<u32>) -> (r: String)
    ensures
        r@ == command_text(method@, parameters@),
{
    let mut text = String::from_str(method);
    let mut i: usize = 0;
    while i < parameters.len()
        invariant
            i <= parameters@.len(),
            text@ == command_text(method@, parameters@.take(i as int)),
        decreases parameters@.len() - i,
    {
        let digits = decimal_string(parameters[i]);
        text.append(" ");
        text.append(digits.as_str());
        proof {
            let next = parameters@.take(i + 1);
            assert(next.drop_last() =~= parameters@.take(i as int));
            assert(next.last() == parameters@[i as int]);
            reveal_strlit(" ");
        }
        i += 1;
    }
    proof {
        assert(parameters@.take(i as int) =~= parameters@);
    }
    text
}


/// One call to make through the control file.
#[derive(Debug)]
pub struct AcpiRequest {
    /// The ACPI method path.
    pub method: String,
    /// The parameters of the call.
    pub parameters: Vec<u32>,
}

/// [`AcpiRequest`] seen as mathematical values.
pub struct RequestView {
    pub method: Seq<char>,
    pub parameters: Seq<u32>,
}

impl View for AcpiRequest {
    type V = RequestView;

    open spec fn view(&self) -> RequestView {
        RequestView { method: self.method@, parameters: self.parameters@ }
    }
}

impl AcpiRequest {
    /// The text to write to the control file for this call.
    pub fn command(&self) -> (r: String)
        ensures
            r@ == command_text(self.method@, self.parameters@),
    {
        build_command(self.method.as_str(), &self.parameters)
    }
}

/// Where a multi-call operation stands after its latest decision.
#[derive(Debug)]
pub enum Step<S, T, E> {
    /// Make this call, then resume the operation with the reply and the stage `S`.
    Call(AcpiRequest, S),
    /// The operation succeeded.
    Finished(T),
    /// The operation failed.
    Failed(E),
}

/// [`Step`] seen as mathematical values.
pub enum StepView<S, T, E> {
    Call(RequestView, S),
    Finished(T),
    Failed(E),
}

impl<S: Copy, T: View, E: View> View for Step<S, T, E> {
    type V = StepView<S, T::V, E::V>;

    open spec fn view(&self) -> StepView<S, T::V, E::V> {
        match self {
            Step::Call(request, stage) => StepView::Call(request@, *stage),
            Step::Finished(value) => StepView::Finished(value@),
            Step::Failed(error) => StepView::Failed(error@),
        }
    }
}

/// Bad things which could happen when using `acpi_call`.
#[derive(Debug)]
pub enum Error {
    /// The `acpi_call` kernel module is not available or not loaded.
    KernelModuleNotLoaded,
    /// A number was expected, but the control file read back something else.
    UnknownValue {
        /// The text which was read back.
        value: String,
    },
    /// The firmware reported an error other than a missing method.
    UnknownError {
        /// The error message which was returned.
        message: String,
    },
    /// A method wasn't found in the ACPI table.
    MethodNotFound {
        /// The unknown ACPI method.
        method: String,
    },
    /// Writing to or reading from the control file failed for another reason.
    Io {
        /// A description of the failure.
        message: String,
    },
}

/// [`Error`] with its texts seen as character sequences.
pub enum ErrorView {
    KernelModuleNotLoaded,
    UnknownValue(Seq<char>),
    UnknownError(Seq<char>),
    MethodNotFound(Seq<char>),
    Io(Seq<char>),
}

impl View for Error {
    type V = ErrorView;

    open spec fn view(&self) -> ErrorView {
        match self {
            Error::KernelModuleNotLoaded => ErrorView::KernelModuleNotLoaded,
            Error::UnknownValue { value } => ErrorView::UnknownValue(value@),
            Error::UnknownError { message } => ErrorView::UnknownError(message@),
            Error::MethodNotFound { method } => ErrorView::MethodNotFound(method@),
            Error::Io { message } => ErrorView::Io(message@),
        }
    }
}

/// Handy wrapper for [`Error`].
pub type Result<T> = std::result::Result<T, Error>;

/// What the transport brought back from one call: the text read from the control file, or the
/// failure of the write or of the read.
pub type Reply = Result<String>;

/// The view of a [`Reply`].
pub open spec fn reply_view(reply: Reply) -> std::result::Result<Seq<char>, ErrorView> {
    match reply {
        Ok(text) => Ok(text@),
        Err(e) => Err(e@),
    }
}

/// A successful answer of the control file.
#[derive(Debug)]
pub enum Output {
    /// A number.
    Valid(u32),
    /// Text which is neither a number nor a firmware error.
    Invalid(String),
}

/// [`Output`] with its text seen as a character sequence.
pub enum OutputView {
    Valid(u32),
    Invalid(Seq<char>),
}

impl View for Output {
    type V = OutputView;

    open spec fn view(&self) -> OutputView {
        match self {
            Output::Valid(v) => OutputView::Valid(*v),
            Output::Invalid(t) => OutputView::Invalid(t@),
        }
    }
}

/// The view of a result of this module.
pub open spec fn result_view<T: View>(r: Result<T>) -> std::result::Result<T::V, ErrorView> {
    match r {
        Ok(value) => Ok(value@),
        Err(e) => Err(e@),
    }
}

/// `t` without its trailing NUL characters.
pub open spec fn strip_nuls(t: Seq<char>) -> Seq<char>
    decreases t.len(),
{
    if t.len() > 0 && t.last() == '\0' {
        strip_nuls(t.drop_last())
    } else {
        t
    }
}

/// Whether `t` begins with `p`.
pub open spec fn has_prefix(t: Seq<char>, p: Seq<char>) -> bool {
    p.len() <= t.len() && t.subrange(0, p.len() as int) == p
}

/// The value of `c` as a digit in base `radix` (10 or 16; hexadecimal digits in either case).
pub open spec fn digit_value(c: char, radix: nat) -> Option<nat> {
    let u = c as u32;
    if 48 <= u <= 57 {
        Some((u - 48) as nat)
    } else if radix == 16 && 97 <= u <= 102 {
        Some((u - 87) as nat)
    } else if radix == 16 && 65 <= u <= 70 {
        Some((u - 55) as nat)
    } else {
        None
    }
}

/// Whether every character of `s` is a digit in base `radix`.
pub open spec fn all_digits(s: Seq<char>, radix: nat) -> bool {
    forall|i: int| 0 <= i < s.len() ==> (#[trigger] digit_value(s[i], radix)) is Some
}

/// The number that the digits `s` stand for in base `radix`.
pub open spec fn digits_value(s: Seq<char>, radix: nat) -> nat
    decreases s.len(),
{
    if s.len() == 0 {
        0
    } else {
        digits_value(s.drop_last(), radix) * radix + digit_value(s.last(), radix)->0
    }
}

/// `s` read as a `u32` in base `radix`: an optional `+`, then one digit or more, with a value
/// that fits.
pub open spec fn parse_number(s: Seq<char>, radix: nat) -> Option<u32> {
    let body = if s.len() > 0 && s[0] == '+' { s.skip(1) } else { s };
    if body.len() > 0 && all_digits(body, radix) && digits_value(body, radix) <= u32::MAX {
        Some(digits_value(body, radix) as u32)
    } else {
        None
    }
}

/// What the control file's text `text` means for a call of `method`.
pub open spec fn decode(method: Seq<char>, text: Seq<char>) -> std::result::Result<OutputView, ErrorView> {
    let t = strip_nuls(text);
    if has_prefix(t, "Error: "@) {
        let message = t.skip(7);
        if message == "AE_NOT_FOUND"@ {
            Err(ErrorView::MethodNotFound(method))
        } else {
            Err(ErrorView::UnknownError(message))
        }
    } else {
        let parsed = if has_prefix(t, "0x"@) { parse_number(t.skip(2), 16) } else { parse_number(t, 10) };
        match parsed {
            Some(v) => Ok(OutputView::Valid(v)),
            None => Ok(OutputView::Invalid(t)),
        }
    }
}

/// The outcome of a call of `method` whose transport brought back `reply`.
pub open spec fn call_outcome(
    method: Seq<char>,
    reply: std::result::Result<Seq<char>, ErrorView>,
) -> std::result::Result<OutputView, ErrorView> {
    match reply {
        Ok(text) => decode(method, text),
        Err(e) => Err(e),
    }
}

/// The outcome of a call of `method` that must answer with a number.
pub open spec fn numeric_outcome(
    method: Seq<char>,
    reply: std::result::Result<Seq<char>, ErrorView>,
) -> std::result::Result<u32, ErrorView> {
    match call_outcome(method, reply) {
        Ok(OutputView::Valid(v)) => Ok(v),
        Ok(OutputView::Invalid(t)) => Err(ErrorView::UnknownValue(t)),
        Err(e) => Err(e),
    }
}

/// The outcome of a call of `method` whose answer only matters when it is an error.
pub open spec fn write_outcome(
    method: Seq<char>,
    reply: std::result::Result<Seq<char>, ErrorView>,
) -> std::result::Result<(), ErrorView> {
    match call_outcome(method, reply) {
        Ok(_) => Ok(()),
        Err(e) => Err(e),
    }
}

fn strip_trailing_nuls(text: &str) -> (r: String)
    ensures
        r@ == strip_nuls(text@),
{
    let mut end = text.unicode_len();
    proof {
        assert(text@.subrange(0, end as int) =~= text@);
    }
    while end > 0 && text.get_char(end - 1) == '\0'
        invariant
            end <= text@.len(),
            strip_nuls(text@.subrange(0, end as int)) == strip_nuls(text@),
        decreases end,
    {
        proof {
            assert(text@.subrange(0, end - 1) =~= text@.subrange(0, end as int).drop_last());
        }
        end -= 1;
    }
    String::from_str(text.substring_char(0, end))
}

fn starts_with(t: &str, p: &str) -> (r: bool)
    ensures
        r == has_prefix(t@, p@),
{
    let n = t.unicode_len();
    let m = p.unicode_len();
    if m > n {
        return false;
    }
    let mut i: usize = 0;
    while i < m
        invariant
            m == p@.len(),
            m <= n == t@.len(),
            i <= m,
            forall|j: int| 0 <= j < i ==> t@[j] == p@[j],
        decreases m - i,
    {
        if t.get_char(i) != p.get_char(i) {
            proof {
                assert(t@.subrange(0, m as int)[i as int] != p@[i as int]);
            }
            return false;
        }
        i += 1;
    }
    proof {
        assert(t@.subrange(0, m as int) =~= p@);
    }
    true
}

fn same_text(a: &str, b: &str) -> (r: bool)
    ensures
        r == (a@ == b@),
{
    if a.unicode_len() != b.unicode_len() {
        return false;
    }
    proof {
        assert(a@ =~= a@.subrange(0, b@.len() as int));
    }
    starts_with(a, b)
}

fn digit(c: char, radix: u32) -> (r: Option<u32>)
    requires
        radix == 10 || radix == 16,
    ensures
        r matches Some(d) ==> digit_value(c, radix as nat) == Some(d as nat) && d < radix,
        r is None ==> digit_value(c, radix as nat) is None,
{
    let u = c as u32;
    if 48 <= u && u <= 57 {
        Some(u - 48)
    } else if radix == 16 && 97 <= u && u <= 102 {
        Some(u - 87)
    } else if radix == 16 && 65 <= u && u <= 70 {
        Some(u - 55)
    } else {
        None
    }
}

proof fn lemma_digits_value_grows(s: Seq<char>, radix: nat)
    requires
        s.len() > 0,
        radix >= 1,
    ensures
        digits_value(s, radix) >= digits_value(s.drop_last(), radix),
{
    let prev = digits_value(s.drop_last(), radix);
    let d = digit_value(s.last(), radix)->0;
    assert(prev * radix + d >= prev) by (nonlinear_arith)
        requires
            radix >= 1,
    ;
}

/// Reads `s` as a `u32` in base `radix`, as std's `u32::from_str_radix` does.
pub fn parse_u32(s: &str, radix: u32) -> (r: Option<u32>)
    requires
        radix == 10 || radix == 16,
    ensures
        r == parse_number(s@, radix as nat),
{
    let n = s.unicode_len();
    let start: usize = if n > 0 && s.get_char(0) == '+' { 1 } else { 0 };
    let ghost body = s@.subrange(start as int, n as int);
    proof {
        if start == 1 {
            assert(body =~= s@.skip(1));
        } else {
            assert(body =~= s@);
        }
    }
    if start == n {
        return None;
    }
    let mut acc: u64 = 0;
    let mut fits = true;
    let mut i: usize = start;
    while i < n
        invariant
            n == s@.len(),
            start <= i <= n,
            body == s@.subrange(start as int, n as int),
            start == 0 || start == 1,
            start == 1 ==> body == s@.skip(1) && s@[0] == '+',
            start == 0 ==> body == s@ && !(n > 0 && s@[0] == '+'),
            radix == 10 || radix == 16,
            all_digits(s@.subrange(start as int, i as int), radix as nat),
            fits ==> acc == digits_value(s@.subrange(start as int, i as int), radix as nat),
            fits ==> acc <= u32::MAX,
            !fits ==> digits_value(s@.subrange(start as int, i as int), radix as nat) > u32::MAX,
        decreases n - i,
    {
        let ghost prefix = s@.subrange(start as int, i as int);
        let ghost next = s@.subrange(start as int, i + 1);
        proof {
            assert(next.drop_last() =~= prefix);
            assert(next.last() == s@[i as int]);
        }
        match digit(s.get_char(i), radix) {
            None => {
                proof {
                    assert(body[i - start] == s@[i as int]);
                    assert(digit_value(body[i - start], radix as nat) is None);
                    assert(!all_digits(body, radix as nat));
                }
                return None;
            },
            Some(d) => {
                if fits {
                    assert(acc * (radix as u64) + (d as u64) <= 0xffff_ffffu64 * 16 + 15)
                        by (nonlinear_arith)
                        requires
                            acc <= 0xffff_ffffu64,
                            radix <= 16,
                            d < radix,
                    ;
                    acc = acc * (radix as u64) + (d as u64);
                    if acc > 0xffff_ffffu64 {
                        fits = false;
                    }
                } else {
                    proof {
                        lemma_digits_value_grows(next, radix as nat);
                    }
                }
                proof {
                    assert forall|j: int| 0 <= j < next.len() implies (#[trigger] digit_value(
                        next[j],
                        radix as nat,
                    )) is Some by {
                        if j < prefix.len() {
                            assert(next[j] == prefix[j]);
                        }
                    }
                }
                i += 1;
            },
        }
    }
    proof {
        assert(s@.subrange(start as int, i as int) == body);
    }
    if fits {
        Some(acc as u32)
    } else {
        None
    }
}

impl Error {
    const AE_NOT_FOUND: &'static str = "AE_NOT_FOUND";

    /// The error for the firmware message `message` on a call of `method`.
    pub fn maybe_method_not_found(message: String, method: String) -> (r: Error)
        ensures
            message@ == "AE_NOT_FOUND"@ ==> r@ == ErrorView::MethodNotFound(method@),
            message@ != "AE_NOT_FOUND"@ ==> r@ == ErrorView::UnknownError(message@),
    {
        if same_text(message.as_str(), Self::AE_NOT_FOUND) {
            Error::MethodNotFound { method }
        } else {
            Error::UnknownError { message }
        }
    }
}

/// Every text that the control file can read back has exactly one meaning: a firmware error
/// (a missing method or another message), a number, or text that is no number, which is kept
/// without its trailing NULs. Decoding never yields any other error.
pub proof fn decode_is_total(method: Seq<char>, text: Seq<char>)
    ensures
        has_prefix(strip_nuls(text), "Error: "@) <==> (decode(method, text) matches Err(
            ErrorView::MethodNotFound(_),
        ) || decode(method, text) matches Err(ErrorView::UnknownError(_))),
        !has_prefix(strip_nuls(text), "Error: "@) ==> (decode(method, text) matches Ok(OutputView::Valid(_))
            || decode(method, text) == Ok::<OutputView, ErrorView>(OutputView::Invalid(strip_nuls(text)))),
        decode(method, text) is Ok || decode(method, text) matches Err(ErrorView::MethodNotFound(_))
            || decode(method, text) matches Err(ErrorView::UnknownError(_)),
{
}

/// Interprets the text that the control file read back after a call of `method`.
///
/// This never fails on unexpected text: what is neither a firmware error nor a number is
/// returned as [`Output::Invalid`].
pub fn decode_response(method: &str, text: &str) -> (r: Result<Output>)
    ensures
        result_view(r) == decode(method@, text@),
{
    proof {
        reveal_strlit("Error: ");
        reveal_strlit("0x");
    }
    let t = strip_trailing_nuls(text);
    let n = t.as_str().unicode_len();
    if starts_with(t.as_str(), "Error: ") {
        let message = String::from_str(t.as_str().substring_char(7, n));
        proof {
            assert(message@ =~= t@.skip(7));
        }
        return Err(Error::maybe_method_not_found(message, String::from_str(method)));
    }
    let parsed = if starts_with(t.as_str(), "0x") {
        let digits = t.as_str().substring_char(2, n);
        proof {
            assert(digits@ =~= t@.skip(2));
        }
        parse_u32(digits, 16)
    } else {
        parse_u32(t.as_str(), 10)
    };
    match parsed {
        Some(v) => Ok(Output::Valid(v)),
        None => Ok(Output::Invalid(t)),
    }
}

/// Completes a call of `method` whose transport brought back `reply`.
pub fn acpi_call(method: &str, reply: Reply) -> (r: Result<Output>)
    ensures
        result_view(r) == call_outcome(method@, reply_view(reply)),
{
    match reply {
        Ok(text) => decode_response(method, text.as_str()),
        Err(e) => Err(e),
    }
}

/// Completes a call of `method` that must answer with a number: text that is not a number
/// becomes [`Error::UnknownValue`].
pub fn acpi_call_expect_valid(method: &str, reply: Reply) -> (r: Result<u32>)
    ensures
        result_view(r) == numeric_outcome(method@, reply_view(reply)),
{
    match acpi_call(method, reply) {
        Ok(Output::Valid(value)) => Ok(value),
        Ok(Output::Invalid(value)) => Err(Error::UnknownValue { value }),
        Err(error) => Err(error),
    }
}

/// Completes a call of `method` whose answer is of no interest unless it is an error.
pub fn acpi_call_expect_written(method: &str, reply: Reply) -> (r: Result<()>)
    ensures
        result_view(r) == write_outcome(method@, reply_view(reply)),
{
    match acpi_call(method, reply) {
        Ok(_) => Ok(()),
        Err(error) => Err(error),
    }
}

} // verus!
