//! What one probe found, and the single output line that reports it.
use vstd::prelude::*;
use vstd::string::StrSliceExecFns;
use vstd::string::StringExecFns;

verus! {

/// The result of one HEAD probe.
#[derive(Clone, Debug)]
pub enum Outcome {
    /// A response outside the redirection class, with its status code.
    Success(u16),
    /// A 3xx response: its status code and its `Location` header, when the
    /// header was present and readable as text.
    Redirect(u16, Option<String>),
    /// No response: the request failed below the HTTP layer. The message
    /// holds no tab and no newline.
    TransportError(String),
}

/// Characters that would split a field or a line of the output.
pub open spec fn is_field_break(c: char) -> bool {
    c == '\t' || c == '\n'
}

/// `s` with every tab and newline replaced by a space.
pub open spec fn sanitized(s: Seq<char>) -> Seq<char> {
    Seq::new(s.len(), |i: int| if is_field_break(s[i]) { ' ' } else { s[i] })
}

/// The status codes of the redirection class.
pub open spec fn is_redirection(code: u16) -> bool {
    300 <= code && code <= 399
}

/// The ASCII digit for `d`, for `d` below ten.
pub open spec fn digit_char(d: nat) -> char {
    if d == 0 { '0' }
    else if d == 1 { '1' }
    else if d == 2 { '2' }
    else if d == 3 { '3' }
    else if d == 4 { '4' }
    else if d == 5 { '5' }
    else if d == 6 { '6' }
    else if d == 7 { '7' }
    else if d == 8 { '8' }
    else { '9' }
}

/// Decimal digits of `n`, most significant first, without leading zeros.
pub open spec fn decimal(n: nat) -> Seq<char>
    decreases n,
{
    if n < 10 {
        seq![digit_char(n)]
    } else {
        decimal(n / 10).push(digit_char(n % 10))
    }
}

/// Shown in place of a redirect target that is missing or unreadable.
pub open spec fn placeholder() -> Seq<char> {
    seq!['?']
}

/// Status field written for a request that got no response.
pub open spec fn no_status() -> Seq<char> {
    seq!['0', '0', '0']
}

/// The output line (without its terminating newline) for `url` and `o`:
/// tab-separated URL, status and, where there is one, detail.
pub open spec fn line_of(url: Seq<char>, o: Outcome) -> Seq<char> {
    match o {
        Outcome::Success(code) => url + seq!['\t'] + decimal(code as nat),
        Outcome::Redirect(code, loc) => url + seq!['\t'] + decimal(code as nat) + seq!['\t']
            + match loc {
            Some(l) => l@,
            None => placeholder(),
        },
        Outcome::TransportError(msg) => url + seq!['\t'] + no_status() + seq!['\t'] + msg@,
    }
}

impl Outcome {
    /// Classifies a response by its status code: a 3xx code is a redirect,
    /// reported with the `Location` value and never followed; anything else
    /// is a success.
    pub fn from_response(status: u16, location: Option<String>) -> (r: Outcome)
        ensures
            is_redirection(status) ==> r == Outcome::Redirect(status, location),
            !is_redirection(status) ==> r == Outcome::Success(status),
    {
        if 300 <= status && status <= 399 {
            Outcome::Redirect(status, location)
        } else {
            Outcome::Success(status)
        }
    }

    /// A transport failure, with its message made safe for one field of
    /// one line.
    pub fn from_transport_error(message: &str) -> (r: Outcome)
        ensures
            r matches Outcome::TransportError(m) && m@ == sanitized(message@),
    {
        Outcome::TransportError(sanitize(message))
    }

    /// The status code a line reports; `None` for a transport failure.
    pub open spec fn status_spec(&self) -> Option<u16> {
        match *self {
            Outcome::Success(c) => Some(c),
            Outcome::Redirect(c, _) => Some(c),
            Outcome::TransportError(_) => None,
        }
    }

    /// The status code the line reports; `None` for a transport failure.
    pub fn status(&self) -> (r: Option<u16>)
        ensures
            r == self.status_spec(),
    {
        match self {
            Outcome::Success(c) => Some(*c),
            Outcome::Redirect(c, _) => Some(*c),
            Outcome::TransportError(_) => None,
        }
    }

    /// The result line for `url`, without a trailing newline.
    pub fn line(&self, url: &str) -> (r: String)
        ensures
            r@ == line_of(url@, *self),
    {
        let mut out = String::from_str(url);
        out.append("\t");
        proof {
            reveal_strlit("\t");
        }
        match self {
            Outcome::Success(code) => {
                append_decimal(&mut out, *code as u64);
                assert(out@ =~= line_of(url@, *self));
            },
            Outcome::Redirect(code, loc) => {
                append_decimal(&mut out, *code as u64);
                out.append("\t");
                match loc {
                    Some(l) => out.append(l.as_str()),
                    None => {
                        out.append("?");
                        proof {
                            reveal_strlit("?");
                        }
                    },
                }
                assert(out@ =~= line_of(url@, *self));
            },
            Outcome::TransportError(msg) => {
                out.append("000\t");
                out.append(msg.as_str());
                proof {
                    reveal_strlit("000\t");
                }
                assert(out@ =~= line_of(url@, *self));
            },
        }
        out
    }
}

/// A redirect is reported, not followed: for a 3xx status the line gives
/// that same code and the `Location` value (or the placeholder).
pub proof fn lemma_redirect_reports_own_code(
    url: Seq<char>,
    status: u16,
    location: Option<String>,
    o: Outcome,
)
    requires
        is_redirection(status),
        o == Outcome::Redirect(status, location),
    ensures
        o.status_spec() == Some(status),
        line_of(url, o) == url + seq!['\t'] + decimal(status as nat) + seq!['\t'] + match location {
            Some(l) => l@,
            None => placeholder(),
        },
{
}

/// Whatever a transport error's message holds, its result line is one
/// line with exactly the three fields: the message field holds no tab and
/// no newline, so the line holds a newline only where the URL does.
pub proof fn lemma_transport_line_is_single(url: Seq<char>, message: Seq<char>, o: Outcome)
    requires
        o matches Outcome::TransportError(m) && m@ == sanitized(message),
    ensures
        line_of(url, o) == url + seq!['\t'] + no_status() + seq!['\t'] + sanitized(message),
        forall|i: int| 0 <= i < sanitized(message).len() ==> !is_field_break(
            #[trigger] sanitized(message)[i],
        ),
        (forall|i: int| 0 <= i < url.len() ==> url[i] != '\n') ==> forall|i: int|
            0 <= i < line_of(url, o).len() ==> #[trigger] line_of(url, o)[i] != '\n',
{
    let line = line_of(url, o);
    let head = url + seq!['\t'] + no_status() + seq!['\t'];
    assert(line == head + sanitized(message));
    if forall|i: int| 0 <= i < url.len() ==> url[i] != '\n' {
        assert forall|i: int| 0 <= i < line.len() implies #[trigger] line[i] != '\n' by {
            if i >= head.len() {
                assert(line[i] == sanitized(message)[i - head.len()]);
            } else if i >= url.len() {
                assert(line[i] == head[i]);
            } else {
                assert(line[i] == url[i]);
            }
        }
    }
}

/// The one-character string for digit `d`.
fn digit_str(d: u64) -> (r: &'static str)
    requires
        d < 10,
    ensures
        r@ == seq![digit_char(d as nat)],
{
    proof {
        reveal_strlit("0");
        reveal_strlit("1");
        reveal_strlit("2");
        reveal_strlit("3");
        reveal_strlit("4");
        reveal_strlit("5");
        reveal_strlit("6");
        reveal_strlit("7");
        reveal_strlit("8");
        reveal_strlit("9");
    }
    if d == 0 { "0" }
    else if d == 1 { "1" }
    else if d == 2 { "2" }
    else if d == 3 { "3" }
    else if d == 4 { "4" }
    else if d == 5 { "5" }
    else if d == 6 { "6" }
    else if d == 7 { "7" }
    else if d == 8 { "8" }
    else { "9" }
}

/// Appends the decimal digits of `n` to `out`.
fn append_decimal(out: &mut String, n: u64)
    ensures
        final(out)@ == old(out)@ + decimal(n as nat),
    decreases n,
{
    if n >= 10 {
        append_decimal(out, n / 10);
    }
    out.append(digit_str(n % 10));
    assert(final(out)@ =~= old(out)@ + decimal(n as nat));
}

/// Replaces each tab and newline of `message` by a space, so that it fits
/// in one field of one output line.
pub fn sanitize(message: &str) -> (r: String)
    ensures
        r@ == sanitized(message@),
{
    let n = message.unicode_len();
    let mut out = String::new();
    let mut start: usize = 0;
    let mut i: usize = 0;
    while i < n
        invariant
            n == message@.len(),
            start <= i <= n,
            out@ == sanitized(message@.subrange(0, start as int)),
            forall|j: int| start <= j < i ==> !is_field_break(#[trigger] message@[j]),
        decreases n - i,
    {
        let c = message.get_char(i);
        if c == '\t' || c == '\n' {
            let run = message.substring_char(start, i);
            out.append(run);
            out.append(" ");
            proof {
                reveal_strlit(" ");
                assert(out@ =~= sanitized(message@.subrange(0, i + 1)));
            }
            start = i + 1;
        }
        i = i + 1;
    }
    let rest = message.substring_char(start, n);
    out.append(rest);
    assert(out@ =~= sanitized(message@.subrange(0, n as int)));
    assert(message@.subrange(0, n as int) =~= message@);
    out
}

} // verus!
