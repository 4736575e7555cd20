//! The session driver: a builder-style configuration over a target host,
//! port, idle timeout and responder, and the read-respond control protocol
//! that a configured session executes.
//!
//! The protocol is: drain whatever the peer has sent, hand the text to the
//! responder, send its answer back if it gave one and drain again, and stop
//! when it declines; one final drain is then appended so that nothing the
//! peer sent around the last answer is lost.  The socket work is the
//! embedding application's business: it feeds the drained text in and carries
//! the answers out.

use vstd::prelude::*;

use crate::error::CtfTcpHandlerError;

verus! {

/// The idle read timeout, in milliseconds, that a session uses when none was
/// configured.
pub const DEFAULT_TIMEOUT_MS: u64 = 1000;

/// A builder-style session configuration: target host, port, idle timeout
/// and responder, each optional until the session is run.
///
/// The responder decides the session's fate on each drained burst of text:
/// `Some(answer)` sends the answer and keeps the session going, `None` ends
/// it.  It is a plain function of the text it is shown.
pub struct CtfLoopResponder<'a, F> {
    /// The target host, if set.
    pub url: Option<&'a str>,
    /// The target port, if set.
    pub port: Option<u16>,
    /// The idle read timeout in milliseconds, if set.
    pub timeout: Option<u64>,
    /// The responder applied to each drained burst, if set.
    pub responder_func: Option<F>,
}

/// Everything connection establishment needs, extracted from a configuration
/// that was checked to be complete: the target address parts and the
/// effective idle timeout.
#[derive(Clone, Copy, Debug, PartialEq, Eq)]
pub struct ConnectionPlan<'a> {
    /// The target host.
    pub url: &'a str,
    /// The target port.
    pub port: u16,
    /// The idle read timeout in milliseconds: the configured value, or
    /// `DEFAULT_TIMEOUT_MS` when none was configured.
    pub timeout: u64,
}

/// The character standing for the decimal digit `d`.
pub open spec fn digit_char(d: int) -> char {
    ((48 + d) as u8) as char
}

/// The decimal digits of `n`, most significant first; empty when `n` is not
/// positive.
pub open spec fn decimal_text(n: int) -> Seq<char>
    decreases n,
{
    if n <= 0 {
        Seq::empty()
    } else {
        decimal_text(n / 10).push(digit_char(n % 10))
    }
}

/// The decimal rendering of a port number: its digits, or `0` itself.
pub open spec fn port_text(port: u16) -> Seq<char> {
    if port == 0 {
        seq!['0']
    } else {
        decimal_text(port as int)
    }
}

/// The address label that connection establishment resolves: the host, one
/// colon, and the port in decimal.
pub open spec fn uri_text(url: Seq<char>, port: u16) -> Seq<char> {
    url + seq![':'] + port_text(port)
}

/// The one-character text of a decimal digit.
fn digit_str(d: u16) -> (r: &'static str)
    requires
        d < 10,
    ensures
        r@ == seq![digit_char(d as int)],
{
    let r = match d {
        0 => "0",
        1 => "1",
        2 => "2",
        3 => "3",
        4 => "4",
        5 => "5",
        6 => "6",
        7 => "7",
        8 => "8",
        _ => "9",
    };
    proof {
        reveal_strlit("0");
        reveal_strlit("1");
        reveal_strlit("2");
        reveal_strlit("3");
        reveal_strlit("4");
        reveal_strlit("5");
        reveal_strlit("6");
        reveal_strlit("7");
        reveal_strlit("8");
        reveal_strlit("9");
        assert(r@ =~= seq![digit_char(d as int)]);
    }
    r
}

/// Append the decimal digits of `n` (nothing for 0), most significant
/// first.
fn push_decimal(n: u16, out: &mut String)
    ensures
        final(out)@ == old(out)@ + decimal_text(n as int),
    decreases n,
{
    if n == 0 {
        proof {
            assert(old(out)@ + decimal_text(0) =~= old(out)@);
        }
        return ;
    }
    push_decimal(n / 10, out);
    out.append(digit_str(n % 10));
    proof {
        assert((old(out)@ + decimal_text(n as int / 10)) + seq![digit_char(n as int % 10)]
            =~= old(out)@ + decimal_text(n as int));
    }
}

/// Build the address label `host:port` that connection establishment hands
/// to name resolution: the host's own characters, one colon, and the port
/// in decimal.
pub fn connection_uri(url: &str, port: u16) -> (r: String)
    ensures
        r@ == uri_text(url@, port),
{
    let mut r = url.to_owned();
    r.append(":");
    proof {
        reveal_strlit(":");
        assert(r@ =~= url@ + seq![':']);
    }
    if port == 0 {
        r.append("0");
        proof {
            reveal_strlit("0");
            assert(r@ =~= uri_text(url@, port));
        }
    } else {
        push_decimal(port, &mut r);
        proof {
            assert(r@ =~= uri_text(url@, port));
        }
    }
    r
}

impl<'a, F: Fn(&str) -> Option<String>> CtfLoopResponder<'a, F> {
    /// Build a new empty configuration: no host, no port, no timeout, no
    /// responder.
    pub fn new() -> (r: Self)
        ensures
            r.url is None,
            r.port is None,
            r.timeout is None,
            r.responder_func is None,
    {
        Self { url: None, port: None, timeout: None, responder_func: None }
    }

    /// Build a configuration aimed at localhost on the given port.
    pub fn localhost(port: u16) -> (r: Self)
        ensures
            r.url is Some && r.url.unwrap()@ == "localhost"@,
            r.port == Some(port),
            r.timeout is None,
            r.responder_func is None,
    {
        Self::new().url("localhost").port(port)
    }

    /// Set the target host, leaving the other fields as they are.
    pub fn url(self, url: &'a str) -> (r: Self)
        ensures
            r.url == Some(url),
            r.port == self.port,
            r.timeout == self.timeout,
            r.responder_func == self.responder_func,
    {
        Self { url: Some(url), ..self }
    }

    /// Set the target port, leaving the other fields as they are.
    pub fn port(self, port: u16) -> (r: Self)
        ensures
            r.url == self.url,
            r.port == Some(port),
            r.timeout == self.timeout,
            r.responder_func == self.responder_func,
    {
        Self { port: Some(port), ..self }
    }

    /// Set the idle read timeout in milliseconds, leaving the other fields
    /// as they are.
    pub fn timeout(self, timeout: u64) -> (r: Self)
        ensures
            r.url == self.url,
            r.port == self.port,
            r.timeout == Some(timeout),
            r.responder_func == self.responder_func,
    {
        Self { timeout: Some(timeout), ..self }
    }

    /// Set the responder applied to each incoming burst, leaving the other
    /// fields as they are.
    pub fn responder_func(self, responder_func: F) -> (r: Self)
        ensures
            r.url == self.url,
            r.port == self.port,
            r.timeout == self.timeout,
            r.responder_func == Some(responder_func),
    {
        Self { responder_func: Some(responder_func), ..self }
    }

    /// Check that the configuration is complete and extract what connection
    /// establishment needs.  A configuration without host, port or responder
    /// is a configuration error, found before any connection is attempted;
    /// a missing timeout is no error and falls back to `DEFAULT_TIMEOUT_MS`.
    pub fn connection_plan(&self) -> (r: Result<ConnectionPlan<'a>, CtfTcpHandlerError>)
        ensures
            r is Ok <==> (self.url is Some && self.port is Some && self.responder_func is Some),
            r matches Err(e) ==> e == CtfTcpHandlerError::ConfigurationError,
            r matches Ok(p) ==> {
                &&& p.url == self.url.unwrap()
                &&& p.port == self.port.unwrap()
                &&& p.timeout == if self.timeout is Some {
                    self.timeout.unwrap()
                } else {
                    DEFAULT_TIMEOUT_MS
                }
            },
    {
        let url = match self.url {
            Some(u) => u,
            None => {
                return Err(CtfTcpHandlerError::ConfigurationError);
            },
        };
        let port = match self.port {
            Some(p) => p,
            None => {
                return Err(CtfTcpHandlerError::ConfigurationError);
            },
        };
        if self.responder_func.is_none() {
            return Err(CtfTcpHandlerError::ConfigurationError);
        }
        let timeout = match self.timeout {
            Some(t) => t,
            None => DEFAULT_TIMEOUT_MS,
        };
        Ok(ConnectionPlan { url, port, timeout })
    }
}

/// What one completed session produced: the answers sent, in order, and the
/// returned text.
pub struct SessionOutcome {
    /// The answers the responder gave, in the order they were sent.
    pub answers: Vec<String>,
    /// The session's result: the burst the responder declined, with the
    /// final extra drain appended.
    pub output: String,
    /// How many drained bursts the session consumed, the final extra drain
    /// included.
    pub reads_used: usize,
}

/// True when `decision` is an answer the responder `f` may give when shown
/// the text `input`.
pub open spec fn may_answer<F: Fn(&str) -> Option<String>>(
    f: F,
    input: Seq<char>,
    decision: Option<String>,
) -> bool {
    exists|s: &str| s@ == input && call_ensures(f, (s,), decision)
}

/// True when `o` is an outcome the control protocol may produce under the
/// responder `f` from the drained bursts `reads`, taken in order: the
/// responder answered each of the first `answers.len()` bursts with the
/// answer that was sent, declined the next, and the output is that declined
/// burst with the one further burst (the final extra drain) appended.
pub open spec fn session_outcome<F: Fn(&str) -> Option<String>>(
    f: F,
    reads: Seq<String>,
    o: SessionOutcome,
) -> bool {
    let n = o.answers@.len() as int;
    &&& n + 2 <= reads.len()
    &&& o.reads_used == n + 2
    &&& forall|j: int| 0 <= j < n ==> may_answer(f, reads[j]@, Some(#[trigger] o.answers@[j]))
    &&& may_answer(f, reads[n]@, None)
    &&& o.output@ == reads[n]@ + reads[n + 1]@
}

/// True when the drained bursts `reads` ran out before the control protocol
/// could finish: the responder answered every burst it was shown (the
/// answers are `answers`), and either no burst was left to show it, or it
/// declined the last one and no further burst stood for the final extra
/// drain.
pub open spec fn transcript_exhausted<F: Fn(&str) -> Option<String>>(
    f: F,
    reads: Seq<String>,
    answers: Seq<String>,
) -> bool {
    &&& answers.len() <= reads.len()
    &&& forall|j: int| 0 <= j < answers.len() ==> may_answer(f, reads[j]@, Some(#[trigger] answers[j]))
    &&& (answers.len() == reads.len() || (answers.len() + 1 == reads.len() && may_answer(
        f,
        reads[answers.len() as int]@,
        None,
    )))
}

impl<'a, F: Fn(&str) -> Option<String>> CtfLoopResponder<'a, F> {
    /// Apply the configured responder to one drained burst: its answer keeps
    /// the session going, its refusal ends it.
    pub fn respond(&self, input: &str) -> (r: Option<String>)
        requires
            self.responder_func is Some,
            call_requires(self.responder_func.unwrap(), (input,)),
        ensures
            call_ensures(self.responder_func.unwrap(), (input,), r),
    {
        match &self.responder_func {
            Some(f) => f(input),
            None => None,
        }
    }

    /// The control protocol, run over drained bursts given in advance: show
    /// each burst to the responder in order, record the answer it gives,
    /// and on its first refusal finish with that burst plus the next one
    /// (standing for the final extra drain).  Returns `None` when `reads`
    /// ran out before the responder declined, or held no burst beyond the
    /// declined one.
    pub fn work_through(&self, reads: &Vec<String>) -> (r: Option<SessionOutcome>)
        requires
            self.responder_func is Some,
            forall|s: &str| call_requires(self.responder_func.unwrap(), (s,)),
        ensures
            r matches Some(o) ==> session_outcome(self.responder_func.unwrap(), reads@, o),
            r is None ==> exists|answers: Seq<String>|
                #[trigger] transcript_exhausted(self.responder_func.unwrap(), reads@, answers),
    {
        let ghost f = self.responder_func.unwrap();
        let mut answers: Vec<String> = Vec::new();
        let mut i: usize = 0;
        while i < reads.len()
            invariant
                self.responder_func is Some,
                f == self.responder_func.unwrap(),
                forall|s: &str| call_requires(f, (s,)),
                0 <= i <= reads.len(),
                answers@.len() == i,
                forall|j: int|
                    0 <= j < i ==> may_answer(f, reads@[j]@, Some(#[trigger] answers@[j])),
            decreases reads.len() - i,
        {
            let input = &reads[i];
            match self.respond(input.as_str()) {
                Some(a) => {
                    answers.push(a);
                    i = i + 1;
                },
                None => {
                    if i + 1 < reads.len() {
                        let mut output = reads[i].clone();
                        output.append(reads[i + 1].as_str());
                        let reads_used = i + 2;
                        return Some(SessionOutcome { answers, output, reads_used });
                    } else {
                        proof {
                            assert(transcript_exhausted(f, reads@, answers@));
                        }
                        return None;
                    }
                },
            }
        }
        proof {
            assert(transcript_exhausted(f, reads@, answers@));
        }
        None
    }
}

/// A responder that can only decline ends the session at once: any outcome
/// the control protocol may produce under it holds no answers, consumed
/// exactly one burst and the final extra drain, and its output is those two
/// bursts concatenated.
pub proof fn lemma_decline_at_once<F: Fn(&str) -> Option<String>>(
    f: F,
    reads: Seq<String>,
    o: SessionOutcome,
)
    requires
        session_outcome(f, reads, o),
        forall|s: &str, d: Option<String>| #[trigger] call_ensures(f, (s,), d) ==> d is None,
    ensures
        o.answers@.len() == 0,
        o.reads_used == 2,
        o.output@ == reads[0]@ + reads[1]@,
{
    if o.answers@.len() > 0 {
        assert(may_answer(f, reads[0]@, Some(o.answers@[0])));
        assert(false);
    }
}

/// A responder that must answer `a` on each of the first `n` bursts of the
/// transcript and must decline the burst after them answers `a` exactly `n`
/// times: any outcome the control protocol may produce under it sent `n`
/// copies of `a`, consumed those `n + 1` bursts and the final extra drain,
/// and its output is the declined burst with that final drain appended.
pub proof fn lemma_answer_until_declined<F: Fn(&str) -> Option<String>>(
    f: F,
    reads: Seq<String>,
    o: SessionOutcome,
    a: String,
    n: int,
)
    requires
        session_outcome(f, reads, o),
        0 <= n,
        n + 2 <= reads.len(),
        forall|j: int, s: &str, d: Option<String>|
            #![trigger call_ensures(f, (s,), d), reads[j]]
            0 <= j < n && s@ == reads[j]@ && call_ensures(f, (s,), d) ==> d == Some(a),
        forall|s: &str, d: Option<String>|
            s@ == reads[n]@ && #[trigger] call_ensures(f, (s,), d) ==> d is None,
    ensures
        o.answers@ =~= Seq::new(n as nat, |j: int| a),
        o.reads_used == n + 2,
        o.output@ == reads[n]@ + reads[n + 1]@,
{
    let m = o.answers@.len() as int;
    if m < n {
        assert(may_answer(f, reads[m]@, None));
        assert(false);
    }
    if m > n {
        assert(may_answer(f, reads[n]@, Some(o.answers@[n])));
        assert(false);
    }
    assert forall|j: int| 0 <= j < n implies o.answers@[j] == a by {
        assert(may_answer(f, reads[j]@, Some(o.answers@[j])));
    }
}

impl<'a, F: Fn(&str) -> Option<String>> Default for CtfLoopResponder<'a, F> {
    /// The empty configuration, as `new` builds it.
    fn default() -> (r: Self)
        ensures
            r.url is None,
            r.port is None,
            r.timeout is None,
            r.responder_func is None,
    {
        Self::new()
    }
}

} // verus!
