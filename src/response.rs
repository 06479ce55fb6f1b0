//! Outcomes of one network operation and their mapping to the wire response.
use vstd::prelude::*;
use vstd::string::*;

verus! {

/// Why an admitted operation could not be completed.
#[derive(Clone, Copy, Debug, PartialEq, Eq, Structural)]
pub enum Failure {
    /// The request was malformed (an empty network name or password).
    InvalidInput,
    /// The radio is switched off, so no network can be joined.
    RadioDisabled,
    /// The adapter command failed or did not confirm its effect.
    CommandFailed,
}

/// What a successful operation hands back.
pub enum Payload {
    /// A status word with its flag, such as `on` or `disabled`.
    Status { text: String, flag: bool },
    /// Scanned networks: name and whether the network is open.
    Networks(Vec<(String, bool)>),
    /// The network the adapter is associated with, if any.
    Current(Option<String>),
}

/// The result of one request.
pub enum Outcome {
    Success(Payload),
    DomainFailure(Failure),
    Busy,
}

/// The message and the data pairs that a client receives.
pub struct Response {
    pub message: String,
    pub data: Vec<(String, bool)>,
}

pub ghost enum PayloadView {
    Status { text: Seq<char>, flag: bool },
    Networks(Seq<(Seq<char>, bool)>),
    Current(Option<Seq<char>>),
}

pub ghost enum OutcomeView {
    Success(PayloadView),
    DomainFailure(Failure),
    Busy,
}

pub ghost struct ResponseView {
    pub message: Seq<char>,
    pub data: Seq<(Seq<char>, bool)>,
}

/// The view of an optional string.
pub open spec fn option_view(o: Option<String>) -> Option<Seq<char>> {
    match o {
        Some(s) => Some(s@),
        None => None,
    }
}

impl View for Payload {
    type V = PayloadView;

    open spec fn view(&self) -> PayloadView {
        match self {
            Payload::Status { text, flag } => PayloadView::Status { text: text@, flag: *flag },
            Payload::Networks(l) => PayloadView::Networks(l.deep_view()),
            Payload::Current(c) => PayloadView::Current(option_view(*c)),
        }
    }
}

impl View for Outcome {
    type V = OutcomeView;

    open spec fn view(&self) -> OutcomeView {
        match self {
            Outcome::Success(p) => OutcomeView::Success(p@),
            Outcome::DomainFailure(f) => OutcomeView::DomainFailure(*f),
            Outcome::Busy => OutcomeView::Busy,
        }
    }
}

impl View for Response {
    type V = ResponseView;

    open spec fn view(&self) -> ResponseView {
        ResponseView { message: self.message@, data: self.data.deep_view() }
    }
}

/// The response for an outcome. A busy slot gives the sentinel `busy` and no
/// data; a failure gives `error` and no detail; a status gives itself as the
/// message and one pair; a list or an optional network gives `Done`.
pub open spec fn format_spec(o: OutcomeView) -> ResponseView {
    match o {
        OutcomeView::Busy => ResponseView { message: "busy"@, data: Seq::empty() },
        OutcomeView::DomainFailure(_) => ResponseView {
            message: "error"@,
            data: seq![("error"@, false)],
        },
        OutcomeView::Success(p) => match p {
            PayloadView::Status { text, flag } => ResponseView {
                message: text,
                data: seq![(text, flag)],
            },
            PayloadView::Networks(l) => ResponseView { message: "Done"@, data: l },
            PayloadView::Current(Some(s)) => ResponseView {
                message: "Done"@,
                data: seq![(s, true)],
            },
            PayloadView::Current(None) => ResponseView {
                message: "Done"@,
                data: seq![(Seq::<char>::empty(), false)],
            },
        },
    }
}

fn one_pair(text: String, flag: bool) -> (r: Vec<(String, bool)>)
    ensures
        r.deep_view() == seq![(text@, flag)],
{
    let mut v: Vec<(String, bool)> = Vec::new();
    v.push((text, flag));
    assert(v.deep_view() =~= seq![(text@, flag)]);
    v
}

/// Maps an outcome to the response a client receives.
pub fn format(o: Outcome) -> (r: Response)
    ensures
        r@ == format_spec(o@),
{
    match o {
        Outcome::Busy => {
            let data: Vec<(String, bool)> = Vec::new();
            assert(data.deep_view() =~= Seq::<(Seq<char>, bool)>::empty());
            Response { message: "busy".to_string(), data }
        },
        Outcome::DomainFailure(_) => Response {
            message: "error".to_string(),
            data: one_pair("error".to_string(), false),
        },
        Outcome::Success(p) => match p {
            Payload::Status { text, flag } => {
                let message = text.clone();
                Response { message, data: one_pair(text, flag) }
            },
            Payload::Networks(l) => Response { message: "Done".to_string(), data: l },
            Payload::Current(Some(s)) => Response {
                message: "Done".to_string(),
                data: one_pair(s, true),
            },
            Payload::Current(None) => Response {
                message: "Done".to_string(),
                data: one_pair(String::new(), false),
            },
        },
    }
}

/// The decimal digit `d` as a character.
pub open spec fn digit_char(d: nat) -> char {
    if d == 0 { '0' }
    else if d == 1 { '1' }
    else if d == 2 { '2' }
    else if d == 3 { '3' }
    else if d == 4 { '4' }
    else if d == 5 { '5' }
    else if d == 6 { '6' }
    else if d == 7 { '7' }
    else if d == 8 { '8' }
    else { '9' }
}

/// The decimal notation of `n`, without leading zeros.
pub open spec fn decimal_spec(n: nat) -> Seq<char>
    decreases n,
{
    if n < 10 {
        seq![digit_char(n)]
    } else {
        decimal_spec(n / 10).push(digit_char(n % 10))
    }
}

fn digit_text(d: u64) -> (r: &'static str)
    requires
        d < 10,
    ensures
        r@ == seq![digit_char(d as nat)],
{
    if d == 0 {
        proof { reveal_strlit("0"); }
        "0"
    } else if d == 1 {
        proof { reveal_strlit("1"); }
        "1"
    } else if d == 2 {
        proof { reveal_strlit("2"); }
        "2"
    } else if d == 3 {
        proof { reveal_strlit("3"); }
        "3"
    } else if d == 4 {
        proof { reveal_strlit("4"); }
        "4"
    } else if d == 5 {
        proof { reveal_strlit("5"); }
        "5"
    } else if d == 6 {
        proof { reveal_strlit("6"); }
        "6"
    } else if d == 7 {
        proof { reveal_strlit("7"); }
        "7"
    } else if d == 8 {
        proof { reveal_strlit("8"); }
        "8"
    } else {
        proof { reveal_strlit("9"); }
        "9"
    }
}

/// Writes `n` in decimal.
pub fn decimal(n: u64) -> (r: String)
    ensures
        r@ == decimal_spec(n as nat),
    decreases n,
{
    if n < 10 {
        let r = digit_text(n).to_string();
        assert(r@ == decimal_spec(n as nat));
        r
    } else {
        let head = decimal(n / 10);
        let r = head.concat(digit_text(n % 10));
        assert(r@ =~= decimal_spec(n as nat));
        r
    }
}

/// The status text reported after a wait of `seconds`.
pub open spec fn waited_text(seconds: u64) -> Seq<char> {
    "waited "@ + decimal_spec(seconds as nat) + " seconds"@
}

/// Builds the status text reported after a wait of `seconds`.
pub fn waited_message(seconds: u64) -> (r: String)
    ensures
        r@ == waited_text(seconds),
{
    let digits = decimal(seconds);
    let r = "waited ".to_string().concat(digits.as_str()).concat(" seconds");
    r
}

} // verus!
