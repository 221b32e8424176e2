use vstd::prelude::*;

verus! {

/// The RAC protocol family an endpoint speaks.
#[derive(Debug, Clone, Copy)]
pub enum RacProtocol {
    Raci,
    Racin,
    Racex,
    Racv,
}

/// The primary transport that the host environment offers.
#[derive(Debug, Clone, Copy, PartialEq, Eq, Structural)]
pub enum TransportKind {
    WebSocket,
    NamedPipe,
    Other,
}

/// Where the Hacetime authority is reached.
#[derive(Debug, Clone)]
pub struct RacEndpoint {
    pub host: String,
    pub port: u16,
    pub protocol: RacProtocol,
}

/// The character of one decimal digit.
pub open spec fn digit_char(d: nat) -> char {
    if d == 0 {
        '0'
    } else if d == 1 {
        '1'
    } else if d == 2 {
        '2'
    } else if d == 3 {
        '3'
    } else if d == 4 {
        '4'
    } else if d == 5 {
        '5'
    } else if d == 6 {
        '6'
    } else if d == 7 {
        '7'
    } else if d == 8 {
        '8'
    } else {
        '9'
    }
}

/// The decimal text of `n`, without leading zeros.
pub open spec fn decimal(n: nat) -> Seq<char>
    decreases n,
{
    if n < 10 {
        seq![digit_char(n)]
    } else {
        decimal(n / 10) + seq![digit_char(n % 10)]
    }
}

/// The WebSocket URL of an endpoint on `host` and `port`.
pub open spec fn websocket_url_text(host: Seq<char>, port: u16) -> Seq<char> {
    "ws://"@ + host + ":"@ + decimal(port as nat) + "/uni"@
}

/// `e` is the default Hacetime endpoint: `localhost:3018` over Racin.
pub open spec fn is_hacetime_default(e: RacEndpoint) -> bool {
    &&& e.host@ == "localhost"@
    &&& e.port == 3018
    &&& e.protocol is Racin
}

/// `e` is the Windows named pipe of Hacetime, spoken over Raci.
pub open spec fn is_hacetime_pipe(e: RacEndpoint) -> bool {
    &&& e.host@ == "\\\\.\\pipe\\hace-hacetime"@
    &&& e.port == 0
    &&& e.protocol is Raci
}

/// The endpoint chosen for a host whose primary transport is `t`.
pub open spec fn endpoint_for_transport(t: TransportKind, e: RacEndpoint) -> bool {
    match t {
        TransportKind::NamedPipe => is_hacetime_pipe(e),
        _ => is_hacetime_default(e),
    }
}

/// The one-character text of the digit `d`.
fn digit_str(d: u16) -> (s: &'static str)
    requires
        d < 10,
    ensures
        s@ == seq![digit_char(d as nat)],
{
    if d == 0 {
        proof { reveal_strlit("0"); }
        "0"
    } else if d == 1 {
        proof { reveal_strlit("1"); }
        "1"
    } else if d == 2 {
        proof { reveal_strlit("2"); }
        "2"
    } else if d == 3 {
        proof { reveal_strlit("3"); }
        "3"
    } else if d == 4 {
        proof { reveal_strlit("4"); }
        "4"
    } else if d == 5 {
        proof { reveal_strlit("5"); }
        "5"
    } else if d == 6 {
        proof { reveal_strlit("6"); }
        "6"
    } else if d == 7 {
        proof { reveal_strlit("7"); }
        "7"
    } else if d == 8 {
        proof { reveal_strlit("8"); }
        "8"
    } else {
        proof { reveal_strlit("9"); }
        "9"
    }
}

/// Appends the decimal text of `n` to `s`.
fn append_decimal(s: &mut String, n: u16)
    ensures
        final(s)@ == old(s)@ + decimal(n as nat),
    decreases n,
{
    if n >= 10 {
        append_decimal(s, n / 10);
    }
    let d = digit_str(n % 10);
    s.append(d);
    proof {
        if n < 10 {
            assert(decimal(n as nat) == seq![digit_char(n as nat)]);
        } else {
            assert(decimal(n as nat) == decimal((n / 10) as nat) + seq![digit_char((n % 10) as nat)]);
        }
    }
}

impl RacEndpoint {
    /// The default Hacetime endpoint: `localhost:3018` over Racin.
    pub fn hacetime_default() -> (e: Self)
        ensures
            is_hacetime_default(e),
    {
        RacEndpoint { host: String::from_str("localhost"), port: 3018, protocol: RacProtocol::Racin }
    }

    /// The endpoint for a host whose primary transport is `primary_transport`:
    /// the Hacetime named pipe for a named-pipe host, the default endpoint otherwise.
    pub fn auto_detect(primary_transport: TransportKind) -> (e: Self)
        ensures
            endpoint_for_transport(primary_transport, e),
    {
        match primary_transport {
            TransportKind::WebSocket => {
                RacEndpoint {
                    host: String::from_str("localhost"),
                    port: 3018,
                    protocol: RacProtocol::Racin,
                }
            },
            TransportKind::NamedPipe => {
                RacEndpoint {
                    host: String::from_str("\\\\.\\pipe\\hace-hacetime"),
                    port: 0,
                    protocol: RacProtocol::Raci,
                }
            },
            _ => Self::hacetime_default(),
        }
    }

    /// The WebSocket URL of this endpoint: `ws://<host>:<port>/uni`.
    pub fn websocket_url(&self) -> (url: String)
        ensures
            url@ == websocket_url_text(self.host@, self.port),
    {
        let mut url = String::from_str("ws://");
        url.append(self.host.as_str());
        url.append(":");
        append_decimal(&mut url, self.port);
        url.append("/uni");
        url
    }
}

/// The number that a string of decimal digits denotes, most significant
/// digit first.
pub open spec fn numeral_value(s: Seq<char>) -> int
    decreases s.len(),
{
    if s.len() == 0 {
        0
    } else {
        numeral_value(s.drop_last()) * 10 + (s.last() as int - 48)
    }
}

/// The digit `d` is written as the character whose code is `'0'` plus `d`.
pub proof fn lemma_digit_char_code(d: nat)
    requires
        d < 10,
    ensures
        digit_char(d) as int == 48 + d,
{
}

/// The decimal text of `n` is its standard base-ten numeral: it is not
/// empty, it holds only the digits `0` to `9`, it starts with `0` only when it
/// is `0` itself, and read back as a base-ten number it gives `n`.
pub proof fn lemma_decimal_is_base_ten(n: nat)
    ensures
        decimal(n).len() > 0,
        forall|i: int| 0 <= i < decimal(n).len() ==> 48 <= #[trigger] (decimal(n)[i] as int) <= 57,
        n > 0 ==> decimal(n)[0] != '0',
        numeral_value(decimal(n)) == n,
    decreases n,
{
    if n < 10 {
        lemma_digit_char_code(n);
        assert(decimal(n).drop_last() =~= Seq::<char>::empty());
        assert(numeral_value(Seq::<char>::empty()) == 0);
        assert(numeral_value(decimal(n)) == numeral_value(decimal(n).drop_last()) * 10 + (
        decimal(n).last() as int - 48));
    } else {
        let q = n / 10;
        let d = n % 10;
        lemma_decimal_is_base_ten(q);
        lemma_digit_char_code(d);
        let s = decimal(n);
        assert(s == decimal(q) + seq![digit_char(d)]);
        assert(s.drop_last() =~= decimal(q));
        assert(s.last() == digit_char(d));
        assert forall|i: int| 0 <= i < s.len() implies 48 <= #[trigger] (s[i] as int) <= 57 by {
            if i < decimal(q).len() {
                assert(s[i] == decimal(q)[i]);
            }
        }
        assert(s[0] == decimal(q)[0]);
        assert(numeral_value(s) == numeral_value(s.drop_last()) * 10 + (s.last() as int - 48));
        assert(numeral_value(s) == q * 10 + d);
        assert(n == q * 10 + d);
    }
}

/// The port of a WebSocket URL is written as its base-ten numeral between
/// `ws://<host>:` and `/uni`.
pub proof fn lemma_websocket_url_port(host: Seq<char>, port: u16)
    ensures
        exists|digits: Seq<char>|
            {
                &&& websocket_url_text(host, port) == "ws://"@ + host + ":"@ + digits + "/uni"@
                &&& digits.len() > 0
                &&& forall|i: int| 0 <= i < digits.len() ==> 48 <= #[trigger] (digits[i] as int) <= 57
                &&& numeral_value(digits) == port
            },
{
    lemma_decimal_is_base_ten(port as nat);
    let digits = decimal(port as nat);
    assert(websocket_url_text(host, port) == "ws://"@ + host + ":"@ + digits + "/uni"@);
}

/// A host on a WebSocket transport, or on none that is named, gets the same
/// endpoint as `hacetime_default`; only a named-pipe host gets another.
pub proof fn lemma_auto_detect_falls_back_to_default(t: TransportKind, e: RacEndpoint)
    requires
        endpoint_for_transport(t, e),
        t != TransportKind::NamedPipe,
    ensures
        is_hacetime_default(e),
{
}

} // verus!
