//! The role a node plays on the relay circuit, parsed from the command line.
use vstd::prelude::*;
use vstd::string::*;

verus! {

/// How the node joins the relayed circuit.
#[derive(Clone, Copy, Debug, PartialEq, Eq, Structural)]
pub enum Mode {
    /// Dial the remote peer through the relay.
    Dial,
    /// Listen on the relay for a remote peer.
    Listen,
}

/// The message given back for a role that is neither `dial` nor `listen`.
pub open spec fn mode_error_message() -> Seq<char> {
    seq!['E', 'x', 'p', 'e', 'c', 't', 'e', 'd', ' ', 'e', 'i', 't', 'h', 'e', 'r', ' ',
        '\'', 'd', 'i', 'a', 'l', '\'', ' ', 'o', 'r', ' ', '\'', 'l', 'i', 's', 't', 'e', 'n', '\'']
}

/// The text `dial`.
pub open spec fn dial_text() -> Seq<char> {
    seq!['d', 'i', 'a', 'l']
}

/// The text `listen`.
pub open spec fn listen_text() -> Seq<char> {
    seq!['l', 'i', 's', 't', 'e', 'n']
}

/// What parsing `text` as a role gives.
pub open spec fn parse_mode(text: Seq<char>) -> Result<Mode, Seq<char>> {
    if text == dial_text() {
        Ok(Mode::Dial)
    } else if text == listen_text() {
        Ok(Mode::Listen)
    } else {
        Err(mode_error_message())
    }
}

/// Whether two strings hold the same characters.
fn str_eq(a: &str, b: &str) -> (same: bool)
    ensures
        same == (a@ == b@),
{
    let n = a.unicode_len();
    let m = b.unicode_len();
    if n != m {
        return false;
    }
    let mut i: usize = 0;
    while i < n
        invariant
            n == a@.len(),
            m == b@.len(),
            n == m,
            i <= n,
            forall|j: int| 0 <= j < i ==> a@[j] == b@[j],
        decreases n - i,
    {
        if a.get_char(i) != b.get_char(i) {
            return false;
        }
        i = i + 1;
    }
    assert(a@ =~= b@);
    true
}

impl Mode {
    /// Parses `dial` or `listen`; any other text is refused with a message.
    pub fn from_str(mode: &str) -> (parsed: Result<Mode, String>)
        ensures
            match (parsed, parse_mode(mode@)) {
                (Ok(m), Ok(expected)) => m == expected,
                (Err(e), Err(expected)) => e@ == expected,
                _ => false,
            },
    {
        let dial = "dial";
        let listen = "listen";
        proof {
            reveal_strlit("dial");
            reveal_strlit("listen");
        }
        if str_eq(mode, dial) {
            assert(dial@ =~= dial_text());
            Ok(Mode::Dial)
        } else if str_eq(mode, listen) {
            assert(listen@ =~= listen_text());
            Ok(Mode::Listen)
        } else {
            assert(dial@ =~= dial_text());
            assert(listen@ =~= listen_text());
            let message = "Expected either 'dial' or 'listen'";
            proof {
                reveal_strlit("Expected either 'dial' or 'listen'");
            }
            assert(message@ =~= mode_error_message());
            Err(String::from_str(message))
        }
    }
}

impl core::str::FromStr for Mode {
    type Err = String;

    fn from_str(mode: &str) -> (parsed: Result<Mode, String>)
        ensures
            match (parsed, parse_mode(mode@)) {
                (Ok(m), Ok(expected)) => m == expected,
                (Err(e), Err(expected)) => e@ == expected,
                _ => false,
            },
    {
        Mode::from_str(mode)
    }
}

} // verus!
