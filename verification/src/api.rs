//! Response translation: a venue response descriptor (a numeric code and a
//! fixed-width encoded message) becomes a uniform typed result, and the
//! venue's numeric disconnect codes become a closed enumeration of reasons.
//! Every synchronous call result and every asynchronous notification passes
//! through this translation uniformly.

use vstd::prelude::*;
use vstd::string::StringExecFns;
use vstd::slice::slice_index_get;
use crate::codec::{decode, gb_decode_of, nul_prefix, DecodeError};

verus! {

/// The known causes of a venue-side disconnection, plus a catch-all for any
/// unrecognized code.
#[derive(Clone, Copy, Debug, PartialEq, Eq, Structural)]
pub enum DisconnectionReason {
    ReadError,
    WriteError,
    HeartbeatTimeout,
    HeartbeatSendError,
    ErrorMessageReceived,
    Unknown,
}

/// The venue's numeric disconnect codes, as its deployments send them.
pub open spec fn reason_of_code(code: i32) -> DisconnectionReason {
    if code == 0x1001 {
        DisconnectionReason::ReadError
    } else if code == 0x1002 {
        DisconnectionReason::WriteError
    } else if code == 0x2001 {
        DisconnectionReason::HeartbeatTimeout
    } else if code == 0x2002 {
        DisconnectionReason::HeartbeatSendError
    } else if code == 0x2003 {
        DisconnectionReason::ErrorMessageReceived
    } else {
        DisconnectionReason::Unknown
    }
}

impl core::convert::From<i32> for DisconnectionReason {
    fn from(reason: i32) -> (r: DisconnectionReason) {
        match reason {
            0x1001 => DisconnectionReason::ReadError,
            0x1002 => DisconnectionReason::WriteError,
            0x2001 => DisconnectionReason::HeartbeatTimeout,
            0x2002 => DisconnectionReason::HeartbeatSendError,
            0x2003 => DisconnectionReason::ErrorMessageReceived,
            _ => DisconnectionReason::Unknown,
        }
    }
}

impl vstd::std_specs::convert::FromSpecImpl<i32> for DisconnectionReason {
    open spec fn obeys_from_spec() -> bool {
        true
    }

    open spec fn from_spec(reason: i32) -> DisconnectionReason {
        reason_of_code(reason)
    }
}

/// A gateway error: the venue's non-zero response code and its decoded
/// message. Code `0` is the success sentinel and is never materialized as
/// an error.
#[derive(Clone, Debug)]
pub struct RspError {
    pub id: i32,
    pub msg: String,
}

impl PartialEq for RspError {
    fn eq(&self, other: &RspError) -> (r: bool) {
        self.id == other.id && self.msg == other.msg
    }
}

impl vstd::std_specs::cmp::PartialEqSpecImpl for RspError {
    open spec fn obeys_eq_spec() -> bool {
        true
    }

    open spec fn eq_spec(&self, other: &RspError) -> bool {
        self.id == other.id && self.msg@ == other.msg@
    }
}

impl RspError {
    /// The error as text: the code, one space, the message.
    pub fn to_text(&self) -> (r: String)
        ensures
            r@ == int_chars(self.id as int) + " "@ + self.msg@,
    {
        let mut s = String::new();
        push_i32(self.id, &mut s);
        s.append(" ");
        s.append(self.msg.as_str());
        proof {
            assert(s@ =~= int_chars(self.id as int) + " "@ + self.msg@);
        }
        s
    }
}

/// The uniform outcome of a venue call or notification.
#[must_use]
pub type RspResult = Result<(), RspError>;

/// A venue response descriptor: a status code and a fixed-width,
/// legacy-encoded message buffer.
pub struct RspInfo {
    pub error_id: i32,
    pub error_msg: Vec<u8>,
}

/// The placeholder that stands in for a venue message whose bytes do not
/// decode: a malformed message must not mask the error it accompanies.
pub open spec fn decode_failure_note() -> Seq<char> {
    "<undecodable venue message>"@
}

/// The message text carried by a translated error: the decoded buffer
/// content, or the decode-failure placeholder where the bytes are invalid.
pub open spec fn translated_message(bytes: Seq<u8>) -> Seq<char> {
    match gb_decode_of(nul_prefix(bytes)) {
        Some(text) => text,
        None => decode_failure_note(),
    }
}

/// Translates a venue response descriptor into a uniform result. An absent
/// descriptor and a zero code are success; a non-zero code is an error that
/// carries the code and the decoded message.
pub fn info_to_result(rsp_info: Option<&RspInfo>) -> (r: RspResult)
    ensures
        r matches Err(e) ==> e.id != 0,
        rsp_info is None ==> r is Ok,
        rsp_info matches Some(info) ==> (if info.error_id == 0 {
            r is Ok
        } else {
            r matches Err(e) && e.id == info.error_id && e.msg@ == translated_message(
                info.error_msg@,
            )
        }),
{
    match rsp_info {
        None => Ok(()),
        Some(info) => {
            if info.error_id == 0 {
                Ok(())
            } else {
                let msg: String = match decode(info.error_msg.as_slice()) {
                    Ok(text) => text,
                    Err(_) => String::from_str("<undecodable venue message>"),
                };
                Err(RspError { id: info.error_id, msg })
            }
        },
    }
}

/// The decimal digit characters of a non-negative integer, most significant
/// first.
pub open spec fn dec_digits(n: int) -> Seq<char>
    decreases n,
{
    if n < 10 {
        seq![dec_digit_char(n)]
    } else {
        dec_digits(n / 10).push(dec_digit_char(n % 10))
    }
}

/// The character for one decimal digit.
pub open spec fn dec_digit_char(d: int) -> char {
    if d == 0 {
        '0'
    } else if d == 1 {
        '1'
    } else if d == 2 {
        '2'
    } else if d == 3 {
        '3'
    } else if d == 4 {
        '4'
    } else if d == 5 {
        '5'
    } else if d == 6 {
        '6'
    } else if d == 7 {
        '7'
    } else if d == 8 {
        '8'
    } else {
        '9'
    }
}

/// The decimal rendering of an integer, with a leading minus sign where it
/// is negative.
pub open spec fn int_chars(x: int) -> Seq<char> {
    if x < 0 {
        seq!['-'] + dec_digits(-x)
    } else {
        dec_digits(x)
    }
}

/// The exact text that `result_to_string` renders for a result.
pub open spec fn rsp_result_chars(r: RspResult) -> Seq<char> {
    match r {
        Ok(u) => "Ok(())"@,
        Err(e) => "Err(RspError{ id: "@ + int_chars(e.id as int) + ", msg: "@ + e.msg@
            + " })"@,
    }
}

/// One decimal digit as text.
fn digit_str(d: u32) -> (s: &'static str)
    requires
        d < 10,
    ensures
        s@ == seq![dec_digit_char(d as int)],
{
    if d == 0 {
        proof {
            reveal_strlit("0");
            assert("0"@ =~= seq!['0']);
        }
        "0"
    } else if d == 1 {
        proof {
            reveal_strlit("1");
            assert("1"@ =~= seq!['1']);
        }
        "1"
    } else if d == 2 {
        proof {
            reveal_strlit("2");
            assert("2"@ =~= seq!['2']);
        }
        "2"
    } else if d == 3 {
        proof {
            reveal_strlit("3");
            assert("3"@ =~= seq!['3']);
        }
        "3"
    } else if d == 4 {
        proof {
            reveal_strlit("4");
            assert("4"@ =~= seq!['4']);
        }
        "4"
    } else if d == 5 {
        proof {
            reveal_strlit("5");
            assert("5"@ =~= seq!['5']);
        }
        "5"
    } else if d == 6 {
        proof {
            reveal_strlit("6");
            assert("6"@ =~= seq!['6']);
        }
        "6"
    } else if d == 7 {
        proof {
            reveal_strlit("7");
            assert("7"@ =~= seq!['7']);
        }
        "7"
    } else if d == 8 {
        proof {
            reveal_strlit("8");
            assert("8"@ =~= seq!['8']);
        }
        "8"
    } else {
        proof {
            reveal_strlit("9");
            assert("9"@ =~= seq!['9']);
        }
        "9"
    }
}

/// Appends the decimal digits of `n` to `out`.
fn push_digits(n: u32, out: &mut String)
    ensures
        final(out)@ == old(out)@ + dec_digits(n as int),
    decreases n,
{
    if n >= 10 {
        push_digits(n / 10, out);
    }
    let d = digit_str(n % 10);
    out.append(d);
    proof {
        if n >= 10 {
            assert(old(out)@ + dec_digits(n as int) =~= (old(out)@ + dec_digits(
                n as int / 10,
            )) + seq![dec_digit_char(n as int % 10)]);
        } else {
            assert(old(out)@ + dec_digits(n as int) =~= old(out)@ + seq![
                dec_digit_char(n as int),
            ]);
        }
    }
}

/// Appends the signed decimal rendering of `x` to `out`.
fn push_i32(x: i32, out: &mut String)
    ensures
        final(out)@ == old(out)@ + int_chars(x as int),
{
    if x < 0 {
        out.append("-");
        proof {
            reveal_strlit("-");
            assert("-"@ =~= seq!['-']);
        }
        let ghost mid = out@;
        let neg64: i64 = -(x as i64);
        let mag: u32 = neg64 as u32;
        push_digits(mag, out);
        proof {
            assert(old(out)@ + int_chars(x as int) =~= (old(out)@ + seq!['-']) + dec_digits(
                -(x as int),
            ));
        }
    } else {
        push_digits(x as u32, out);
    }
}

/// Renders a translated result as text, exactly as `rsp_result_chars`
/// states it.
pub fn result_to_string(rsp_result: &RspResult) -> (r: String)
    ensures
        r@ == rsp_result_chars(*rsp_result),
{
    match rsp_result {
        Ok(()) => String::from_str("Ok(())"),
        Err(err) => {
            let mut s = String::from_str("Err(RspError{ id: ");
            push_i32(err.id, &mut s);
            s.append(", msg: ");
            s.append(err.msg.as_str());
            s.append(" })");
            proof {
                assert(s@ =~= rsp_result_chars(*rsp_result));
            }
            s
        },
    }
}

/// The bytes of a C-style signed-byte buffer, reinterpreted as unsigned.
pub open spec fn unsigned_bytes(v: Seq<i8>) -> Seq<u8> {
    Seq::new(v.len(), |i: int| v[i] as u8)
}

/// Converts a C-style signed-byte buffer, as the venue's bindings deliver
/// text, into validated text: the bytes before the first NUL are decoded
/// under the legacy encoding.
pub fn covert_cstr_to_str(v: &[i8]) -> (r: Result<String, DecodeError>)
    ensures
        r is Ok <==> gb_decode_of(nul_prefix(unsigned_bytes(v@))) is Some,
        r matches Ok(s) ==> gb_decode_of(nul_prefix(unsigned_bytes(v@))) == Some(s@),
        r is Err ==> r == Result::<String, DecodeError>::Err(DecodeError::InvalidSequence),
{
    let n: usize = v.len();
    let mut bytes: Vec<u8> = Vec::new();
    let mut i: usize = 0;
    while i < n
        invariant
            i <= n,
            n == v@.len(),
            bytes@.len() == i,
            forall|j: int| 0 <= j < i ==> bytes@[j] == v@[j] as u8,
        decreases n - i,
    {
        let b: i8 = *slice_index_get(v, i);
        bytes.push(b as u8);
        i = i + 1;
    }
    proof {
        assert(bytes@ =~= unsigned_bytes(v@));
    }
    decode(bytes.as_slice())
}

} // verus!
