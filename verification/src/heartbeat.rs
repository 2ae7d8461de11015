//! The heartbeat protocol handler: a text frame starting with `PING ` is
//! answered with `PONG <epoch-millis>`; any other text is ignored.

use crate::text::{dec_digits, dec_val, is_digit_char, lemma_dec_digits_value};
use vstd::prelude::*;

verus! {

/// A heartbeat command: the text starts with the literal prefix `PING `
/// (case-sensitive; the suffix is arbitrary and ignored).
pub open spec fn spec_is_ping_cmd(s: Seq<char>) -> bool {
    s.len() >= 5 && s.subrange(0, 5) == "PING "@
}

/// The reply to a heartbeat command at a given time.
pub open spec fn spec_pong(now_ms: u128) -> Seq<char> {
    "PONG "@ + dec_digits(now_ms as int)
}

/// Every heartbeat reply is `PONG ` followed by one or more decimal digits,
/// and the digits read back as exactly the millisecond value the reply was
/// made from. So across successive replies of one session the number is
/// non-decreasing whenever the clock reads were; the clock itself is outside
/// any promise.
pub proof fn lemma_pong_shape(now_ms: u128)
    ensures
        spec_pong(now_ms).len() >= 6,
        spec_pong(now_ms).subrange(0, 5) == "PONG "@,
        forall|k: int|
            5 <= k < spec_pong(now_ms).len() ==> is_digit_char(spec_pong(now_ms)[k]),
        dec_val(spec_pong(now_ms).subrange(5, spec_pong(now_ms).len() as int)) == now_ms,
{
    reveal_strlit("PONG ");
    lemma_dec_digits_value(now_ms as int);
    let p = spec_pong(now_ms);
    let d = dec_digits(now_ms as int);
    assert(p.subrange(0, 5) =~= "PONG "@);
    assert(p.subrange(5, p.len() as int) =~= d);
}

fn starts_with_ping(text: &str) -> (r: bool)
    ensures
        r == spec_is_ping_cmd(text@),
{
    proof {
        reveal_strlit("PING ");
    }
    let n = text.unicode_len();
    if n < 5 {
        return false;
    }
    let r = text.get_char(0) == 'P' && text.get_char(1) == 'I' && text.get_char(2) == 'N'
        && text.get_char(3) == 'G' && text.get_char(4) == ' ';
    proof {
        let t = text@.subrange(0, 5);
        if r {
            assert(t =~= "PING "@);
        } else {
            if t == "PING "@ {
                assert(text@[0] == t[0] && text@[1] == t[1] && text@[2] == t[2] && text@[3] == t[3]
                    && text@[4] == t[4]);
            }
        }
    }
    r
}

/// Handle one heartbeat text frame: a `PING ` command is answered with
/// `PONG <now_ms>`, anything else with silence.
pub fn heartbeat_reply(text: &str, now_ms: u128) -> (r: Option<String>)
    ensures
        match r {
            Some(p) => spec_is_ping_cmd(text@) && p@ == spec_pong(now_ms),
            None => !spec_is_ping_cmd(text@),
        },
{
    if !starts_with_ping(text) {
        return None;
    }
    let mut s = String::from_str("PONG ");
    let d = crate::text::u128_to_dec(now_ms);
    s.append(d.as_str());
    Some(s)
}

/// Relies on `std::time::SystemTime::now` read against `UNIX_EPOCH`. The
/// clock is environment state, so nothing is promised of the value: two
/// successive reads may even go backwards.
#[verifier::external_body]
fn clock_epoch_millis() -> u128 {
    match std::time::SystemTime::now().duration_since(std::time::UNIX_EPOCH) {
        Ok(d) => d.as_millis(),
        Err(_) => 0,
    }
}

/// Milliseconds since the Unix epoch, read from the system clock.
pub fn timestamp_ms() -> u128 {
    clock_epoch_millis()
}

} // verus!
