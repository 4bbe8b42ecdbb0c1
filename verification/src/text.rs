//! Text that the client hands out: decimal numbers, failure details and the
//! small structured replies of the group operations.
use vstd::prelude::*;
use vstd::utf8::{decode_utf8, valid_utf8};
use crate::codec::{hex_text, wire_text};

verus! {

/// The character of a decimal digit.
pub open spec fn digit_char(d: int) -> char {
    if d == 0 {
        '0'
    } else if d == 1 {
        '1'
    } else if d == 2 {
        '2'
    } else if d == 3 {
        '3'
    } else if d == 4 {
        '4'
    } else if d == 5 {
        '5'
    } else if d == 6 {
        '6'
    } else if d == 7 {
        '7'
    } else if d == 8 {
        '8'
    } else {
        '9'
    }
}

/// A number in decimal, most significant digit first, without leading zeros.
pub open spec fn decimal_text(n: nat) -> Seq<char>
    decreases n,
{
    if n < 10 {
        seq![digit_char(n as int)]
    } else {
        decimal_text(n / 10).push(digit_char((n % 10) as int))
    }
}

/// A failure detail: what was attempted, a colon and a space, what went wrong.
pub open spec fn detail_text(context: Seq<char>, fault: Seq<char>) -> Seq<char> {
    context + ": "@ + fault
}

/// The reply of a group information request.
pub open spec fn group_info_text(group_id: Seq<char>, epoch: nat, members: nat) -> Seq<char> {
    "{\"group_id\":\""@ + group_id + "\",\"epoch\":"@ + decimal_text(epoch)
        + ",\"member_count\":"@ + decimal_text(members) + "}"@
}

/// The reply of a membership change: the commit for the members there are and
/// the welcome for the member that joins, both as wire text.
pub open spec fn commit_reply_text(commit: Seq<u8>, welcome: Seq<u8>) -> Seq<char> {
    "{\"commit\":\""@ + hex_text(commit) + "\",\"welcome\":\""@ + hex_text(welcome) + "\"}"@
}

fn digit_str(d: u64) -> (s: &'static str)
    requires
        d < 10,
    ensures
        s@ == seq![digit_char(d as int)],
{
    proof {
        reveal_strlit("0");
        reveal_strlit("1");
        reveal_strlit("2");
        reveal_strlit("3");
        reveal_strlit("4");
        reveal_strlit("5");
        reveal_strlit("6");
        reveal_strlit("7");
        reveal_strlit("8");
        reveal_strlit("9");
    }
    let s: &'static str = if d == 0 {
        "0"
    } else if d == 1 {
        "1"
    } else if d == 2 {
        "2"
    } else if d == 3 {
        "3"
    } else if d == 4 {
        "4"
    } else if d == 5 {
        "5"
    } else if d == 6 {
        "6"
    } else if d == 7 {
        "7"
    } else if d == 8 {
        "8"
    } else {
        "9"
    };
    assert(s@ =~= seq![digit_char(d as int)]);
    s
}

/// Writes a number in decimal.
pub fn render_decimal(n: u64) -> (text: String)
    ensures
        text@ == decimal_text(n as nat),
    decreases n,
{
    if n < 10 {
        String::from_str(digit_str(n))
    } else {
        let mut text = render_decimal(n / 10);
        text.append(digit_str(n % 10));
        assert(text@ =~= decimal_text(n as nat));
        text
    }
}

/// Joins what was attempted and what went wrong into one failure detail.
pub fn describe(context: &str, fault: &str) -> (text: String)
    ensures
        text@ == detail_text(context@, fault@),
{
    let mut text = String::from_str(context);
    text.append(": ");
    text.append(fault);
    text
}

/// The words with which `String::from_utf8` refuses the given bytes: the
/// debug rendering of its error. It is a function of the bytes alone; which
/// words they are is not stated here.
pub uninterp spec fn utf8_fault(bytes: Seq<u8>) -> Seq<char>;

/// Calls `String::from_utf8`. Believed of it, as its documentation says: it
/// succeeds exactly on bytes that are valid UTF-8, and the text then holds
/// those bytes. A failure comes back as the debug rendering of std's error,
/// which the bytes alone decide.
#[verifier::external_body]
pub(crate) fn text_from_utf8(bytes: Vec<u8>) -> (r: Result<String, String>)
    ensures
        r is Ok <==> valid_utf8(bytes@),
        r matches Ok(text) ==> text@ == decode_utf8(bytes@),
        r matches Err(fault) ==> fault@ == utf8_fault(bytes@),
{
    match String::from_utf8(bytes) {
        Ok(text) => Ok(text),
        Err(e) => Err(format!("{:?}", e)),
    }
}

/// Writes the reply of a membership change.
pub fn render_commit_reply(commit: &[u8], welcome: &[u8]) -> (text: String)
    ensures
        text@ == commit_reply_text(commit@, welcome@),
{
    let mut text = String::from_str("{\"commit\":\"");
    text.append(wire_text(commit).as_str());
    text.append("\",\"welcome\":\"");
    text.append(wire_text(welcome).as_str());
    text.append("\"}");
    text
}

/// Writes the reply of a group information request.
pub fn render_group_info(group_id: &str, epoch: u64, members: u64) -> (text: String)
    ensures
        text@ == group_info_text(group_id@, epoch as nat, members as nat),
{
    let mut text = String::from_str("{\"group_id\":\"");
    text.append(group_id);
    text.append("\",\"epoch\":");
    text.append(render_decimal(epoch).as_str());
    text.append(",\"member_count\":");
    text.append(render_decimal(members).as_str());
    text.append("}");
    text
}

} // verus!
