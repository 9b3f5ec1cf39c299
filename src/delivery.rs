use vstd::prelude::*;
use crate::event::Response;

verus! {

/// Whether an HTTP status code reports success (the 2xx range).
pub open spec fn is_success_status(code: u16) -> bool {
    200 <= code && code < 300
}

/// The decimal digits, in order of value.
pub open spec fn digits() -> Seq<char> {
    "0123456789"@
}

/// The decimal notation of `n`, most significant digit first.
pub open spec fn decimal(n: nat) -> Seq<char>
    decreases n,
{
    if n < 10 {
        seq![digits()[n as int]]
    } else {
        decimal(n / 10).push(digits()[(n % 10) as int])
    }
}

/// The message of a successful delivery.
pub open spec fn sent_message() -> Seq<char> {
    "Message sent"@
}

/// The error of a delivery that the webhook answered with `code`.
pub open spec fn failure_message(code: u16) -> Seq<char> {
    "Failed to send message. status code:"@ + decimal(code as nat)
}

/// The digit of value `d` as text.
fn digit_str(d: u16) -> (r: &'static str)
    requires
        d < 10,
    ensures
        r@ == seq![digits()[d as int]],
{
    proof {
        reveal_strlit("0123456789");
        reveal_strlit("0");
        reveal_strlit("1");
        reveal_strlit("2");
        reveal_strlit("3");
        reveal_strlit("4");
        reveal_strlit("5");
        reveal_strlit("6");
        reveal_strlit("7");
        reveal_strlit("8");
        reveal_strlit("9");
    }
    match d {
        0 => "0",
        1 => "1",
        2 => "2",
        3 => "3",
        4 => "4",
        5 => "5",
        6 => "6",
        7 => "7",
        8 => "8",
        _ => "9",
    }
}

/// The decimal notation of `n`.
pub fn decimal_string(n: u16) -> (r: String)
    ensures
        r@ == decimal(n as nat),
    decreases n,
{
    if n < 10 {
        let mut s = String::new();
        s.append(digit_str(n));
        proof {
            assert(s@ =~= decimal(n as nat));
        }
        s
    } else {
        let mut s = decimal_string(n / 10);
        s.append(digit_str(n % 10));
        proof {
            assert(s@ =~= decimal(n as nat));
        }
        s
    }
}

/// What an invocation reports once the webhook answered with `status`:
/// a response that carries the request identifier on success, the status
/// code in an error message otherwise.
pub fn delivery_outcome(req_id: String, status: u16) -> (r: Result<Response, String>)
    ensures
        r is Ok <==> is_success_status(status),
        r matches Ok(resp) ==> resp.req_id == req_id && resp.message@ == sent_message(),
        r matches Err(msg) ==> msg@ == failure_message(status),
{
    if 200 <= status && status < 300 {
        let mut message = String::new();
        message.append("Message sent");
        Ok(Response { req_id, message })
    } else {
        let mut message = String::new();
        message.append("Failed to send message. status code:");
        let code = decimal_string(status);
        message.append(code.as_str());
        Err(message)
    }
}

} // verus!
