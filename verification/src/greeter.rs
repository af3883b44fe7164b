//! The greeter service's reply logic.
//!
//! The binary-framed transport, its codec and the channel plumbing stay
//! with the server around this library; what stands here is the text each
//! call replies with — one greeting for a unary call, one indexed
//! greeting per received name for a streaming call.

use vstd::prelude::*;

verus! {

/// The character for a single decimal digit.
pub open spec fn dec_digit(d: nat) -> char {
    if d == 0 {
        '0'
    } else if d == 1 {
        '1'
    } else if d == 2 {
        '2'
    } else if d == 3 {
        '3'
    } else if d == 4 {
        '4'
    } else if d == 5 {
        '5'
    } else if d == 6 {
        '6'
    } else if d == 7 {
        '7'
    } else if d == 8 {
        '8'
    } else {
        '9'
    }
}

/// The decimal rendering of a number, most significant digit first.
pub open spec fn dec_of(n: nat) -> Seq<char>
    decreases n,
{
    if n < 10 {
        seq![dec_digit(n)]
    } else {
        dec_of(n / 10) + seq![dec_digit(n % 10)]
    }
}

/// The literal for a single decimal digit.
fn digit_str(d: u64) -> (r: &'static str)
    requires
        d < 10,
    ensures
        r@ == seq![dec_digit(d as nat)],
{
    proof {
        reveal_strlit("0");
        reveal_strlit("1");
        reveal_strlit("2");
        reveal_strlit("3");
        reveal_strlit("4");
        reveal_strlit("5");
        reveal_strlit("6");
        reveal_strlit("7");
        reveal_strlit("8");
        reveal_strlit("9");
    }
    if d == 0 {
        "0"
    } else if d == 1 {
        "1"
    } else if d == 2 {
        "2"
    } else if d == 3 {
        "3"
    } else if d == 4 {
        "4"
    } else if d == 5 {
        "5"
    } else if d == 6 {
        "6"
    } else if d == 7 {
        "7"
    } else if d == 8 {
        "8"
    } else {
        "9"
    }
}

/// Renders a number in decimal.
pub fn u64_to_string(n: u64) -> (r: String)
    ensures
        r@ == dec_of(n as nat),
    decreases n,
{
    if n < 10 {
        let mut s = String::new();
        s.append(digit_str(n));
        assert(s@ =~= dec_of(n as nat));
        s
    } else {
        let mut s = u64_to_string(n / 10);
        s.append(digit_str(n % 10));
        assert(s@ =~= dec_of(n as nat));
        s
    }
}

/// The greeter service: replies to unary and streaming hello calls.
#[derive(Debug)]
pub struct MyGreeter {}

impl Default for MyGreeter {
    /// A greeter carries no state.
    fn default() -> (r: Self)
        ensures
            r == (MyGreeter {  }),
    {
        MyGreeter {  }
    }
}

impl MyGreeter {
    /// The reply to a unary hello call.
    pub fn say_hello(&self, name: &String) -> (reply: String)
        ensures
            reply@ == "Hello "@ + name@ + "!"@,
    {
        let mut reply = String::from_str("Hello ");
        reply.append(name.as_str());
        reply.append("!");
        reply
    }

    /// The replies to a streaming hello call: one greeting per received
    /// name, each carrying the position at which its name arrived.
    pub fn stream_hello(&self, names: &Vec<String>) -> (replies: Vec<String>)
        ensures
            replies@.len() == names@.len(),
            forall|i: int|
                0 <= i < names@.len() ==> (#[trigger] replies@[i])@ == "Hello "@ + names@[i]@
                    + "! - "@ + dec_of(i as nat),
    {
        let mut replies: Vec<String> = Vec::new();
        let mut i: usize = 0;
        while i < names.len()
            invariant
                i <= names@.len(),
                replies@.len() == i,
                forall|j: int|
                    0 <= j < i ==> (#[trigger] replies@[j])@ == "Hello "@ + names@[j]@ + "! - "@
                        + dec_of(j as nat),
            decreases names@.len() - i,
        {
            let mut reply = String::from_str("Hello ");
            reply.append(names[i].as_str());
            reply.append("! - ");
            let index = u64_to_string(i as u64);
            reply.append(index.as_str());
            assert(reply@ =~= "Hello "@ + names@[i as int]@ + "! - "@ + dec_of(i as nat));
            replies.push(reply);
            i = i + 1;
        }
        replies
    }
}

} // verus!
