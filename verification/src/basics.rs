//! Small self-contained helpers on integers, strings, options, and a tagged
//! message type.

use vstd::prelude::*;
use vstd::string::StringExecFns;
use vstd::string::StringSliceAdditionalSpecFns;
use crate::digits::{i32_to_string, spec_i32_digits};

verus! {

/// Largest magnitude whose square still fits an `i32`.
pub const SQUARE_INPUT_BOUND: i32 = 46340;

/// The square of `x`.
pub fn square(x: i32) -> (r: i32)
    requires
        -SQUARE_INPUT_BOUND <= x <= SQUARE_INPUT_BOUND,
    ensures
        r == x * x,
{
    proof {
        assert(x * x <= SQUARE_INPUT_BOUND * SQUARE_INPUT_BOUND) by (nonlinear_arith)
            requires
                -SQUARE_INPUT_BOUND <= x <= SQUARE_INPUT_BOUND,
        ;
        assert(x * x >= 0) by (nonlinear_arith);
    }
    x * x
}

/// The sum of `a` and `b`.
pub fn add(a: i32, b: i32) -> (r: i32)
    requires
        i32::MIN <= a + b <= i32::MAX,
    ensures
        r == a + b,
{
    return a + b;
}

/// The length of `s` in bytes; on ASCII text this equals the character
/// count.
pub fn calculate_length(s: &String) -> (r: usize)
    ensures
        vstd::string::string_is_ascii(s) ==> r == s@.len() as usize,
{
    broadcast use vstd::string::is_ascii_spec_bytes;

    let text = s.as_str();
    proof {
        if vstd::string::string_is_ascii(s) {
            assert(vstd::string::is_ascii(text));
            assert(text.spec_bytes().len() == text@.len());
        }
    }
    text.len()
}

/// A type that carries no data at all.
pub struct AlwaysEqual;

/// Build a value of the data-free type.
pub fn unit_struct() {
    let subject = AlwaysEqual;
}

/// A tagged message: either nothing, a movement, a text, or a colour.
pub enum Message {
    Quit,
    Move { x: i32, y: i32 },
    Write(String),
    ChangeColor(i32, i32, i32),
}

impl Message {
    /// The line of text describing this message.
    pub open spec fn spec_text(self) -> Seq<char> {
        match self {
            Message::Quit => "Quit message"@,
            Message::Move { x, y } => "Move to coordinates: "@ + spec_i32_digits(x as int) + ", "@
                + spec_i32_digits(y as int),
            Message::Write(text) => "Write message: "@ + text@,
            Message::ChangeColor(r, g, b) => "Change color to RGB: "@ + spec_i32_digits(r as int)
                + ", "@ + spec_i32_digits(g as int) + ", "@ + spec_i32_digits(b as int),
        }
    }

    /// Describe this message in one line of text.
    pub fn text(&self) -> (t: String)
        ensures
            t@ == self.spec_text(),
    {
        match self {
            Message::Quit => String::from_str("Quit message"),
            Message::Move { x, y } => {
                let xd = i32_to_string(*x);
                let yd = i32_to_string(*y);
                String::from_str("Move to coordinates: ").concat(xd.as_str()).concat(
                    ", ",
                ).concat(yd.as_str())
            },
            Message::Write(text) => String::from_str("Write message: ").concat(text.as_str()),
            Message::ChangeColor(r, g, b) => {
                let rd = i32_to_string(*r);
                let gd = i32_to_string(*g);
                let bd = i32_to_string(*b);
                String::from_str("Change color to RGB: ").concat(rd.as_str()).concat(", ").concat(
                    gd.as_str(),
                ).concat(", ").concat(bd.as_str())
            },
        }
    }
}

/// Build one message of each kind and describe the written one.
pub fn enum_function() -> (t: String)
    ensures
        t@ == "Write message: "@ + "Hello"@,
{
    let msg1 = Message::Quit;
    let msg2 = Message::Move { x: 10, y: 20 };
    let msg3 = Message::Write(String::from_str("Hello"));
    let msg4 = Message::ChangeColor(255, 255, 0);
    msg3.text()
}

/// Ten more than the value, when there is one.
pub fn get_value(maybe_value: Option<i32>) -> (r: Option<i32>)
    requires
        maybe_value matches Some(v) ==> v + 10 <= i32::MAX,
    ensures
        r == (match maybe_value {
            Some(v) => Some((v + 10) as i32),
            None => None,
        }),
{
    match maybe_value {
        Some(value) => Some(value + 10),
        None => None,
    }
}

} // verus!
