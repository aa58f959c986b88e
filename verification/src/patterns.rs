//! Pattern matching over a closed tagged union: exactly one branch of
//! the dispatch runs per value, selected by the variant tag.

use vstd::prelude::*;
use crate::decimal::int_rep;

verus! {

/// A closed three-variant union: a no-payload action, a labeled pair
/// of coordinates, and a text payload.
pub enum Message {
    Quit,
    Move { x: i32, y: i32 },
    Write(String),
}

/// The text that dispatching on a message must produce.
pub open spec fn message_text(m: Message) -> Seq<char> {
    match m {
        Message::Quit => "Quit"@,
        Message::Move { x, y } => "Move to ("@ + int_rep(x as int) + ", "@ + int_rep(y as int)
            + ")"@,
        Message::Write(t) => "Write '"@ + t@ + "'"@,
    }
}

/// Dispatches on the variant of `msg` and returns the text describing
/// the selected action.
pub fn process_message(msg: Message) -> (s: String)
    ensures
        s@ == message_text(msg),
{
    match msg {
        Message::Quit => String::from_str("Quit"),
        Message::Move { x, y } => {
            let mut s = String::from_str("Move to (");
            let xs = crate::decimal::i32_to_string(x);
            s.append(xs.as_str());
            s.append(", ");
            let ys = crate::decimal::i32_to_string(y);
            s.append(ys.as_str());
            s.append(")");
            proof {
                assert(s@ =~= message_text(msg));
            }
            s
        },
        Message::Write(t) => {
            let mut s = String::from_str("Write '");
            s.append(t.as_str());
            s.append("'");
            proof {
                assert(s@ =~= message_text(msg));
            }
            s
        },
    }
}

} // verus!
