//! Messages and the lines that describe them.

use crate::decimal::{decimal, push_decimal};
use vstd::prelude::*;
use vstd::string::StringExecFns;

verus! {

/// A message to a window.
#[derive(Debug)]
pub enum Message {
    Quit,
    Move { x: i32, y: i32 },
    Write(String),
    ChangeColor(i32, i32, i32),
}

impl Message {
    /// The line that describes this message.
    pub open spec fn description(&self) -> Seq<char> {
        match self {
            Message::Quit => "Quit"@,
            Message::Move { x, y } => "Move with x as "@ + decimal(*x as int) + " and y as "@
                + decimal(*y as int),
            Message::Write(text) => "Write with "@ + text@,
            Message::ChangeColor(c1, c2, c3) => "Change Color with "@ + decimal(*c1 as int) + ", "@
                + decimal(*c2 as int) + ", "@ + decimal(*c3 as int),
        }
    }

    /// The line that describes this message.
    pub fn call(&self) -> (line: String)
        ensures
            line@ == self.description(),
    {
        match self {
            Message::Quit => "Quit".to_owned(),
            Message::Move { x, y } => {
                let mut line = "Move with x as ".to_owned();
                push_decimal(*x, &mut line);
                line.append(" and y as ");
                push_decimal(*y, &mut line);
                line
            },
            Message::Write(text) => {
                let mut line = "Write with ".to_owned();
                line.append(text.as_str());
                line
            },
            Message::ChangeColor(c1, c2, c3) => {
                let mut line = "Change Color with ".to_owned();
                push_decimal(*c1, &mut line);
                line.append(", ");
                push_decimal(*c2, &mut line);
                line.append(", ");
                push_decimal(*c3, &mut line);
                line
            },
        }
    }
}

} // verus!
