//! The session controller: one hidden target, and the cycle of reading,
//! validating, comparing and answering until the guess matches.

use crate::comparison::{compare, compare_spec, ComparisonResult};
use crate::decimal::{decimal, push_decimal};
use crate::parser::{parse, parse_spec, ParseFailure};
use crate::target::{draw_target, HIGH, LOW};
use vstd::prelude::*;

verus! {

/// Where a session stands.
#[derive(Debug, PartialEq, Eq)]
pub enum State {
    /// Waiting for the next line of text.
    AwaitingInput,
    /// A line has arrived and has not been read as a number yet.
    Validating(String),
    /// The line was a number, which has not been compared yet.
    Comparing(i32),
    /// The guess missed; the session is about to wait again.
    Continuing,
    /// The guess was the target. The session is over.
    Won,
}

/// The mathematical model of a [`State`].
pub enum Phase {
    AwaitingInput,
    Validating(Seq<char>),
    Comparing(int),
    Continuing,
    Won,
}

impl View for State {
    type V = Phase;

    open spec fn view(&self) -> Phase {
        match self {
            State::AwaitingInput => Phase::AwaitingInput,
            State::Validating(raw) => Phase::Validating(raw@),
            State::Comparing(guess) => Phase::Comparing(*guess as int),
            State::Continuing => Phase::Continuing,
            State::Won => Phase::Won,
        }
    }
}

/// What a session tells the player.
#[derive(Clone, Copy, Debug, PartialEq, Eq, Structural)]
pub enum Notice {
    /// The line was not a number.
    Invalid,
    /// The line was this number.
    Guessed(i32),
    /// The guess is below the target.
    TooSmall,
    /// The guess is above the target.
    TooBig,
    /// The guess is the target.
    Win,
}

impl Notice {
    /// The line of text that tells the player of this notice.
    pub open spec fn text(self) -> Seq<char> {
        match self {
            Notice::Invalid => "Invalid value is given. Guess again!"@,
            Notice::Guessed(guess) => "You guessed: "@ + decimal(guess as int),
            Notice::TooSmall => "Too small"@,
            Notice::TooBig => "Too big"@,
            Notice::Win => "You win!"@,
        }
    }

    /// The line of text that tells the player of this notice.
    pub fn message(&self) -> (message: String)
        ensures
            message@ == self.text(),
    {
        match self {
            Notice::Invalid => "Invalid value is given. Guess again!".to_owned(),
            Notice::Guessed(guess) => {
                let mut message = "You guessed: ".to_owned();
                push_decimal(*guess, &mut message);
                message
            },
            Notice::TooSmall => "Too small".to_owned(),
            Notice::TooBig => "Too big".to_owned(),
            Notice::Win => "You win!".to_owned(),
        }
    }
}

/// The line that opens a session.
pub fn intro() -> (line: String)
    ensures
        line@ == "Guess the number!"@,
{
    "Guess the number!".to_owned()
}

/// The line that asks for a guess.
pub fn prompt() -> (line: String)
    ensures
        line@ == "Please input your guess."@,
{
    "Please input your guess.".to_owned()
}

/// The state after a line of text arrives: a waiting session starts to
/// validate it, any other session ignores it.
pub open spec fn receive_spec(phase: Phase, raw: Seq<char>) -> Phase {
    match phase {
        Phase::AwaitingInput => Phase::Validating(raw),
        _ => phase,
    }
}

/// One transition that needs no input: the next state, and the notice that is
/// emitted on the way.
pub open spec fn advance_spec(target: int, phase: Phase) -> (Phase, Option<Notice>) {
    match phase {
        Phase::Validating(raw) => match parse_spec(raw) {
            Ok(guess) => (Phase::Comparing(guess as int), Some(Notice::Guessed(guess))),
            Err(_) => (Phase::AwaitingInput, Some(Notice::Invalid)),
        },
        Phase::Comparing(guess) => match compare_spec(guess, target) {
            ComparisonResult::Less => (Phase::Continuing, Some(Notice::TooSmall)),
            ComparisonResult::Greater => (Phase::Continuing, Some(Notice::TooBig)),
            ComparisonResult::Equal => (Phase::Won, Some(Notice::Win)),
        },
        Phase::Continuing => (Phase::AwaitingInput, None),
        Phase::AwaitingInput => (Phase::AwaitingInput, None),
        Phase::Won => (Phase::Won, None),
    }
}

/// A whole turn of a waiting session on the line `raw`: the state in which
/// the turn ends, and the notices in the order in which they are emitted.
pub open spec fn turn_spec(target: int, raw: Seq<char>) -> (Phase, Seq<Notice>) {
    match parse_spec(raw) {
        Err(_) => (Phase::AwaitingInput, seq![Notice::Invalid]),
        Ok(guess) => match compare_spec(guess as int, target) {
            ComparisonResult::Less => (
                Phase::AwaitingInput,
                seq![Notice::Guessed(guess), Notice::TooSmall],
            ),
            ComparisonResult::Greater => (
                Phase::AwaitingInput,
                seq![Notice::Guessed(guess), Notice::TooBig],
            ),
            ComparisonResult::Equal => (Phase::Won, seq![Notice::Guessed(guess), Notice::Win]),
        },
    }
}

/// The model of a [`Session`]: its target and where it stands.
pub struct SessionView {
    pub target: int,
    pub phase: Phase,
}

/// A guessing session. The target is fixed when the session is made.
#[derive(Debug)]
pub struct Session {
    target: i32,
    state: State,
}

impl View for Session {
    type V = SessionView;

    closed spec fn view(&self) -> SessionView {
        SessionView { target: self.target as int, phase: self.state@ }
    }
}

impl Session {
    /// A session with the given target, waiting for its first line.
    pub fn new(target: i32) -> (session: Session)
        ensures
            session@ == (SessionView { target: target as int, phase: Phase::AwaitingInput }),
    {
        Session { target, state: State::AwaitingInput }
    }

    /// A session with a freshly drawn target between `LOW` and `HIGH`,
    /// waiting for its first line.
    pub fn begin() -> (session: Session)
        ensures
            LOW <= session@.target <= HIGH,
            session@.phase == Phase::AwaitingInput,
    {
        Session::new(draw_target())
    }

    /// The target of this session.
    pub fn target(&self) -> (target: i32)
        ensures
            target == self@.target,
    {
        self.target
    }

    /// Where the session stands.
    pub fn state(&self) -> (state: &State)
        ensures
            state@ == self@.phase,
    {
        &self.state
    }

    /// Whether the session waits for a line of text.
    pub fn is_awaiting_input(&self) -> (waiting: bool)
        ensures
            waiting <==> self@.phase == Phase::AwaitingInput,
    {
        match self.state {
            State::AwaitingInput => true,
            _ => false,
        }
    }

    /// Whether the session is over.
    pub fn is_won(&self) -> (won: bool)
        ensures
            won <==> self@.phase == Phase::Won,
    {
        match self.state {
            State::Won => true,
            _ => false,
        }
    }

    /// Hands a line of text to the session. A waiting session takes it and
    /// starts to validate it; in any other state the line is ignored.
    /// Returns whether the line was taken.
    pub fn receive(&mut self, raw: &str) -> (taken: bool)
        ensures
            final(self)@.target == old(self)@.target,
            final(self)@.phase == receive_spec(old(self)@.phase, raw@),
            taken <==> old(self)@.phase == Phase::AwaitingInput,
    {
        match self.state {
            State::AwaitingInput => {
                self.state = State::Validating(raw.to_owned());
                true
            },
            _ => false,
        }
    }

    /// Makes one transition that needs no input, and returns the notice that
    /// it emits, if any. A session that waits for input or is over stays as
    /// it is.
    pub fn advance(&mut self) -> (notice: Option<Notice>)
        ensures
            final(self)@.target == old(self)@.target,
            final(self)@.phase == advance_spec(old(self)@.target, old(self)@.phase).0,
            notice == advance_spec(old(self)@.target, old(self)@.phase).1,
    {
        let (next, notice) = match &self.state {
            State::Validating(raw) => match parse(raw.as_str()) {
                Ok(guess) => (State::Comparing(guess), Some(Notice::Guessed(guess))),
                Err(_) => (State::AwaitingInput, Some(Notice::Invalid)),
            },
            State::Comparing(guess) => match compare(*guess, self.target) {
                ComparisonResult::Less => (State::Continuing, Some(Notice::TooSmall)),
                ComparisonResult::Greater => (State::Continuing, Some(Notice::TooBig)),
                ComparisonResult::Equal => (State::Won, Some(Notice::Win)),
            },
            State::Continuing => (State::AwaitingInput, None),
            State::AwaitingInput => (State::AwaitingInput, None),
            State::Won => (State::Won, None),
        };
        self.state = next;
        notice
    }

    /// Plays one whole turn on the line `raw`: the line is validated, the
    /// guess compared, and the notices of the turn are returned in order.
    /// The turn ends with the session waiting again, or won. A session that
    /// does not wait for input ignores the line and emits nothing.
    pub fn submit(&mut self, raw: &str) -> (notices: Vec<Notice>)
        ensures
            final(self)@.target == old(self)@.target,
            old(self)@.phase == Phase::AwaitingInput ==> {
                &&& final(self)@.phase == turn_spec(old(self)@.target, raw@).0
                &&& notices@ == turn_spec(old(self)@.target, raw@).1
            },
            old(self)@.phase != Phase::AwaitingInput ==> {
                &&& final(self)@.phase == old(self)@.phase
                &&& notices@ == Seq::<Notice>::empty()
            },
    {
        let mut notices: Vec<Notice> = Vec::new();
        if !self.receive(raw) {
            return notices;
        }
        let validated = self.advance();
        match validated {
            Some(notice) => notices.push(notice),
            None => {},
        }
        if self.is_awaiting_input() {
            assert(notices@ =~= turn_spec(old(self)@.target, raw@).1);
            return notices;
        }
        let compared = self.advance();
        match compared {
            Some(notice) => notices.push(notice),
            None => {},
        }
        if !self.is_won() {
            self.advance();
        }
        assert(notices@ =~= turn_spec(old(self)@.target, raw@).1);
        notices
    }
}

/// A whole turn is the chain of single transitions: the line is received,
/// then the session advances until it waits again or is won, and the notices
/// of the turn are those of the transitions, in order.
pub proof fn lemma_turn_is_chain(target: int, raw: Seq<char>)
    ensures
        ({
            let validating = receive_spec(Phase::AwaitingInput, raw);
            let (second, first_notice) = advance_spec(target, validating);
            match parse_spec(raw) {
                Err(_) => turn_spec(target, raw) == (second, seq![first_notice->Some_0]),
                Ok(_) => {
                    let (third, second_notice) = advance_spec(target, second);
                    let last = if third == Phase::Won {
                        third
                    } else {
                        advance_spec(target, third).0
                    };
                    &&& turn_spec(target, raw).0 == last
                    &&& turn_spec(target, raw).1 == seq![
                        first_notice->Some_0,
                        second_notice->Some_0,
                    ]
                },
            }
        }),
{
}

/// A turn ends in `Won` exactly when the line parses to the target, and
/// otherwise with the session waiting again.
pub proof fn lemma_turn_wins_iff_guess_is_target(target: int, raw: Seq<char>)
    requires
        i32::MIN <= target <= i32::MAX,
    ensures
        turn_spec(target, raw).0 == Phase::Won <==> parse_spec(raw) == Ok::<i32, ParseFailure>(
            target as i32,
        ),
        turn_spec(target, raw).0 != Phase::Won ==> turn_spec(target, raw).0
            == Phase::AwaitingInput,
{
}

/// How a run of a session over a list of lines ended.
#[derive(Clone, Copy, Debug, PartialEq, Eq, Structural)]
pub enum Outcome {
    /// A guess matched the target.
    Won,
    /// The lines ran out before any guess matched.
    InputClosed,
}

/// The exit status of a process that ran a session: 0 for a session that
/// was won, 1 for one whose input ended first.
pub fn exit_code(outcome: Outcome) -> (code: i32)
    ensures
        code == (if outcome == Outcome::Won { 0i32 } else { 1i32 }),
        code == 0 <==> outcome == Outcome::Won,
{
    match outcome {
        Outcome::Won => 0,
        Outcome::InputClosed => 1,
    }
}

/// What a run of a session over a list of lines produced.
#[derive(Debug)]
pub struct Transcript {
    /// The notices, in the order in which they were emitted.
    pub notices: Vec<Notice>,
    /// How many of the lines the session took.
    pub consumed: usize,
    /// How the run ended.
    pub outcome: Outcome,
}

/// The texts of a list of lines.
pub open spec fn texts(lines: Seq<String>) -> Seq<Seq<char>> {
    Seq::new(lines.len(), |i: int| lines[i]@)
}

/// A session with the given target played over `lines` from its start: the
/// state it ends in, the notices in order, and the number of lines taken.
/// Lines after the winning one are not taken.
pub open spec fn play_spec(target: int, lines: Seq<Seq<char>>) -> (Phase, Seq<Notice>, nat)
    decreases lines.len(),
{
    if lines.len() == 0 {
        (Phase::AwaitingInput, Seq::<Notice>::empty(), 0)
    } else {
        let before = play_spec(target, lines.drop_last());
        if before.0 == Phase::Won {
            before
        } else {
            let turn = turn_spec(target, lines.last());
            (turn.0, before.1 + turn.1, before.2 + 1)
        }
    }
}

/// Whether some line among the first `count` of `lines` parses to `target`.
pub open spec fn some_guess_matches(target: int, lines: Seq<Seq<char>>, count: int) -> bool {
    exists|i: int|
        0 <= i < count && i < lines.len() && #[trigger] parse_spec(lines[i]) == Ok::<
            i32,
            ParseFailure,
        >(target as i32)
}

/// A played session is won exactly when one of its lines parsed to the
/// target; otherwise it waits for input, having taken every line. The line
/// that wins is the last one taken, and no line before it matched.
pub proof fn lemma_play_won_iff_some_guess_matches(target: int, lines: Seq<Seq<char>>)
    requires
        i32::MIN <= target <= i32::MAX,
    ensures
        play_spec(target, lines).0 == Phase::Won <==> some_guess_matches(
            target,
            lines,
            lines.len() as int,
        ),
        play_spec(target, lines).0 != Phase::Won ==> play_spec(target, lines).0
            == Phase::AwaitingInput && play_spec(target, lines).2 == lines.len(),
        play_spec(target, lines).2 <= lines.len(),
        play_spec(target, lines).0 == Phase::Won ==> {
            let taken = play_spec(target, lines).2;
            &&& taken >= 1
            &&& parse_spec(lines[taken - 1]) == Ok::<i32, ParseFailure>(target as i32)
            &&& !some_guess_matches(target, lines, taken - 1)
        },
    decreases lines.len(),
{
    if lines.len() > 0 {
        let front = lines.drop_last();
        lemma_play_won_iff_some_guess_matches(target, front);
        lemma_turn_wins_iff_guess_is_target(target, lines.last());
        assert(forall|i: int| 0 <= i < front.len() ==> front[i] == lines[i]);
        if play_spec(target, front).0 == Phase::Won {
            let taken = play_spec(target, front).2;
            assert(front[taken - 1] == lines[taken - 1]);
        } else {
            if parse_spec(lines.last()) == Ok::<i32, ParseFailure>(target as i32) {
                assert(parse_spec(lines[lines.len() - 1]) == Ok::<i32, ParseFailure>(
                    target as i32,
                ));
            } else {
                if some_guess_matches(target, lines, lines.len() as int) {
                    let i = choose|i: int|
                        0 <= i < lines.len() && #[trigger] parse_spec(lines[i]) == Ok::<
                            i32,
                            ParseFailure,
                        >(target as i32);
                    assert(i < front.len());
                    assert(parse_spec(front[i]) == Ok::<i32, ParseFailure>(target as i32));
                }
            }
        }
    }
}

/// Once a played session is won, more lines change nothing.
pub proof fn lemma_play_stops_at_win(target: int, lines: Seq<Seq<char>>, count: int)
    requires
        0 <= count <= lines.len(),
        play_spec(target, lines.take(count)).0 == Phase::Won,
    ensures
        play_spec(target, lines) == play_spec(target, lines.take(count)),
    decreases lines.len(),
{
    if count == lines.len() {
        assert(lines.take(count) =~= lines);
    } else {
        let front = lines.drop_last();
        assert(front.take(count) =~= lines.take(count));
        lemma_play_stops_at_win(target, front, count);
    }
}

/// Plays a session with the given target over `lines`, one turn per line,
/// until a guess matches or the lines run out.
pub fn play(target: i32, lines: &Vec<String>) -> (transcript: Transcript)
    ensures
        transcript.notices@ == play_spec(target as int, texts(lines@)).1,
        transcript.consumed == play_spec(target as int, texts(lines@)).2,
        transcript.outcome == Outcome::Won <==> play_spec(target as int, texts(lines@)).0
            == Phase::Won,
        transcript.outcome == Outcome::Won <==> some_guess_matches(
            target as int,
            texts(lines@),
            lines.len() as int,
        ),
        transcript.outcome == Outcome::InputClosed ==> transcript.consumed == lines.len(),
{
    let ghost all = texts(lines@);
    let mut session = Session::new(target);
    let mut notices: Vec<Notice> = Vec::new();
    let mut consumed: usize = 0;
    assert(all.take(0) =~= Seq::<Seq<char>>::empty());
    while consumed < lines.len() && !session.is_won()
        invariant
            consumed <= lines.len(),
            all == texts(lines@),
            session@.target == target,
            session@.phase == play_spec(target as int, all.take(consumed as int)).0,
            notices@ == play_spec(target as int, all.take(consumed as int)).1,
            consumed == play_spec(target as int, all.take(consumed as int)).2,
            session@.phase == Phase::AwaitingInput || session@.phase == Phase::Won,
        decreases lines.len() - consumed,
    {
        let mut turn = session.submit(lines[consumed].as_str());
        notices.append(&mut turn);
        proof {
            let longer = all.take(consumed + 1);
            assert(longer.drop_last() =~= all.take(consumed as int));
            assert(longer.last() == lines@[consumed as int]@);
        }
        consumed += 1;
    }
    proof {
        if session@.phase == Phase::Won {
            lemma_play_stops_at_win(target as int, all, consumed as int);
        } else {
            assert(all.take(consumed as int) =~= all);
        }
        lemma_play_won_iff_some_guess_matches(target as int, all);
    }
    let outcome = if session.is_won() {
        Outcome::Won
    } else {
        Outcome::InputClosed
    };
    Transcript { notices, consumed, outcome }
}

} // verus!
