use std::collections::VecDeque;

use vstd::prelude::*;

use crate::board_state::{spec_fen_with_counters, BoardState, Entity};
use crate::selection::MovePiece;
use crate::piece::PieceColor;
use crate::square::{spec_square_from_chars, Square};
use crate::text::{split_chars, split_on, str_chars, string_from_chars};

verus! {

/// A command sent to the chess engine over the UCI protocol, or a pause between commands.
#[derive(Debug)]
pub enum SfCommand {
    Uci,
    IsReady,
    UciNewGame,
    /// Set up the position of this FEN.
    Position(String),
    /// Search until told to stop.
    Go,
    /// Wait this many milliseconds before the next command.
    Sleep(u32),
    Stop,
}

/// The text of a command as it is written to the engine; a pause writes nothing.
pub open spec fn spec_command_text(cmd: SfCommand) -> Seq<char> {
    match cmd {
        SfCommand::Uci => "uci\n"@,
        SfCommand::IsReady => "isready\n"@,
        SfCommand::UciNewGame => "ucinewgame\n"@,
        SfCommand::Position(fen) => "position fen "@ + fen@ + "\n"@,
        SfCommand::Go => "go infinite\n"@,
        SfCommand::Sleep(_) => Seq::empty(),
        SfCommand::Stop => "stop\n"@,
    }
}

impl SfCommand {
    /// The bytes written to the engine for this command: the UTF-8 encoding of its text.
    pub fn into_bytes(self) -> (b: Vec<u8>)
        ensures
            b@ == vstd::utf8::encode_utf8(spec_command_text(self)),
    {
        let ghost text = spec_command_text(self);
        let s: String = match self {
            SfCommand::Uci => "uci\n".to_string(),
            SfCommand::IsReady => "isready\n".to_string(),
            SfCommand::UciNewGame => "ucinewgame\n".to_string(),
            SfCommand::Position(fen) => {
                let mut v = str_chars("position fen ");
                let f = str_chars(fen.as_str());
                let nl = str_chars("\n");
                proof {
                    reveal_strlit("\n");
                }
                let mut i: usize = 0;
                let ghost start = v@;
                while i < f.len()
                    invariant
                        i <= f@.len(),
                        v@ == start + f@.take(i as int),
                    decreases f@.len() - i,
                {
                    v.push(f[i]);
                    i = i + 1;
                    assert(v@ =~= start + f@.take(i as int));
                }
                assert(f@.take(f@.len() as int) =~= f@);
                v.push(nl[0]);
                proof {
                    assert(v@ =~= "position fen "@ + fen@ + "\n"@);
                }
                string_from_chars(v.as_slice())
            },
            SfCommand::Go => "go infinite\n".to_string(),
            SfCommand::Sleep(_) => String::new(),
            SfCommand::Stop => "stop\n".to_string(),
        };
        assert(s@ == text);
        vstd::slice::slice_to_vec(s.as_str().as_bytes())
    }

    /// A copy of the command.
    pub fn duplicate(&self) -> (c: SfCommand)
        ensures
            c == *self,
    {
        match self {
            SfCommand::Uci => SfCommand::Uci,
            SfCommand::IsReady => SfCommand::IsReady,
            SfCommand::UciNewGame => SfCommand::UciNewGame,
            SfCommand::Position(fen) => SfCommand::Position(fen.clone()),
            SfCommand::Go => SfCommand::Go,
            SfCommand::Sleep(ms) => SfCommand::Sleep(*ms),
            SfCommand::Stop => SfCommand::Stop,
        }
    }
}

/// Where the engine conversation stands.
#[derive(Clone, Copy, Debug, PartialEq, Eq, Structural)]
pub enum SfState {
    /// Ready to send the next commands.
    Idle,
    /// Waiting for "uciok".
    WaitingUci,
    /// Waiting for "readyok".
    WaitingReady,
    /// Waiting for the "bestmove" line that ends a search.
    WaitingFinishSearch,
}

/// A line of the conversation with the engine: a command sent or a response received.
#[derive(Debug)]
pub enum SfMessage {
    Command(SfCommand),
    Response(String),
}

impl SfMessage {
    /// The text of a response; `None` for a command.
    pub fn as_response(&self) -> (r: Option<&String>)
        ensures
            match self {
                SfMessage::Response(s) => r == Some(s),
                SfMessage::Command(_) => r is None,
            },
    {
        match self {
            SfMessage::Response(s) => Some(s),
            SfMessage::Command(_) => None,
        }
    }
}

/// The responses of a conversation, in order.
pub open spec fn spec_responses(msgs: Seq<SfMessage>) -> Seq<Seq<char>>
    decreases msgs.len(),
{
    if msgs.len() == 0 {
        Seq::empty()
    } else {
        let r = spec_responses(msgs.drop_last());
        match msgs.last() {
            SfMessage::Response(s) => r.push(s@),
            SfMessage::Command(_) => r,
        }
    }
}

/// The response that ends the wait of the given state: "uciok", "readyok", or a line starting
/// with "bestmove".
pub open spec fn spec_ends_wait(state: SfState, line: Seq<char>) -> bool {
    match state {
        SfState::WaitingUci => line == "uciok"@,
        SfState::WaitingReady => line == "readyok"@,
        SfState::WaitingFinishSearch => line.len() >= 8 && line.take(8) == "bestmove"@,
        SfState::Idle => false,
    }
}

/// The index of the first response at or after `k` that ends the wait.
pub open spec fn spec_first_match(rs: Seq<Seq<char>>, k: int, state: SfState) -> Option<int>
    decreases rs.len() - k,
{
    if k < 0 || k >= rs.len() {
        None
    } else if spec_ends_wait(state, rs[k]) {
        Some(k)
    } else {
        spec_first_match(rs, k + 1, state)
    }
}

/// The response cursor after a scan from `cursor`: one past the response that ends the wait;
/// when none does, one past the end of the responses (or one past the cursor, if it already
/// was beyond them), as the scan also counts the final look that finds nothing.
pub open spec fn spec_cursor_after(rs: Seq<Seq<char>>, cursor: int, state: SfState) -> int {
    match spec_first_match(rs, cursor, state) {
        Some(k) => k + 1,
        None => if cursor > rs.len() { cursor + 1 } else { rs.len() as int + 1 },
    }
}

proof fn lemma_first_match_at(rs: Seq<Seq<char>>, from: int, k: int, state: SfState)
    requires
        0 <= from <= k < rs.len(),
        forall|j: int| from <= j < k ==> !spec_ends_wait(state, #[trigger] rs[j]),
        spec_ends_wait(state, rs[k]),
    ensures
        spec_first_match(rs, from, state) == Some(k),
    decreases k - from,
{
    if from < k {
        lemma_first_match_at(rs, from + 1, k, state);
    }
}

proof fn lemma_first_match_none(rs: Seq<Seq<char>>, from: int, state: SfState)
    requires
        0 <= from,
        forall|j: int| from <= j < rs.len() ==> !spec_ends_wait(state, #[trigger] rs[j]),
    ensures
        spec_first_match(rs, from, state) is None,
    decreases rs.len() - from,
{
    if from < rs.len() {
        lemma_first_match_none(rs, from + 1, state);
    }
}

/// The line is exactly the text of `expected`.
fn chars_equal(line: &[char], expected: &[char]) -> (b: bool)
    ensures
        b == (line@ == expected@),
{
    if line.len() != expected.len() {
        return false;
    }
    let mut i: usize = 0;
    while i < line.len()
        invariant
            line@.len() == expected@.len(),
            i <= line@.len(),
            forall|j: int| 0 <= j < i ==> line@[j] == expected@[j],
        decreases line@.len() - i,
    {
        if line[i] != expected[i] {
            return false;
        }
        i = i + 1;
    }
    assert(line@ =~= expected@);
    true
}

/// The line starts with the text of `prefix`.
fn chars_start_with(line: &[char], prefix: &[char]) -> (b: bool)
    ensures
        b == (line@.len() >= prefix@.len() && line@.take(prefix@.len() as int) == prefix@),
{
    if line.len() < prefix.len() {
        return false;
    }
    let mut i: usize = 0;
    while i < prefix.len()
        invariant
            line@.len() >= prefix@.len(),
            i <= prefix@.len(),
            forall|j: int| 0 <= j < i ==> line@[j] == prefix@[j],
        decreases prefix@.len() - i,
    {
        if line[i] != prefix[i] {
            assert(line@.take(prefix@.len() as int)[i as int] != prefix@[i as int]);
            return false;
        }
        i = i + 1;
    }
    assert(line@.take(prefix@.len() as int) =~= prefix@);
    true
}

/// The response ends the wait of the given state.
fn ends_wait(state: SfState, line: &String) -> (b: bool)
    ensures
        b == spec_ends_wait(state, line@),
{
    let l = str_chars(line.as_str());
    match state {
        SfState::WaitingUci => chars_equal(l.as_slice(), str_chars("uciok").as_slice()),
        SfState::WaitingReady => chars_equal(l.as_slice(), str_chars("readyok").as_slice()),
        SfState::WaitingFinishSearch => {
            let p = str_chars("bestmove");
            proof {
                reveal_strlit("bestmove");
            }
            chars_start_with(l.as_slice(), p.as_slice())
        },
        SfState::Idle => false,
    }
}

/// Scans the responses from the cursor for the one that ends the wait. Returns the matching
/// response's text and index, if any, and the new cursor.
fn scan_responses(msgs: &Vec<SfMessage>, cursor: usize, state: SfState) -> (res: (Option<(Vec<char>, usize)>, usize))
    requires
        cursor < usize::MAX,
        msgs@.len() < usize::MAX,
    ensures
        res.1 == spec_cursor_after(spec_responses(msgs@), cursor as int, state),
        match spec_first_match(spec_responses(msgs@), cursor as int, state) {
            Some(k) => res.0 matches Some((line, idx)) && idx == k && line@ == spec_responses(msgs@)[k],
            None => res.0 is None,
        },
{
    let ghost rs = spec_responses(msgs@);
    let mut k: usize = 0;
    let mut idx: usize = 0;
    assert(msgs@.take(0) =~= Seq::<SfMessage>::empty());
    while idx < msgs.len()
        invariant
            rs == spec_responses(msgs@),
            msgs@.len() < usize::MAX,
            idx <= msgs@.len(),
            k == spec_responses(msgs@.take(idx as int)).len(),
            k <= idx,
            forall|j: int| cursor <= j < k ==> !spec_ends_wait(state, #[trigger] rs[j]),
        decreases msgs@.len() - idx,
    {
        proof {
            lemma_responses_prefix(msgs@, idx as int + 1);
            assert(msgs@.take(idx + 1).drop_last() =~= msgs@.take(idx as int));
            assert(msgs@.take(idx + 1).last() == msgs@[idx as int]);
        }
        match &msgs[idx] {
            SfMessage::Response(line) => {
                proof {
                    assert(spec_responses(msgs@.take(idx + 1)) == spec_responses(msgs@.take(idx as int)).push(line@));
                    assert(spec_responses(msgs@.take(idx + 1))[k as int] == line@);
                }
                if k >= cursor && ends_wait(state, line) {
                    let text = str_chars(line.as_str());
                    proof {
                        assert(rs[k as int] == line@);
                        lemma_first_match_at(rs, cursor as int, k as int, state);
                    }
                    return (Some((text, k)), k + 1);
                }
                k = k + 1;
            },
            SfMessage::Command(_) => {},
        }
        idx = idx + 1;
    }
    proof {
        assert(msgs@.take(msgs@.len() as int) =~= msgs@);
        lemma_first_match_none(rs, cursor as int, state);
    }
    if cursor > k {
        (None, cursor + 1)
    } else {
        (None, k + 1)
    }
}

/// The responses of a prefix of a conversation are a prefix of its responses.
proof fn lemma_responses_prefix(msgs: Seq<SfMessage>, n: int)
    requires
        0 <= n <= msgs.len(),
    ensures
        spec_responses(msgs.take(n)).len() <= spec_responses(msgs).len(),
        forall|j: int| 0 <= j < spec_responses(msgs.take(n)).len() ==> #[trigger] spec_responses(msgs.take(n))[j]
            == spec_responses(msgs)[j],
    decreases msgs.len() - n,
{
    if n < msgs.len() {
        lemma_responses_prefix(msgs, n + 1);
        let a = msgs.take(n + 1);
        assert(a.drop_last() =~= msgs.take(n));
        let short = spec_responses(msgs.take(n));
        assert(spec_responses(a) == match a.last() {
            SfMessage::Response(s) => short.push(s@),
            SfMessage::Command(_) => short,
        });
        assert forall|j: int| 0 <= j < short.len() implies #[trigger] short[j] == spec_responses(msgs)[j] by {
            assert(short[j] == spec_responses(a)[j]);
        }
    } else {
        assert(msgs.take(n) =~= msgs);
    }
}

/// The commands waiting to be sent to the engine, oldest first.
pub struct Stockfish {
    command_queue: VecDeque<SfCommand>,
}

impl Stockfish {
    /// The queued commands, oldest first.
    pub closed spec fn queue(&self) -> Seq<SfCommand> {
        self.command_queue@
    }

    /// An empty queue.
    pub fn new() -> (s: Stockfish)
        ensures
            s.queue() == Seq::<SfCommand>::empty(),
    {
        Stockfish { command_queue: VecDeque::new() }
    }

    /// Queues the commands after those already waiting, in order.
    pub fn extend_cmds(&mut self, commands: Vec<SfCommand>)
        ensures
            final(self).queue() == old(self).queue() + commands@,
    {
        let mut i: usize = 0;
        while i < commands.len()
            invariant
                i <= commands@.len(),
                self.queue() == old(self).queue() + commands@.take(i as int),
            decreases commands@.len() - i,
        {
            self.command_queue.push_back(commands[i].duplicate());
            i = i + 1;
            assert(self.queue() =~= old(self).queue() + commands@.take(i as int));
        }
        assert(commands@.take(commands@.len() as int) =~= commands@);
    }

    /// Takes the oldest queued command, if any.
    pub fn pop_cmd(&mut self) -> (c: Option<SfCommand>)
        ensures
            match c {
                Some(cmd) => old(self).queue().len() > 0 && cmd == old(self).queue()[0]
                    && final(self).queue() == old(self).queue().skip(1),
                None => old(self).queue().len() == 0 && final(self).queue() == old(self).queue(),
            },
    {
        let c = self.command_queue.pop_front();
        proof {
            if c is Some {
                assert(old(self).queue().subrange(1, old(self).queue().len() as int) =~= old(self).queue().skip(1));
            }
        }
        c
    }
}

/// The queue an engine conversation starts with: "uci", "ucinewgame", then "isready".
pub fn initialize_stockfish() -> (s: Stockfish)
    ensures
        s.queue() == seq![SfCommand::Uci, SfCommand::UciNewGame, SfCommand::IsReady],
{
    let mut sf = Stockfish::new();
    let mut cmds: Vec<SfCommand> = Vec::new();
    cmds.push(SfCommand::Uci);
    cmds.push(SfCommand::UciNewGame);
    cmds.push(SfCommand::IsReady);
    sf.extend_cmds(cmds);
    assert(sf.queue() =~= seq![SfCommand::Uci, SfCommand::UciNewGame, SfCommand::IsReady]);
    sf
}

/// The log of the conversation with the engine, commands and responses in order.
pub struct SfCommunications(pub Vec<SfMessage>);

impl Default for SfCommunications {
    fn default() -> (c: SfCommunications)
        ensures
            c.0@ == Seq::<SfMessage>::empty(),
    {
        SfCommunications(Vec::with_capacity(4000))
    }
}

/// The messages that record the given responses.
pub open spec fn spec_as_responses(lines: Seq<String>) -> Seq<SfMessage> {
    lines.map_values(|l: String| SfMessage::Response(l))
}

/// The messages that record the given commands.
pub open spec fn spec_as_commands(cmds: Seq<SfCommand>) -> Seq<SfMessage> {
    cmds.map_values(|c: SfCommand| SfMessage::Command(c))
}

/// The part of the engine conversation kept between updates: what is awaited, and how many
/// responses have been looked at.
#[derive(Clone, Copy, Debug)]
pub struct SfDriver {
    pub state: SfState,
    pub response_cursor: usize,
}

impl SfDriver {
    /// Idle, with no response looked at.
    pub fn new() -> (d: SfDriver)
        ensures
            d.state == SfState::Idle,
            d.response_cursor == 0,
    {
        SfDriver { state: SfState::Idle, response_cursor: 0 }
    }
}

/// A queued command that ends the sending of commands in an update: a pause, or a command
/// whose answer must be awaited.
pub open spec fn spec_stops(c: SfCommand) -> bool {
    c is Sleep || c is Uci || c is IsReady || c is Stop
}

/// The index of the first command at or after `k` that ends the sending, or the queue's length.
pub open spec fn spec_stop_from(q: Seq<SfCommand>, k: int) -> int
    decreases q.len() - k,
{
    if k < 0 || k >= q.len() {
        q.len() as int
    } else if spec_stops(q[k]) {
        k
    } else {
        spec_stop_from(q, k + 1)
    }
}

/// The commands an idle update sends: those before the first that ends the sending, and that
/// one too unless it is a pause.
pub open spec fn spec_sent(q: Seq<SfCommand>) -> Seq<SfCommand> {
    let i = spec_stop_from(q, 0);
    if i < q.len() && !(q[i] is Sleep) {
        q.take(i + 1)
    } else {
        q.take(i)
    }
}

/// The commands left queued after an idle update.
pub open spec fn spec_left(q: Seq<SfCommand>) -> Seq<SfCommand> {
    let i = spec_stop_from(q, 0);
    if i < q.len() {
        q.skip(i + 1)
    } else {
        Seq::empty()
    }
}

/// What is awaited after an idle update: the answer to the last command sent, if it has one.
pub open spec fn spec_state_after(q: Seq<SfCommand>) -> SfState {
    let i = spec_stop_from(q, 0);
    if i < q.len() {
        match q[i] {
            SfCommand::Uci => SfState::WaitingUci,
            SfCommand::IsReady => SfState::WaitingReady,
            SfCommand::Stop => SfState::WaitingFinishSearch,
            _ => SfState::Idle,
        }
    } else {
        SfState::Idle
    }
}

/// The pause an idle update ends with, if it ends with one.
pub open spec fn spec_sleep_after(q: Seq<SfCommand>) -> Option<u32> {
    let i = spec_stop_from(q, 0);
    if i < q.len() {
        match q[i] {
            SfCommand::Sleep(ms) => Some(ms),
            _ => None,
        }
    } else {
        None
    }
}

/// Sends queued commands until one must be answered or a pause comes. Returns the commands to
/// write, the pause, and what is awaited; each command sent is also logged.
fn run_queue(queue: &mut Stockfish, comms: &mut SfCommunications) -> (res: (Vec<SfCommand>, Option<u32>, SfState))
    ensures
        res.0@ == spec_sent(old(queue).queue()),
        res.1 == spec_sleep_after(old(queue).queue()),
        res.2 == spec_state_after(old(queue).queue()),
        final(queue).queue() == spec_left(old(queue).queue()),
        final(comms).0@ == old(comms).0@ + spec_as_commands(spec_sent(old(queue).queue())),
{
    let ghost q = queue.queue();
    let ghost log = comms.0@;
    let mut writes: Vec<SfCommand> = Vec::new();
    loop
        invariant
            q == old(queue).queue(),
            log == old(comms).0@,
            writes@.len() <= q.len(),
            queue.queue() == q.skip(writes@.len() as int),
            writes@ == q.take(writes@.len() as int),
            spec_stop_from(q, 0) == spec_stop_from(q, writes@.len() as int),
            comms.0@ == log + spec_as_commands(writes@),
        decreases q.len() - writes@.len(),
    {
        let ghost n = writes@.len() as int;
        match queue.pop_cmd() {
            None => {
                proof {
                    assert(q.skip(n).len() == 0);
                    assert(n == q.len());
                    assert(spec_stop_from(q, n) == q.len());
                    assert(q.take(n) =~= q);
                }
                return (writes, None, SfState::Idle);
            },
            Some(cmd) => {
                proof {
                    assert(q[n] == cmd);
                    assert(q.skip(n).skip(1) =~= q.skip(n + 1));
                }
                match cmd {
                    SfCommand::Sleep(ms) => {
                        assert(spec_stop_from(q, n) == n);
                        return (writes, Some(ms), SfState::Idle);
                    },
                    SfCommand::Uci => {
                        comms.0.push(SfMessage::Command(cmd.duplicate()));
                        writes.push(cmd);
                        proof {
                            assert(writes@ =~= q.take(n + 1));
                            assert(comms.0@ =~= log + spec_as_commands(writes@));
                        }
                        return (writes, None, SfState::WaitingUci);
                    },
                    SfCommand::IsReady => {
                        comms.0.push(SfMessage::Command(cmd.duplicate()));
                        writes.push(cmd);
                        proof {
                            assert(writes@ =~= q.take(n + 1));
                            assert(comms.0@ =~= log + spec_as_commands(writes@));
                        }
                        return (writes, None, SfState::WaitingReady);
                    },
                    SfCommand::Stop => {
                        comms.0.push(SfMessage::Command(cmd.duplicate()));
                        writes.push(cmd);
                        proof {
                            assert(writes@ =~= q.take(n + 1));
                            assert(comms.0@ =~= log + spec_as_commands(writes@));
                        }
                        return (writes, None, SfState::WaitingFinishSearch);
                    },
                    _ => {
                        comms.0.push(SfMessage::Command(cmd.duplicate()));
                        writes.push(cmd);
                        proof {
                            assert(writes@ =~= q.take(n + 1));
                            assert(comms.0@ =~= log + spec_as_commands(writes@));
                        }
                    },
                }
            },
        }
    }
}

/// The two squares of the move in a "bestmove" line: those named by the first two and the next
/// two characters of its second word.
pub open spec fn spec_bestmove_squares(line: Seq<char>) -> Option<(Square, Square)> {
    let words = split_on(line, ' ');
    if words.len() >= 2 {
        match (spec_square_from_chars(words[1]), spec_square_from_chars(words[1].skip(2))) {
            (Some(from), Some(to)) => Some((from, to)),
            _ => None,
        }
    } else {
        None
    }
}

/// Reads the squares of the move in a "bestmove" line, such as "bestmove e7e5 ponder g1f3".
pub fn bestmove_squares(line: &[char]) -> (res: Option<(Square, Square)>)
    ensures
        res == spec_bestmove_squares(line@),
{
    let words = split_chars(line, ' ');
    if words.len() < 2 {
        return None;
    }
    let word = words[1].as_slice();
    assert(word@ == split_on(line@, ' ')[1]);
    let from = match Square::from_chars(word) {
        Some(sq) => sq,
        None => return None,
    };
    let mut rest: Vec<char> = Vec::new();
    let mut i: usize = 2;
    while i < word.len()
        invariant
            2 <= i <= word@.len(),
            rest@ == word@.subrange(2, i as int),
        decreases word@.len() - i,
    {
        rest.push(word[i]);
        i = i + 1;
        assert(rest@ =~= word@.subrange(2, i as int));
    }
    assert(rest@ =~= word@.skip(2));
    match Square::from_chars(rest.as_slice()) {
        Some(to) => Some((from, to)),
        None => None,
    }
}

/// An engine answer that the game cannot act on.
#[derive(Debug)]
pub enum SfFault {
    /// The "bestmove" line does not name two squares.
    InvalidBestMove(String),
    /// The best move starts from a square without a piece.
    NoPieceToMove(Square),
}

/// What an update hands to the caller: the commands to write to the engine, in order, the pause
/// to wait before the next update, and the piece to move with the engine's best move.
#[derive(Debug)]
pub struct SfUpdate {
    pub writes: Vec<SfCommand>,
    pub sleep_ms: Option<u32>,
    pub best_move: Option<(Entity, MovePiece)>,
}

/// Records the new responses in the log.
fn record_responses(comms: &mut SfCommunications, new_responses: Vec<String>)
    ensures
        final(comms).0@ == old(comms).0@ + spec_as_responses(new_responses@),
{
    let mut i: usize = 0;
    while i < new_responses.len()
        invariant
            i <= new_responses@.len(),
            comms.0@ == old(comms).0@ + spec_as_responses(new_responses@.take(i as int)),
        decreases new_responses@.len() - i,
    {
        comms.0.push(SfMessage::Response(new_responses[i].clone()));
        i = i + 1;
        assert(comms.0@ =~= old(comms).0@ + spec_as_responses(new_responses@.take(i as int)));
    }
    assert(new_responses@.take(new_responses@.len() as int) =~= new_responses@);
}

/// One step of the engine conversation. The new responses are logged; if an answer is awaited,
/// the responses after the cursor are searched for it, and the step ends there while it has not
/// come. Once the engine is idle, queued commands are sent until one must be answered or a
/// pause comes. The answer to a search gives the engine's move, for the piece on its first
/// square.
pub fn stockfish_update(
    driver: &mut SfDriver,
    comms: &mut SfCommunications,
    queue: &mut Stockfish,
    board_state: &BoardState,
    new_responses: Vec<String>,
) -> (res: Result<SfUpdate, SfFault>)
    requires
        board_state.wf(),
        old(driver).response_cursor < usize::MAX,
        old(comms).0@.len() + new_responses@.len() < usize::MAX,
    ensures
        ({
            let msgs = old(comms).0@ + spec_as_responses(new_responses@);
            let rs = spec_responses(msgs);
            let st = old(driver).state;
            let cur = old(driver).response_cursor as int;
            let q = old(queue).queue();
            let found = spec_first_match(rs, cur, st);
            let squares = spec_bestmove_squares(rs[found->0]);
            let pair = squares->0;
            let from = pair.0;
            let to = pair.1;
            if st != SfState::Idle && found is None {
                &&& res matches Ok(u) && u.writes@.len() == 0 && u.sleep_ms is None && u.best_move is None
                &&& final(driver).state == st
                &&& final(driver).response_cursor == spec_cursor_after(rs, cur, st)
                &&& final(comms).0@ == msgs
                &&& final(queue).queue() == q
            } else if st == SfState::WaitingFinishSearch && squares is None {
                &&& res matches Err(SfFault::InvalidBestMove(l)) && l@ == rs[found->0]
                &&& final(driver).state == SfState::Idle
                &&& final(driver).response_cursor == spec_cursor_after(rs, cur, st)
                &&& final(comms).0@ == msgs
                &&& final(queue).queue() == q
            } else if st == SfState::WaitingFinishSearch && board_state.spec_pieces()[from.idx()] is None {
                &&& res matches Err(SfFault::NoPieceToMove(sq)) && sq == from
                &&& final(driver).state == SfState::Idle
                &&& final(driver).response_cursor == spec_cursor_after(rs, cur, st)
                &&& final(comms).0@ == msgs
                &&& final(queue).queue() == q
            } else {
                &&& res matches Ok(u) && u.writes@ == spec_sent(q) && u.sleep_ms == spec_sleep_after(q)
                    && u.best_move == (if st == SfState::WaitingFinishSearch {
                        Some((board_state.spec_pieces()[from.idx()]->0, MovePiece { from_sq: from, to_sq: to, promotion: None, animate: true }))
                    } else {
                        None
                    })
                &&& final(driver).state == spec_state_after(q)
                &&& final(driver).response_cursor == (if st == SfState::Idle { cur } else { spec_cursor_after(rs, cur, st) })
                &&& final(comms).0@ == msgs + spec_as_commands(spec_sent(q))
                &&& final(queue).queue() == spec_left(q)
            }
        }),
{
    record_responses(comms, new_responses);
    let mut best: Option<(Entity, MovePiece)> = None;
    let st = driver.state;
    if st != SfState::Idle {
        let (found, next) = scan_responses(&comms.0, driver.response_cursor, st);
        driver.response_cursor = next;
        match found {
            None => {
                return Ok(SfUpdate { writes: Vec::new(), sleep_ms: None, best_move: None });
            },
            Some((line, _k)) => {
                driver.state = SfState::Idle;
                if st == SfState::WaitingFinishSearch {
                    match bestmove_squares(line.as_slice()) {
                        None => {
                            return Err(SfFault::InvalidBestMove(string_from_chars(line.as_slice())));
                        },
                        Some((from, to)) => {
                            match board_state.get_piece(from) {
                                None => {
                                    return Err(SfFault::NoPieceToMove(from));
                                },
                                Some(e) => {
                                    best = Some((e, MovePiece::new(from, to, None, true)));
                                },
                            }
                        },
                    }
                }
            },
        }
    }
    let (writes, sleep_ms, state) = run_queue(queue, comms);
    driver.state = state;
    Ok(SfUpdate { writes, sleep_ms, best_move: best })
}

/// After a move, when Black is to move, asks the engine for Black's reply: the position, then a
/// search that is stopped after a pause of 2500 milliseconds.
pub fn stockfish_move_as_black(board_state: &BoardState, queue: &mut Stockfish)
    requires
        board_state.wf(),
    ensures
        board_state.spec_position().side_to_move == PieceColor::Black ==> {
            let q = old(queue).queue();
            let n = q.len() as int;
            &&& final(queue).queue().len() == n + 4
            &&& final(queue).queue().take(n) == q
            &&& final(queue).queue()[n] matches SfCommand::Position(fen) && fen@ == spec_fen_with_counters(
                board_state.spec_position().fen@,
                board_state.spec_half_move_clock() as nat,
                board_state.spec_full_move_count() as nat,
            )
            &&& final(queue).queue()[n + 1] == SfCommand::Go
            &&& final(queue).queue()[n + 2] == SfCommand::Sleep(2500)
            &&& final(queue).queue()[n + 3] == SfCommand::Stop
        },
        board_state.spec_position().side_to_move == PieceColor::White ==> final(queue).queue() == old(queue).queue(),
{
    if board_state.side_to_move() == PieceColor::BLACK {
        let mut cmds: Vec<SfCommand> = Vec::new();
        cmds.push(SfCommand::Position(board_state.fen()));
        cmds.push(SfCommand::Go);
        cmds.push(SfCommand::Sleep(2500));
        cmds.push(SfCommand::Stop);
        queue.extend_cmds(cmds);
        assert(queue.queue().take(old(queue).queue().len() as int) =~= old(queue).queue());
    }
}

/// The first match at or after `k` is a response from `k` on that ends the wait.
proof fn lemma_first_match_bounds(rs: Seq<Seq<char>>, k: int, state: SfState)
    requires
        0 <= k,
    ensures
        spec_first_match(rs, k, state) matches Some(j) ==> k <= j < rs.len() && spec_ends_wait(state, rs[j]),
    decreases rs.len() - k,
{
    if k < rs.len() && !spec_ends_wait(state, rs[k]) {
        lemma_first_match_bounds(rs, k + 1, state);
    }
}

/// Every scan moves the response cursor forward, and past the response it matched: no
/// response ends two waits.
pub proof fn lemma_cursor_advances(rs: Seq<Seq<char>>, cursor: int, state: SfState)
    requires
        0 <= cursor,
    ensures
        spec_cursor_after(rs, cursor, state) > cursor,
        spec_first_match(rs, cursor, state) matches Some(k) ==> cursor <= k && k < spec_cursor_after(
            rs,
            cursor,
            state,
        ) && spec_ends_wait(state, rs[k]),
{
    lemma_first_match_bounds(rs, cursor, state);
}

/// The index where the sending stops lies between `k` and the queue's end, and a command
/// there stops it.
proof fn lemma_stop_from_bounds(q: Seq<SfCommand>, k: int)
    requires
        0 <= k <= q.len(),
    ensures
        k <= spec_stop_from(q, k) <= q.len(),
        spec_stop_from(q, k) < q.len() ==> spec_stops(q[spec_stop_from(q, k)]),
    decreases q.len() - k,
{
    if k < q.len() && !spec_stops(q[k]) {
        lemma_stop_from_bounds(q, k + 1);
    }
}

/// An idle update takes commands from the front of the queue, in order: the commands it sends,
/// then the pause it stops at (if it stops at one), then the commands left make up the queue.
pub proof fn lemma_queue_split(q: Seq<SfCommand>)
    ensures
        q == spec_sent(q) + (match spec_sleep_after(q) {
            Some(ms) => seq![SfCommand::Sleep(ms)],
            None => Seq::<SfCommand>::empty(),
        }) + spec_left(q),
{
    lemma_stop_from_bounds(q, 0);
    let i = spec_stop_from(q, 0);
    if i < q.len() {
        if q[i] is Sleep {
            assert(q =~= q.take(i) + seq![q[i]] + q.skip(i + 1));
        } else {
            assert(q =~= q.take(i + 1) + Seq::<SfCommand>::empty() + q.skip(i + 1));
        }
    } else {
        assert(q =~= q.take(i) + Seq::<SfCommand>::empty() + Seq::<SfCommand>::empty());
    }
}

} // verus!
