//! Terminal traffic: writes, cut into chunks that fit a one-byte length,
//! and reads, gathered fragment by fragment until the simulator has no
//! more to give.

use vstd::prelude::*;
use crate::command::{encode_terminal_write, terminal_write_command};
use crate::wire::{contents, joined};

verus! {

/// Largest chunk of one terminal write: its length field is one byte.
pub const MAX_CHUNK_LEN: usize = 255;

/// Number of bytes the simulator answers to each terminal write.
pub const TERMINAL_WRITE_ACK_LEN: usize = 1;

/// Number of chunks that a message of `len` bytes is cut into: `len`
/// divided by 255, rounded up.
pub open spec fn chunk_count(len: int) -> int {
    (len + 254) / 255
}

/// The `index`-th chunk of `message`: the next 255 bytes from position
/// `255 * index`, or what is left of the message if that is less.
pub open spec fn chunk(message: Seq<u8>, index: int) -> Seq<u8> {
    message.subrange(
        255 * index,
        if 255 * (index + 1) < message.len() {
            255 * (index + 1)
        } else {
            message.len() as int
        },
    )
}

/// The chunks of `message`, in order.
pub open spec fn chunks(message: Seq<u8>) -> Seq<Seq<u8>> {
    Seq::new(chunk_count(message.len() as int) as nat, |index: int| chunk(message, index))
}

/// The commands that write `message` to the terminal: one for each of
/// its chunks, in order.
pub open spec fn terminal_write_commands(message: Seq<u8>) -> Seq<Seq<u8>> {
    Seq::new(
        chunk_count(message.len() as int) as nat,
        |index: int| terminal_write_command(chunk(message, index)),
    )
}

/// A message of `len` bytes is cut into the least number of chunks of at
/// most 255 bytes that can hold it.
pub proof fn lemma_chunk_count(len: int)
    requires
        0 <= len,
    ensures
        0 <= chunk_count(len),
        255 * (chunk_count(len) - 1) < len <= 255 * chunk_count(len) || (len == 0 && chunk_count(
            len,
        ) == 0),
{
}

/// Every chunk but the last holds 255 bytes, and the last holds what is
/// left, which is at least one byte and at most 255.
pub proof fn lemma_chunk_len(message: Seq<u8>, index: int)
    requires
        0 <= index < chunk_count(message.len() as int),
    ensures
        index < chunk_count(message.len() as int) - 1 ==> chunk(message, index).len() == 255,
        index == chunk_count(message.len() as int) - 1 ==> chunk(message, index).len()
            == message.len() - 255 * index,
        1 <= chunk(message, index).len() <= 255,
{
}

/// Each command of a terminal write frames its own chunk: the opcode,
/// the terminal number, one byte that is the length of the chunk, and
/// then the chunk.
pub proof fn lemma_terminal_write_framing(message: Seq<u8>, index: int)
    requires
        0 <= index < chunk_count(message.len() as int),
    ensures
        terminal_write_commands(message)[index].len() == 3 + chunk(message, index).len(),
        terminal_write_commands(message)[index][0] == 0x12,
        terminal_write_commands(message)[index][1] == 0x00,
        terminal_write_commands(message)[index][2] == chunk(message, index).len(),
        terminal_write_commands(message)[index].subrange(
            3,
            3 + chunk(message, index).len() as int,
        ) == chunk(message, index),
{
    lemma_chunk_len(message, index);
    let command = terminal_write_commands(message)[index];
    assert(command.subrange(3, 3 + chunk(message, index).len() as int) =~= chunk(message, index));
}

/// The chunks of a message, joined in order, are the message.
pub proof fn lemma_chunks_join(message: Seq<u8>)
    ensures
        joined(chunks(message)) == message,
{
    lemma_chunks_join_prefix(message, chunk_count(message.len() as int));
    assert(chunks(message).take(chunk_count(message.len() as int)) =~= chunks(message));
    assert(message.take(message.len() as int) =~= message);
}

/// The first `count` chunks of a message, joined in order, are the
/// message up to the end of the last of them.
proof fn lemma_chunks_join_prefix(message: Seq<u8>, count: int)
    requires
        0 <= count <= chunk_count(message.len() as int),
    ensures
        joined(chunks(message).take(count)) == message.take(
            if 255 * count < message.len() {
                255 * count
            } else {
                message.len() as int
            },
        ),
    decreases count,
{
    let prefix = chunks(message).take(count);
    if count == 0 {
        assert(message.take(0) =~= Seq::<u8>::empty());
    } else {
        lemma_chunks_join_prefix(message, count - 1);
        assert(prefix.drop_last() =~= chunks(message).take(count - 1));
        assert(prefix.last() == chunk(message, count - 1));
        let end: int = if 255 * count < message.len() {
            255 * count
        } else {
            message.len() as int
        };
        assert(message.take(255 * (count - 1)) + chunk(message, count - 1) =~= message.take(end));
    }
}

/// Encodes the commands that write `message` to the terminal. The
/// message is cut into chunks of at most 255 bytes, and each chunk gets a
/// command of its own. The simulator answers each command with one byte.
pub fn encode_terminal_writes(message: &[u8]) -> (commands: Vec<Vec<u8>>)
    ensures
        contents(commands@) == terminal_write_commands(message@),
{
    let mut commands: Vec<Vec<u8>> = Vec::new();
    let mut start: usize = 0;
    while start < message.len()
        invariant
            start <= message.len(),
            start == 255 * commands.len() || start == message.len(),
            commands.len() == chunk_count(start as int),
            commands.len() <= chunk_count(message.len() as int),
            forall|index: int|
                0 <= index < commands.len() ==> (#[trigger] commands@[index])@
                    == terminal_write_command(chunk(message@, index)),
        decreases message.len() - start,
    {
        let end: usize = if message.len() - start > MAX_CHUNK_LEN {
            start + MAX_CHUNK_LEN
        } else {
            message.len()
        };
        let piece: &[u8] = &message[start..end];
        assert(piece@ == chunk(message@, commands.len() as int));
        let command = encode_terminal_write(piece);
        commands.push(command);
        start = end;
    }
    assert(contents(commands@) =~= terminal_write_commands(message@));
    commands
}

/// Where a terminal read stands, as mathematics. A read polls the
/// simulator for the length of the next fragment, fetches a fragment of
/// that length, and polls again, until a poll is answered with zero.
pub enum TerminalModel {
    /// About to poll; the bytes gathered so far.
    Poll(Seq<u8>),
    /// About to fetch a fragment of the given length.
    Fragment(Seq<u8>, u8),
    /// Finished; the output.
    Done(Seq<u8>),
}

impl TerminalModel {
    /// A read that has gathered nothing yet.
    pub open spec fn start() -> TerminalModel {
        TerminalModel::Poll(Seq::empty())
    }

    /// The read after a poll was answered with `length`: zero ends it,
    /// anything else announces a fragment of that length.
    pub open spec fn on_length(self, length: u8) -> TerminalModel {
        match self {
            TerminalModel::Poll(gathered) => if length == 0 {
                TerminalModel::Done(gathered)
            } else {
                TerminalModel::Fragment(gathered, length)
            },
            other => other,
        }
    }

    /// The read after the announced fragment has arrived as `bytes`.
    pub open spec fn on_bytes(self, bytes: Seq<u8>) -> TerminalModel {
        match self {
            TerminalModel::Fragment(gathered, _) => TerminalModel::Poll(gathered + bytes),
            other => other,
        }
    }

    /// The read after the simulator has announced and delivered each of
    /// `fragments`, in order.
    pub open spec fn on_fragments(self, fragments: Seq<Seq<u8>>) -> TerminalModel
        decreases fragments.len(),
    {
        if fragments.len() == 0 {
            self
        } else {
            self.on_fragments(fragments.drop_last()).on_length(
                fragments.last().len() as u8,
            ).on_bytes(fragments.last())
        }
    }
}

/// A read that is answered with a sequence of fragments, each announced
/// by its length, and then with a length of zero, ends with the
/// fragments joined in order as its output.
pub proof fn lemma_terminal_read_gathers(fragments: Seq<Seq<u8>>)
    requires
        forall|i: int| 0 <= i < fragments.len() ==> 1 <= (#[trigger] fragments[i]).len() <= 255,
    ensures
        TerminalModel::start().on_fragments(fragments).on_length(0) == TerminalModel::Done(
            joined(fragments),
        ),
{
    lemma_terminal_read_polls(fragments);
}

/// After any number of delivered fragments a read is about to poll
/// again, and has gathered the fragments joined in order.
proof fn lemma_terminal_read_polls(fragments: Seq<Seq<u8>>)
    requires
        forall|i: int| 0 <= i < fragments.len() ==> 1 <= (#[trigger] fragments[i]).len() <= 255,
    ensures
        TerminalModel::start().on_fragments(fragments) == TerminalModel::Poll(joined(fragments)),
    decreases fragments.len(),
{
    if fragments.len() > 0 {
        let earlier = fragments.drop_last();
        assert forall|i: int| 0 <= i < earlier.len() implies 1 <= (#[trigger] earlier[i]).len()
            <= 255 by {
            assert(earlier[i] == fragments[i]);
        }
        lemma_terminal_read_polls(earlier);
        assert(1 <= fragments[fragments.len() - 1].len() <= 255);
    }
}

/// A terminal read that is about to poll the simulator.
pub struct TerminalPoll {
    gathered: Vec<u8>,
}

/// A terminal read that is about to fetch an announced fragment.
pub struct TerminalFragment {
    gathered: Vec<u8>,
    length: u8,
}

/// What to do after a poll has been answered.
pub enum TerminalStep {
    /// Fetch the announced fragment.
    Fetch(TerminalFragment),
    /// The read is over; this is its output.
    Done(Vec<u8>),
}

impl View for TerminalPoll {
    type V = TerminalModel;

    closed spec fn view(&self) -> TerminalModel {
        TerminalModel::Poll(self.gathered@)
    }
}

impl View for TerminalFragment {
    type V = TerminalModel;

    closed spec fn view(&self) -> TerminalModel {
        TerminalModel::Fragment(self.gathered@, self.length)
    }
}

impl View for TerminalStep {
    type V = TerminalModel;

    open spec fn view(&self) -> TerminalModel {
        match self {
            TerminalStep::Fetch(fragment) => fragment@,
            TerminalStep::Done(output) => TerminalModel::Done(output@),
        }
    }
}

impl TerminalPoll {
    /// A read that has gathered nothing yet.
    pub fn new() -> (poll: TerminalPoll)
        ensures
            poll@ == TerminalModel::start(),
    {
        TerminalPoll { gathered: Vec::new() }
    }

    /// Takes the answer to a poll: the length of the next fragment. Zero
    /// ends the read with what has been gathered; any other length is
    /// that of a fragment to fetch.
    pub fn on_length(self, length: u8) -> (step: TerminalStep)
        ensures
            step@ == self@.on_length(length),
            length == 0 <==> step is Done,
    {
        if length == 0 {
            TerminalStep::Done(self.gathered)
        } else {
            TerminalStep::Fetch(TerminalFragment { gathered: self.gathered, length })
        }
    }
}

impl TerminalFragment {
    /// The number of bytes to fetch.
    pub fn length(&self) -> (length: u8)
        ensures
            self@ matches TerminalModel::Fragment(_, announced) && length == announced,
            length > 0,
    {
        proof {
            use_type_invariant(self);
        }
        self.length
    }

    #[verifier::type_invariant]
    spec fn inv(self) -> bool {
        self.length > 0
    }

    /// Takes the fetched fragment and adds it to what has been gathered.
    /// The read polls again afterwards.
    pub fn on_bytes(self, bytes: &[u8]) -> (poll: TerminalPoll)
        ensures
            poll@ == self@.on_bytes(bytes@),
    {
        let mut gathered = self.gathered;
        crate::wire::push_bytes(&mut gathered, bytes);
        TerminalPoll { gathered }
    }
}

} // verus!
