//! The program loader: from the tokens of a parsed image to the memory
//! writes that put the image into the simulator.

use vstd::prelude::*;
use crate::command::{encode_write_memory, write_memory_command};
use crate::error::LibiguanaError;
use crate::kmdparse_types::token::KmdparseToken;
use crate::wire::contents;

verus! {

/// A write of `bytes` to memory at `address`.
pub struct MemoryWrite {
    pub address: u32,
    pub bytes: Seq<u8>,
}

/// The write that a token asks for. Only a line that carries both an
/// address and a word asks for one; tags, labels and lines that lack
/// either are passed over.
pub open spec fn token_write(token: KmdparseToken) -> Option<MemoryWrite> {
    match token {
        KmdparseToken::Line { line } => match (line.memory_address, line.word) {
            (Some(address), Some(word)) => Some(MemoryWrite { address, bytes: word.bytes() }),
            _ => None,
        },
        _ => None,
    }
}

/// Whether the write of a token, if it asks for one, fits one command.
pub open spec fn token_fits(token: KmdparseToken) -> bool {
    token_write(token) matches Some(write) ==> write.bytes.len() <= 65535
}

/// The bytes to send for a token: the command of its write, and nothing
/// for a token that asks for no write.
pub open spec fn token_command(token: KmdparseToken) -> Seq<u8> {
    match token_write(token) {
        Some(write) => write_memory_command(write.address, write.bytes),
        None => Seq::empty(),
    }
}

/// The position of the first token at or after `from` whose write does
/// not fit one command, or the number of tokens if every write from there
/// on fits.
pub open spec fn first_misfit(tokens: Seq<KmdparseToken>, from: int) -> int
    decreases tokens.len() - from,
{
    if from < 0 || from >= tokens.len() {
        tokens.len() as int
    } else if !token_fits(tokens[from]) {
        from
    } else {
        first_misfit(tokens, from + 1)
    }
}

/// The commands that load `tokens`, in the order of the tokens. A token
/// for which nothing is to be sent contributes no command.
pub open spec fn load_commands(tokens: Seq<KmdparseToken>) -> Seq<Seq<u8>>
    decreases tokens.len(),
{
    if tokens.len() == 0 {
        Seq::empty()
    } else if token_command(tokens.last()).len() == 0 {
        load_commands(tokens.drop_last())
    } else {
        load_commands(tokens.drop_last()).push(token_command(tokens.last()))
    }
}

/// `first_misfit` finds the first token that does not fit: every token
/// between `from` and the result fits, and the token at the result does
/// not, unless the result is the end.
pub proof fn lemma_first_misfit(tokens: Seq<KmdparseToken>, from: int)
    requires
        0 <= from <= tokens.len(),
    ensures
        from <= first_misfit(tokens, from) <= tokens.len(),
        forall|i: int| from <= i < first_misfit(tokens, from) ==> token_fits(#[trigger] tokens[i]),
        first_misfit(tokens, from) < tokens.len() ==> !token_fits(
            tokens[first_misfit(tokens, from)],
        ),
    decreases tokens.len() - from,
{
    if from < tokens.len() && token_fits(tokens[from]) {
        lemma_first_misfit(tokens, from + 1);
    }
}

/// How to load a program: the commands to send, in order, and how the
/// load ends once they have been sent.
pub struct LoadPlan {
    /// The commands to send.
    pub commands: Vec<Vec<u8>>,
    /// `Ok` if the commands load the whole program. Otherwise the load
    /// stops after them with this error, and what they wrote stays in
    /// memory.
    pub outcome: Result<(), LibiguanaError>,
}

/// Encodes the bytes to send for one token. Fails, before anything is
/// encoded, exactly when the token asks for a write of more than 65535
/// bytes.
pub fn encode_token(token: &KmdparseToken) -> (result: Result<Vec<u8>, LibiguanaError>)
    ensures
        match result {
            Ok(command) => token_fits(*token) && command@ == token_command(*token),
            Err(error) => !token_fits(*token) && error is IntegerOverflow,
        },
{
    match token {
        KmdparseToken::Line { line } => match (&line.memory_address, &line.word) {
            (Some(address), Some(word)) => encode_write_memory(*address, word.as_bytes()),
            _ => Ok(Vec::new()),
        },
        _ => Ok(Vec::new()),
    }
}

/// Plans the load of a program. The commands are those of the tokens in
/// order, up to the first token whose write does not fit one command.
/// If there is such a token the load ends in an overflow error after
/// the commands before it: nothing is sent for it or for what follows,
/// and nothing is taken back.
pub fn plan_load(tokens: &[KmdparseToken]) -> (plan: LoadPlan)
    ensures
        contents(plan.commands@) == load_commands(tokens@.take(first_misfit(tokens@, 0))),
        match plan.outcome {
            Ok(_) => first_misfit(tokens@, 0) == tokens.len(),
            Err(error) => first_misfit(tokens@, 0) < tokens.len() && error is IntegerOverflow,
        },
{
    let mut commands: Vec<Vec<u8>> = Vec::new();
    let mut index: usize = 0;
    assert(tokens@.take(0) =~= Seq::empty());
    assert(contents(commands@) =~= Seq::<Seq<u8>>::empty());
    while index < tokens.len()
        invariant
            index <= tokens.len(),
            first_misfit(tokens@, 0) == first_misfit(tokens@, index as int),
            contents(commands@) == load_commands(tokens@.take(index as int)),
        decreases tokens.len() - index,
    {
        let ghost after = tokens@.take(index + 1);
        assert(after.drop_last() =~= tokens@.take(index as int));
        assert(after.last() == tokens@[index as int]);
        match encode_token(&tokens[index]) {
            Ok(command) => {
                if command.len() > 0 {
                    let ghost before = contents(commands@);
                    commands.push(command);
                    assert(contents(commands@) =~= before.push(command@));
                }
                index += 1;
            },
            Err(error) => {
                return LoadPlan { commands, outcome: Err(error) };
            },
        }
    }
    assert(tokens@.take(index as int) =~= tokens@);
    LoadPlan { commands, outcome: Ok(()) }
}

} // verus!
