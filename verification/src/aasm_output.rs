//! The boundary to the assembler: how it is invoked and what it hands
//! back. Running it is left to the owner of the session.

use vstd::prelude::*;
use vstd::utf8::{decode_utf8, encode_utf8, encode_utf8_decode_utf8, valid_utf8};
use crate::error::LibiguanaError;

verus! {

/// What one run of the assembler produced.
#[derive(Clone, Debug, PartialEq, Eq)]
pub struct AasmOutput {
    /// The program image, ready to be parsed and loaded.
    pub kmd: String,
    /// What the assembler printed for the user.
    pub aasm_terminal: String,
}

/// `String::from_utf8`: it succeeds exactly on byte sequences that are
/// valid UTF-8, and the string it then returns consists of those bytes.
#[verifier::external_body]
fn string_from_utf8(bytes: Vec<u8>) -> (result: Result<String, std::string::FromUtf8Error>)
    ensures
        result is Ok <==> valid_utf8(bytes@),
        result matches Ok(text) ==> encode_utf8(text@) == bytes@,
{
    String::from_utf8(bytes)
}

/// Checks that the tools of the assembler are in place, the executable
/// first: a missing executable is reported whether or not the mnemonics
/// file is there.
pub fn check_tools(aasm_exists: bool, mnemonics_exists: bool) -> (result: Result<
    (),
    LibiguanaError,
>)
    ensures
        result is Ok <==> aasm_exists && mnemonics_exists,
        !aasm_exists ==> result == Err::<(), LibiguanaError>(LibiguanaError::AasmDoesNotExist),
        aasm_exists && !mnemonics_exists ==> result == Err::<(), LibiguanaError>(
            LibiguanaError::MnemonicsDoesNotExist,
        ),
{
    if !aasm_exists {
        return Err(LibiguanaError::AasmDoesNotExist);
    }
    if !mnemonics_exists {
        return Err(LibiguanaError::MnemonicsDoesNotExist);
    }
    Ok(())
}

/// The arguments of one run of the assembler: write the listing to the
/// error stream, take the mnemonics from `mnemonics_path`, assemble
/// `source_path`.
pub open spec fn aasm_arguments(mnemonics_path: Seq<char>, source_path: Seq<char>) -> Seq<
    Seq<char>,
> {
    seq!["-lk"@, "/dev/stderr"@, "-m"@, mnemonics_path, source_path]
}

/// The text of each of `strings`.
pub open spec fn texts(strings: Seq<String>) -> Seq<Seq<char>> {
    Seq::new(strings.len(), |i: int| strings[i]@)
}

/// Builds the arguments of one run of the assembler.
pub fn build_aasm_arguments(mnemonics_path: &str, source_path: &str) -> (arguments: Vec<String>)
    ensures
        texts(arguments@) == aasm_arguments(mnemonics_path@, source_path@),
{
    let mut arguments: Vec<String> = Vec::new();
    arguments.push("-lk".to_owned());
    arguments.push("/dev/stderr".to_owned());
    arguments.push("-m".to_owned());
    arguments.push(mnemonics_path.to_owned());
    arguments.push(source_path.to_owned());
    assert(texts(arguments@) =~= aasm_arguments(mnemonics_path@, source_path@));
    arguments
}

impl AasmOutput {
    /// Decodes what the assembler wrote: the bytes of the program image
    /// and the bytes it printed for the user, each as UTF-8 text. Fails
    /// exactly when one of the two is not valid UTF-8.
    pub fn decode(kmd: Vec<u8>, aasm_terminal: Vec<u8>) -> (result: Result<
        AasmOutput,
        LibiguanaError,
    >)
        ensures
            match result {
                Ok(output) => {
                    &&& valid_utf8(kmd@)
                    &&& valid_utf8(aasm_terminal@)
                    &&& output.kmd@ == decode_utf8(kmd@)
                    &&& output.aasm_terminal@ == decode_utf8(aasm_terminal@)
                },
                Err(error) => !(valid_utf8(kmd@) && valid_utf8(aasm_terminal@))
                    && error is FromUtf8Error,
            },
    {
        let kmd_text = match string_from_utf8(kmd) {
            Ok(text) => text,
            Err(error) => {
                return Err(LibiguanaError::FromUtf8Error(error));
            },
        };
        let terminal_text = match string_from_utf8(aasm_terminal) {
            Ok(text) => text,
            Err(error) => {
                return Err(LibiguanaError::FromUtf8Error(error));
            },
        };
        proof {
            encode_utf8_decode_utf8(kmd_text@);
            encode_utf8_decode_utf8(terminal_text@);
        }
        Ok(AasmOutput { kmd: kmd_text, aasm_terminal: terminal_text })
    }
}

} // verus!
