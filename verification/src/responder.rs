//! The block-parsing API responder: reading client commands sent as
//! multipart messages, and keeping the parser from taking a new block while
//! it is busy with one.
use vstd::prelude::*;
use crate::service::utf8_valid;

verus! {

/// Errors of the API responder.
#[derive(Clone, PartialEq, Eq, Debug)]
pub enum ResponderError {
    /// the client socket failed, by its description
    APISocketError(String),
    /// the parser socket failed, by its description
    ParserIPCError(String),
    /// the command is none of the known ones
    UknownRequest,
    /// the command is not UTF-8 text
    MalformedRequest,
    /// the command has not the arguments it needs
    WrongNumberOfArgs,
}

/// Commands of the API.
#[derive(Clone, PartialEq, Eq, Debug)]
pub enum ResponderCommand {
    /// clear the parser state
    Clear,
    /// parse one block (`BLOCK`) or several (`BLOCKS`) from the data
    Block { data: Vec<u8>, multiple: bool },
}

/// The command a multipart request makes: its first part names the command,
/// the others are its arguments. `CLEAR` takes none, `BLOCK` and `BLOCKS`
/// one, the block data.
pub open spec fn command_spec(parts: Seq<Vec<u8>>) -> Result<ResponderCommand, ResponderError> {
    if parts.len() == 0 {
        Err(ResponderError::WrongNumberOfArgs)
    } else if !vstd::utf8::valid_utf8(parts[0]@) {
        Err(ResponderError::MalformedRequest)
    } else if parts[0]@ == "CLEAR"@.map_values(|c: char| c as u8) {
        if parts.len() == 1 { Ok(ResponderCommand::Clear) } else { Err(ResponderError::WrongNumberOfArgs) }
    } else if parts[0]@ == "BLOCK"@.map_values(|c: char| c as u8) || parts[0]@ == "BLOCKS"@.map_values(|c: char| c as u8) {
        if parts.len() == 2 {
            Ok(ResponderCommand::Block { data: parts[1], multiple: parts[0]@.len() == 6 })
        } else {
            Err(ResponderError::WrongNumberOfArgs)
        }
    } else {
        Err(ResponderError::UknownRequest)
    }
}

/// Whether the bytes are those of an ASCII word.
fn is_word(bytes: &Vec<u8>, word: &[u8]) -> (r: bool)
    ensures
        r == (bytes@ == word@),
{
    if bytes.len() != word.len() {
        return false;
    }
    let mut i: usize = 0;
    while i < bytes.len()
        invariant
            i <= bytes.len(),
            bytes.len() == word.len(),
            forall|j: int| 0 <= j < i ==> bytes@[j] == word@[j],
        decreases bytes.len() - i,
    {
        if bytes[i] != word[i] {
            return false;
        }
        i = i + 1;
    }
    proof {
        assert(bytes@ =~= word@);
    }
    true
}

/// Copies bytes.
fn copy_part(b: &Vec<u8>) -> (r: Vec<u8>)
    ensures
        r@ == b@,
{
    let mut out: Vec<u8> = Vec::new();
    let mut i: usize = 0;
    while i < b.len()
        invariant
            i <= b.len(),
            out@ == b@.take(i as int),
        decreases b.len() - i,
    {
        out.push(b[i]);
        i = i + 1;
        proof {
            assert(out@ =~= b@.take(i as int));
        }
    }
    proof {
        assert(b@.take(b.len() as int) =~= b@);
    }
    out
}

/// Reads the command of a multipart request.
pub fn read_command(parts: &Vec<Vec<u8>>) -> (r: Result<ResponderCommand, ResponderError>)
    ensures
        match (r, command_spec(parts@)) {
            (Ok(ResponderCommand::Block { data, multiple }), Ok(ResponderCommand::Block { data: d, multiple: m })) =>
                data@ == d@ && multiple == m,
            (a, b) => a == b,
        },
{
    if parts.len() == 0 {
        return Err(ResponderError::WrongNumberOfArgs);
    }
    let cmd = &parts[0];
    if !utf8_valid(cmd.as_slice()) {
        return Err(ResponderError::MalformedRequest);
    }
    let clear: [u8; 5] = [67, 76, 69, 65, 82];
    let block: [u8; 5] = [66, 76, 79, 67, 75];
    let blocks: [u8; 6] = [66, 76, 79, 67, 75, 83];
    proof {
        reveal_strlit("CLEAR");
        reveal_strlit("BLOCK");
        reveal_strlit("BLOCKS");
        assert(clear@ =~= "CLEAR"@.map_values(|c: char| c as u8));
        assert(block@ =~= "BLOCK"@.map_values(|c: char| c as u8));
        assert(blocks@ =~= "BLOCKS"@.map_values(|c: char| c as u8));
    }
    if is_word(cmd, &clear) {
        if parts.len() == 1 {
            Ok(ResponderCommand::Clear)
        } else {
            Err(ResponderError::WrongNumberOfArgs)
        }
    } else if is_word(cmd, &block) || is_word(cmd, &blocks) {
        if parts.len() == 2 {
            let multiple = cmd.len() == 6;
            Ok(ResponderCommand::Block { data: copy_part(&parts[1]), multiple })
        } else {
            Err(ResponderError::WrongNumberOfArgs)
        }
    } else {
        Err(ResponderError::UknownRequest)
    }
}

/// The parser's availability: busy from the moment a block is handed to it
/// until it answers `ERR`.
#[derive(Copy, Clone, PartialEq, Eq, Structural, Debug, Hash, Default)]
pub struct ParserGate {
    pub busy: bool,
}

impl ParserGate {
    /// Whether a block can be handed to the parser now; if so the parser is
    /// busy from now on. A busy parser makes the client wait (`BUSY`).
    pub fn take_block(&mut self) -> (r: bool)
        ensures
            r == !old(self).busy,
            final(self).busy,
    {
        if self.busy {
            false
        } else {
            self.busy = true;
            true
        }
    }

    /// The parser answered a block: an `ERR` answer frees it, any other
    /// leaves it busy.
    pub fn block_answered(&mut self, answer: &Vec<u8>)
        ensures
            final(self).busy == (old(self).busy && answer@ != "ERR"@.map_values(|c: char| c as u8)),
    {
        let err: [u8; 3] = [69, 82, 82];
        proof {
            reveal_strlit("ERR");
            assert(err@ =~= "ERR"@.map_values(|c: char| c as u8));
        }
        if is_word(answer, &err) {
            self.busy = false;
        }
    }
}


/// Bytes of an ASCII word.
pub open spec fn word(text: Seq<char>) -> Seq<u8> {
    text.map_values(|c: char| c as u8)
}

/// What the responder does with a command.
#[derive(Clone, PartialEq, Eq, Debug)]
pub enum ResponderStep {
    /// answer the client directly
    Reply(Vec<u8>),
    /// send the parts to the parser and relay its answer
    ToParser(Vec<Vec<u8>>),
}

/// Copies bytes of a word.
fn word_bytes(w: &[u8]) -> (r: Vec<u8>)
    ensures
        r@ == w@,
{
    let mut out: Vec<u8> = Vec::new();
    let mut i: usize = 0;
    while i < w.len()
        invariant
            i <= w.len(),
            out@ == w@.take(i as int),
        decreases w.len() - i,
    {
        out.push(w[i]);
        i = i + 1;
        proof {
            assert(out@ =~= w@.take(i as int));
        }
    }
    proof {
        assert(w@.take(w.len() as int) =~= w@);
    }
    out
}

/// What the responder does with a command: `CLEAR` goes to the parser; a
/// block goes to the parser as `BLOCK` or `BLOCKS` with its data when the
/// parser is free, making it busy, and is answered `BUSY` when it is busy.
pub fn respond(gate: &mut ParserGate, cmd: ResponderCommand) -> (r: ResponderStep)
    ensures
        match cmd {
            ResponderCommand::Clear => {
                &&& *final(gate) == *old(gate)
                &&& r matches ResponderStep::ToParser(parts) && parts@.len() == 1 && parts@[0]@ == word("CLEAR"@)
            },
            ResponderCommand::Block { data, multiple } => if old(gate).busy {
                &&& *final(gate) == *old(gate)
                &&& r matches ResponderStep::Reply(b) && b@ == word("BUSY"@)
            } else {
                &&& final(gate).busy
                &&& r matches ResponderStep::ToParser(parts) && parts@.len() == 2
                    && parts@[0]@ == word(if multiple { "BLOCKS"@ } else { "BLOCK"@ })
                    && parts@[1]@ == data@
            },
        },
{
    proof {
        reveal_strlit("CLEAR");
        reveal_strlit("BUSY");
        reveal_strlit("BLOCK");
        reveal_strlit("BLOCKS");
    }
    match cmd {
        ResponderCommand::Clear => {
            let clear: [u8; 5] = [67, 76, 69, 65, 82];
            proof {
                assert(clear@ =~= word("CLEAR"@));
            }
            let mut parts: Vec<Vec<u8>> = Vec::new();
            parts.push(word_bytes(&clear));
            ResponderStep::ToParser(parts)
        }
        ResponderCommand::Block { data, multiple } => {
            if !gate.take_block() {
                let busy: [u8; 4] = [66, 85, 83, 89];
                proof {
                    assert(busy@ =~= word("BUSY"@));
                }
                return ResponderStep::Reply(word_bytes(&busy));
            }
            let name = if multiple {
                let blocks: [u8; 6] = [66, 76, 79, 67, 75, 83];
                proof {
                    assert(blocks@ =~= word("BLOCKS"@));
                }
                word_bytes(&blocks)
            } else {
                let block: [u8; 5] = [66, 76, 79, 67, 75];
                proof {
                    assert(block@ =~= word("BLOCK"@));
                }
                word_bytes(&block)
            };
            let mut parts: Vec<Vec<u8>> = Vec::new();
            parts.push(name);
            parts.push(data);
            ResponderStep::ToParser(parts)
        }
    }
}

} // verus!
