use lnp_node::responder::{read_command, ParserGate, ResponderCommand, ResponderError};

fn parts(p: &[&[u8]]) -> Vec<Vec<u8>> {
    p.iter().map(|x| x.to_vec()).collect()
}

#[test]
fn commands() {
    assert_eq!(read_command(&parts(&[b"CLEAR"])), Ok(ResponderCommand::Clear));
    assert_eq!(read_command(&parts(&[b"BLOCK", b"\x01\x02"])), Ok(ResponderCommand::Block { data: vec![1, 2], multiple: false }));
    assert_eq!(read_command(&parts(&[b"BLOCKS", b"\x03"])), Ok(ResponderCommand::Block { data: vec![3], multiple: true }));
}

#[test]
fn command_errors() {
    assert_eq!(read_command(&vec![]), Err(ResponderError::WrongNumberOfArgs));
    assert_eq!(read_command(&parts(&[b"\xff\xfe"])), Err(ResponderError::MalformedRequest));
    assert_eq!(read_command(&parts(&[b"HELLO"])), Err(ResponderError::UknownRequest));
    assert_eq!(read_command(&parts(&[b"CLEAR", b"x"])), Err(ResponderError::WrongNumberOfArgs));
    assert_eq!(read_command(&parts(&[b"BLOCK"])), Err(ResponderError::WrongNumberOfArgs));
}

#[test]
fn parser_gate() {
    let mut g = ParserGate::default();
    assert!(g.take_block());
    assert!(!g.take_block());
    g.block_answered(&b"OK".to_vec());
    assert!(g.busy);
    g.block_answered(&b"ERR".to_vec());
    assert!(!g.busy);
    assert!(g.take_block());
}

use lnp_node::responder::{respond, ResponderStep};

#[test]
fn responder_steps() {
    let mut g = ParserGate::default();
    assert_eq!(respond(&mut g, ResponderCommand::Clear), ResponderStep::ToParser(vec![b"CLEAR".to_vec()]));
    assert!(!g.busy);
    assert_eq!(
        respond(&mut g, ResponderCommand::Block { data: vec![7], multiple: true }),
        ResponderStep::ToParser(vec![b"BLOCKS".to_vec(), vec![7]])
    );
    assert!(g.busy);
    assert_eq!(respond(&mut g, ResponderCommand::Block { data: vec![8], multiple: false }), ResponderStep::Reply(b"BUSY".to_vec()));
    g.block_answered(&b"ERR".to_vec());
    assert_eq!(
        respond(&mut g, ResponderCommand::Block { data: vec![8], multiple: false }),
        ResponderStep::ToParser(vec![b"BLOCK".to_vec(), vec![8]])
    );
}
