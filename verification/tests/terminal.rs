use libiguana::terminal::{
    encode_terminal_writes, TerminalPoll, TerminalStep, MAX_CHUNK_LEN, TERMINAL_WRITE_ACK_LEN,
};

fn message_of(len: usize) -> Vec<u8> {
    (0..len).map(|i| (i % 251) as u8).collect()
}

fn payloads(commands: &[Vec<u8>]) -> Vec<u8> {
    commands.iter().flat_map(|command| command[3..].to_vec()).collect()
}

#[test]
fn an_empty_message_needs_no_command() {
    assert!(encode_terminal_writes(&[]).is_empty());
    assert_eq!(MAX_CHUNK_LEN, 255);
    assert_eq!(TERMINAL_WRITE_ACK_LEN, 1);
}

#[test]
fn a_short_message_is_one_chunk() {
    let commands = encode_terminal_writes(b"hello");
    assert_eq!(commands, vec![vec![0x12, 0x00, 5, b'h', b'e', b'l', b'l', b'o']]);
}

#[test]
fn chunk_counts_round_up() {
    for (len, count) in [
        (0usize, 0usize),
        (1, 1),
        (254, 1),
        (255, 1),
        (256, 2),
        (509, 2),
        (510, 2),
        (511, 3),
        (600, 3),
        (765, 3),
        (766, 4),
        (10_000, 40),
    ] {
        let commands = encode_terminal_writes(&message_of(len));
        assert_eq!(commands.len(), count, "length {len}");
        assert_eq!(commands.len(), (len + 254) / 255);
    }
}

#[test]
fn each_chunk_is_framed_with_its_own_length() {
    let message = message_of(600);
    let commands = encode_terminal_writes(&message);
    assert_eq!(commands.len(), 3);
    for (index, command) in commands.iter().enumerate() {
        assert_eq!(command[0], 0x12);
        assert_eq!(command[1], 0x00);
        assert_eq!(usize::from(command[2]), command.len() - 3);
        let start = 255 * index;
        let end = usize::min(start + 255, message.len());
        assert_eq!(&command[3..], &message[start..end]);
    }
    assert_eq!(commands[0][2], 255);
    assert_eq!(commands[1][2], 255);
    assert_eq!(commands[2][2], 90);
}

#[test]
fn only_the_last_chunk_may_be_short() {
    for len in [1usize, 255, 256, 300, 510, 700, 1021] {
        let commands = encode_terminal_writes(&message_of(len));
        let (last, full) = commands.split_last().unwrap();
        assert!(full.iter().all(|command| command.len() == 258));
        assert!(last.len() > 3 && last.len() <= 258);
        assert_eq!(last.len() - 3, len - 255 * full.len());
    }
}

#[test]
fn the_chunks_join_to_the_message() {
    for len in [0usize, 1, 255, 256, 511, 1000] {
        let message = message_of(len);
        assert_eq!(payloads(&encode_terminal_writes(&message)), message);
    }
}

fn replay(fragments: &[Vec<u8>]) -> Vec<u8> {
    let mut poll = TerminalPoll::new();
    for fragment in fragments {
        let announced = u8::try_from(fragment.len()).unwrap();
        poll = match poll.on_length(announced) {
            TerminalStep::Fetch(fetch) => {
                assert_eq!(fetch.length(), announced);
                fetch.on_bytes(fragment)
            }
            TerminalStep::Done(_) => panic!("the read ended before the fragments did"),
        };
    }
    match poll.on_length(0) {
        TerminalStep::Done(output) => output,
        TerminalStep::Fetch(_) => panic!("a length of zero did not end the read"),
    }
}

#[test]
fn a_read_that_finds_nothing_is_empty() {
    assert_eq!(replay(&[]), Vec::<u8>::new());
}

#[test]
fn a_read_gathers_its_fragments_in_order() {
    let fragments = vec![b"Hello, ".to_vec(), b"world".to_vec(), b"!\n".to_vec()];
    assert_eq!(replay(&fragments), b"Hello, world!\n".to_vec());
}

#[test]
fn a_read_takes_fragments_of_every_length() {
    let fragments = vec![vec![1u8; 1], vec![2u8; 32], vec![3u8; 255], vec![4u8; 7]];
    let output = replay(&fragments);
    assert_eq!(output.len(), 1 + 32 + 255 + 7);
    assert_eq!(output, fragments.concat());
}

#[test]
fn a_zero_length_ends_the_read_at_once() {
    match TerminalPoll::new().on_length(0) {
        TerminalStep::Done(output) => assert!(output.is_empty()),
        TerminalStep::Fetch(_) => panic!("nothing was announced"),
    }
}

#[test]
fn a_nonzero_length_announces_a_fragment() {
    for length in [1u8, 2, 32, 128, 255] {
        match TerminalPoll::new().on_length(length) {
            TerminalStep::Fetch(fetch) => assert_eq!(fetch.length(), length),
            TerminalStep::Done(_) => panic!("length {length} ended the read"),
        }
    }
}
