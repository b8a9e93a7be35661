//! The relay engine's accounting and its in-memory end-to-end behavior.

use clash_chain_patcher::proxy::relay::{
    combine_directions, relay_in_memory, run_copy_loop, CopyLoop, DirectionEnd, ReadEvent,
    RelayAction,
};

#[test]
fn test_relay_counters_match_bytes_fed() {
    // N = 5 bytes from A in two chunks, M = 3 bytes from B in one chunk.
    let a_input = vec![vec![1u8, 2, 3], vec![4u8, 5]];
    let b_input = vec![vec![9u8, 9, 9]];
    let (sent, received) = relay_in_memory(&a_input, &b_input);
    assert_eq!((sent, received), (5, 3));
}

#[test]
fn test_relay_empty_streams() {
    let none: Vec<Vec<u8>> = vec![];
    assert_eq!(relay_in_memory(&none, &none), (0, 0));
}

#[test]
fn test_copy_loop_accumulates() {
    let mut counter = CopyLoop::new();
    counter.on_chunk(4096);
    counter.on_chunk(4096);
    counter.on_chunk(1);
    assert_eq!(counter.total(), 8193);
    assert_eq!(run_copy_loop(&vec![vec![0u8; 8192], vec![0u8; 1]]), 8193);
}

#[test]
fn test_error_discards_both_counters() {
    assert_eq!(
        combine_directions(DirectionEnd::CleanEof(7), DirectionEnd::Failed),
        (0, 0)
    );
    assert_eq!(
        combine_directions(DirectionEnd::Failed, DirectionEnd::CleanEof(7)),
        (0, 0)
    );
    assert_eq!(
        combine_directions(DirectionEnd::CleanEof(7), DirectionEnd::CleanEof(9)),
        (7, 9)
    );
}

#[test]
fn test_copy_loop_step_decisions() {
    let mut counter = CopyLoop::new();
    assert_eq!(counter.on_read(ReadEvent::Data(5)), RelayAction::WriteThrough(5));
    assert_eq!(counter.on_read(ReadEvent::Data(3)), RelayAction::WriteThrough(3));
    assert_eq!(counter.total(), 8);
    assert_eq!(
        counter.on_read(ReadEvent::Eof),
        RelayAction::HalfCloseAndFinish(8)
    );
    assert_eq!(counter.on_read(ReadEvent::Failed), RelayAction::FinishFailed);
    assert_eq!(counter.total(), 8);
}
