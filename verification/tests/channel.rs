use minimal_node::chain_spec::development_fee_params;
use minimal_node::channel::{
    SEAL_COMMAND_BUFFER, enqueue_tick, enqueue_timer_ticks, seal_command_channel, ticks_in_window,
};
use minimal_node::consensus::Consensus;
use minimal_node::pipeline::Account;
use minimal_node::scheduler::{Node, SealOutcome};

fn manual_node() -> Node {
    let accounts = vec![Account { nonce: 0, balance: 0 }, Account { nonce: 0, balance: 1000 }];
    Node::new(Consensus::ManualSeal(3000), 0, 1, 0, accounts, development_fee_params(), 1_000_000)
}

#[test]
fn a_window_holds_one_tick_per_full_interval() {
    assert_eq!(ticks_in_window(10_000, 3000), 3);
    assert_eq!(ticks_in_window(9000, 3000), 3);
    assert_eq!(ticks_in_window(2999, 3000), 0);
    assert_eq!(ticks_in_window(0, 1), 0);
}

#[test]
fn queued_ticks_are_processed_in_order_one_block_each() {
    let mut chan = seal_command_channel();
    let sent = enqueue_timer_ticks(&mut chan, 5);
    assert_eq!(sent, 5);
    let mut n = manual_node();
    let outcomes = n.drain_commands(&mut chan, 77);
    assert_eq!(outcomes.len(), 5);
    for (i, out) in outcomes.iter().enumerate() {
        assert_eq!(*out, SealOutcome::Sealed { hash: (i as u64) + 1, finalized: true });
    }
    assert_eq!(n.blocks.len(), 5);
    for (i, b) in n.blocks.iter().enumerate() {
        assert_eq!(b.number, (i as u64) + 1);
        assert_eq!(b.parent_hash, i as u64);
        assert_eq!(b.timestamp, 77);
        assert!(b.txs.is_empty());
    }
}

#[test]
fn draining_an_empty_channel_does_nothing() {
    let mut chan = seal_command_channel();
    let mut n = manual_node();
    let outcomes = n.drain_commands(&mut chan, 1);
    assert!(outcomes.is_empty());
    assert_eq!(n.blocks.len(), 0);
}

#[test]
fn ticks_accumulate_across_produce_attempts() {
    let mut chan = seal_command_channel();
    assert!(enqueue_tick(&mut chan).is_ok());
    assert!(enqueue_tick(&mut chan).is_ok());
    let mut n = manual_node();
    let outcomes = n.drain_commands(&mut chan, 5);
    assert_eq!(outcomes.len(), 2);
    assert_eq!(n.blocks.len(), 2);
}

#[test]
fn a_full_channel_surfaces_the_failed_tick() {
    let mut chan = seal_command_channel();
    let asked: u64 = (SEAL_COMMAND_BUFFER as u64) + 100;
    let sent = enqueue_timer_ticks(&mut chan, asked);
    // The queue takes more than its buffered size only by the sender's
    // one guaranteed slot, and refuses the rest.
    assert!(sent > SEAL_COMMAND_BUFFER as u64);
    assert!(sent <= SEAL_COMMAND_BUFFER as u64 + 1);
    assert!(sent < asked);
    assert!(enqueue_tick(&mut chan).is_err());
    // Every command that was accepted is still delivered, in order.
    let mut n = manual_node();
    let outcomes = n.drain_commands(&mut chan, 9);
    assert_eq!(outcomes.len(), sent as usize);
    assert_eq!(n.blocks.len(), sent as usize);
    // Once drained, the timer can produce again.
    assert!(enqueue_tick(&mut chan).is_ok());
}
