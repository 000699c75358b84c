//! Channel multiplexer: many independent byte channels carried over one
//! ordered message transport, with port allocation, credit-based flow
//! control, half-close and fatal-error propagation.
//!
//! The protocol logic lives here as verified state machines. Driving the
//! transport, timers and user tasks is left to the embedding program, which
//! feeds events in and performs the actions that come back.

mod codec;
mod error;
mod fragment;
mod multiplexer;
mod number_allocator;
mod receive_buffer;
mod send_lock;
mod timeout;

pub use error::{term, ConnectError, MultiplexError, ReceiveError, SendError, Termination};
pub use number_allocator::{
    held_after, lemma_ports_unique, live_after, lowest_free, run_ports, AllocError, NumberAllocator,
    PortOp,
};
pub use send_lock::{
    lemma_grant_unblocks, lemma_reserves_within_credit, reserve_ok, reserve_run, total,
    SendLock,
};
pub use receive_buffer::{lemma_total_bytes_push, total_bytes, Pop, ReceiveBuffer, WindowExceeded};
pub use fragment::{fragment, fragments, lemma_fragments_join, reassemble, Reassembler};
pub use multiplexer::{
    lemma_data_kept_in_order, lemma_failure_reaches_every_channel, lemma_grant_releases_send,
    lemma_hangup_ends_stream, lemma_receiver_close_stops_sender, receive_error, send_error, state_of,
    Cfg, Channel, ChannelState, MultiplexMsg, Multiplexer, MuxEvent, MuxStatus, SendStep,
};
pub use codec::{
    be_bytes, be_value, byte_bound, canonical_bytes, canonical_i32, canonical_u32, canonical_u64,
    cbor_byte_items, cbor_bytes, cbor_head, cbor_int, cbor_uint, decode_byte_items, decoded_bytes,
    decoded_i32, decoded_u32, decoded_u64, head_len, head_value, lemma_be_round_trip,
    lemma_bytes_round_trip, lemma_head_round_trip, lemma_int_round_trip, Ciborium, DeserializationError,
};
pub use timeout::{due_at, key_of, not_handle, pending_at, Timer, TimeoutTracker};
