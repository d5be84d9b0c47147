//! A typed datagram channel: values go out as one datagram each and come back
//! through a fixed receive buffer that is reused from one read to the next.
//!
//! This library holds the parts of the channel that decide something: what the
//! receive buffer holds after each datagram, which bytes the decoder is handed,
//! and how failures are sorted into the two error kinds.

mod buffer;
mod error;

pub use buffer::{
    after_receive, lemma_fitting_datagram_arrives_whole, lemma_oversized_datagram_is_cut,
    lemma_short_after_long_keeps_stale_tail, zeroed, ReceiveBuffer, BUFFER_SIZE,
};
pub use error::{surface_codec, surface_io, UdpSocketError};
