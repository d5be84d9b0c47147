use vstd::prelude::*;

use crate::error::UdpSocketError;

verus! {

broadcast use vstd::array::group_array_axioms;

/// Capacity of the receive buffer, and so the largest message a channel reads whole.
pub const BUFFER_SIZE: usize = 512;

/// The buffer's contents before the first datagram arrives.
pub open spec fn zeroed() -> Seq<u8> {
    Seq::new(BUFFER_SIZE as nat, |i: int| 0u8)
}

/// What the buffer holds once `datagram` has arrived on top of `prev`: the
/// datagram, cut to the buffer's capacity, followed by whatever of `prev` it
/// did not overwrite.
pub open spec fn after_receive(prev: Seq<u8>, datagram: Seq<u8>) -> Seq<u8> {
    let n = if datagram.len() <= BUFFER_SIZE { datagram.len() as int } else { BUFFER_SIZE as int };
    datagram.subrange(0, n) + prev.subrange(n, prev.len() as int)
}

/// The fixed receive buffer of a channel. It is never resized, and each
/// datagram overwrites only as many bytes as it carries.
pub struct ReceiveBuffer {
    bytes: [u8; 512],
}

impl View for ReceiveBuffer {
    type V = Seq<u8>;

    closed spec fn view(&self) -> Seq<u8> {
        self.bytes@
    }
}

impl ReceiveBuffer {
    /// A buffer of `BUFFER_SIZE` zero bytes.
    pub fn new() -> (r: Self)
        ensures
            r@ == zeroed(),
    {
        let r = ReceiveBuffer { bytes: [0u8; 512] };
        assert(r@ =~= zeroed());
        r
    }

    /// Copies a received datagram to the front of the buffer and leaves the
    /// rest as it was. A datagram longer than the buffer is cut to fit.
    /// Returns the number of bytes copied.
    pub fn receive(&mut self, datagram: &[u8]) -> (n: usize)
        ensures
            n as int == if datagram@.len() <= BUFFER_SIZE { datagram@.len() as int } else { BUFFER_SIZE as int },
            final(self)@ == after_receive(old(self)@, datagram@),
    {
        let n: usize = if datagram.len() <= BUFFER_SIZE { datagram.len() } else { BUFFER_SIZE };
        self.overwrite_front(datagram, n);
        assert(self@ =~= after_receive(old(self)@, datagram@));
        n
    }

    /// Overwrites the first `n` bytes of the buffer with those of `src`.
    fn overwrite_front(&mut self, src: &[u8], n: usize)
        requires
            n <= BUFFER_SIZE,
            n <= src@.len(),
        ensures
            final(self)@ == src@.subrange(0, n as int) + old(self)@.subrange(n as int, BUFFER_SIZE as int),
    {
        let mut i: usize = 0;
        while i < n
            invariant
                n <= BUFFER_SIZE,
                n <= src@.len(),
                i <= n,
                self.bytes@.len() == BUFFER_SIZE,
                forall|j: int| 0 <= j < i ==> self.bytes@[j] == src@[j],
                forall|j: int| i <= j < BUFFER_SIZE ==> self.bytes@[j] == old(self).bytes@[j],
            decreases n - i,
        {
            self.bytes[i] = src[i];
            i = i + 1;
        }
        assert(self@ =~= src@.subrange(0, n as int) + old(self)@.subrange(n as int, BUFFER_SIZE as int));
    }

    /// Takes the outcome of one receive into `scratch`. On success, with `n`
    /// bytes received and the sender's address, the first `n` bytes of
    /// `scratch` go into the buffer as one datagram and the address is passed
    /// on. On failure the buffer is left as it was and the failure surfaces as
    /// an `IoError`.
    pub fn take<A>(
        &mut self,
        received: Result<(usize, A), std::io::Error>,
        scratch: &[u8],
    ) -> (r: Result<A, UdpSocketError>)
        requires
            received matches Ok((n, _)) ==> n <= scratch@.len(),
        ensures
            match received {
                Ok((n, from)) => {
                    &&& r == Ok::<A, UdpSocketError>(from)
                    &&& final(self)@ == after_receive(old(self)@, scratch@.subrange(0, n as int))
                },
                Err(e) => {
                    &&& r == Err::<A, UdpSocketError>(UdpSocketError::IoError(e))
                    &&& final(self)@ == old(self)@
                },
            },
    {
        match received {
            Ok((n, from)) => {
                let m: usize = if n <= BUFFER_SIZE { n } else { BUFFER_SIZE };
                self.overwrite_front(scratch, m);
                assert(final(self)@ =~= after_receive(old(self)@, scratch@.subrange(0, n as int)));
                Ok(from)
            },
            Err(e) => Err(UdpSocketError::from(e)),
        }
    }

    /// The bytes handed to the decoder: the whole buffer, including any bytes
    /// that the latest datagram did not overwrite.
    pub fn as_slice(&self) -> (r: &[u8])
        ensures
            r@ == self@,
            r@.len() == BUFFER_SIZE,
    {
        self.bytes.as_slice()
    }
}

/// A datagram that fits the buffer reaches the decoder whole, at the front of
/// its input, whatever the buffer held before.
pub proof fn lemma_fitting_datagram_arrives_whole(prev: Seq<u8>, datagram: Seq<u8>)
    requires
        prev.len() == BUFFER_SIZE,
        datagram.len() <= BUFFER_SIZE,
    ensures
        after_receive(prev, datagram).len() == BUFFER_SIZE,
        after_receive(prev, datagram).subrange(0, datagram.len() as int) == datagram,
{
    assert(after_receive(prev, datagram).subrange(0, datagram.len() as int) =~= datagram);
}

/// After a long datagram and then a shorter one, the decoder's input is the
/// short datagram followed by the bytes of the long one that lie beyond it,
/// and then the bytes that neither reached.
pub proof fn lemma_short_after_long_keeps_stale_tail(prev: Seq<u8>, long: Seq<u8>, short: Seq<u8>)
    requires
        prev.len() == BUFFER_SIZE,
        short.len() <= long.len() <= BUFFER_SIZE,
    ensures
        after_receive(after_receive(prev, long), short) == short + long.subrange(
            short.len() as int,
            long.len() as int,
        ) + prev.subrange(long.len() as int, BUFFER_SIZE as int),
{
    assert(after_receive(after_receive(prev, long), short) =~= short + long.subrange(
        short.len() as int,
        long.len() as int,
    ) + prev.subrange(long.len() as int, BUFFER_SIZE as int));
}

/// A datagram longer than the buffer is cut: the decoder sees only its first
/// `BUFFER_SIZE` bytes, never the whole datagram.
pub proof fn lemma_oversized_datagram_is_cut(prev: Seq<u8>, datagram: Seq<u8>)
    requires
        prev.len() == BUFFER_SIZE,
        datagram.len() > BUFFER_SIZE,
    ensures
        after_receive(prev, datagram) == datagram.subrange(0, BUFFER_SIZE as int),
        after_receive(prev, datagram) != datagram,
{
    assert(after_receive(prev, datagram) =~= datagram.subrange(0, BUFFER_SIZE as int));
}

} // verus!
