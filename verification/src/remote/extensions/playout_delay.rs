//! The playout delay header extension: a hint to the receiver of how long to
//! hold frames before it shows them. On the wire it is three bytes, two
//! fields of twelve bits each.
use vstd::prelude::*;

verus! {

/// Bytes of the extension on the wire.
pub const PLAYOUT_DELAY_EXTENSION_SIZE: usize = 3;

/// The largest delay that has room on the wire.
pub const PLAYOUT_DELAY_MAX: u16 = 0x0fff;

/// Why the extension could not be read or written.
#[derive(Debug, Clone, Copy, PartialEq, Eq, Structural)]
pub enum PlayoutDelayError {
    /// The buffer has fewer than three bytes.
    BufferTooSmall,
}

/// An RTP extension that gives the receiver a hint for its jitter buffer
/// delay. The delays count in units of 10 ms.
#[derive(Debug, Clone, Copy, PartialEq, Eq, Structural)]
pub struct PlayoutDelayExtension {
    pub min_delay: u16,
    pub max_delay: u16,
}

/// The extension that three bytes spell: the first byte and the high half of
/// the second are the minimum, the low half of the second and the third are
/// the maximum.
pub open spec fn decoded(b0: u8, b1: u8, b2: u8) -> PlayoutDelayExtension {
    PlayoutDelayExtension {
        min_delay: (((b0 as u16) << 8) | (b1 as u16)) >> 4,
        max_delay: (((b1 as u16) << 8) | (b2 as u16)) & 0x0fff,
    }
}

impl PlayoutDelayExtension {
    /// The three bytes that spell the extension. A delay above 4095 has no
    /// room: of the minimum the low twelve bits are written, and the high
    /// bits of the maximum are laid over the low bits of the minimum.
    pub open spec fn encoded(self) -> Seq<u8> {
        seq![
            ((self.min_delay >> 4) & 0xff) as u8,
            (((self.min_delay << 4) & 0xff) | (self.max_delay >> 8)) as u8,
            (self.max_delay & 0xff) as u8,
        ]
    }

    /// Delays that have room on the wire.
    pub open spec fn fits(self) -> bool {
        self.min_delay <= PLAYOUT_DELAY_MAX && self.max_delay <= PLAYOUT_DELAY_MAX
    }

    pub fn new(min_delay: u16, max_delay: u16) -> (extension: Self)
        ensures
            extension.min_delay == min_delay,
            extension.max_delay == max_delay,
    {
        PlayoutDelayExtension { min_delay, max_delay }
    }

    /// Reads the extension from the first three bytes of `buf`.
    pub fn unmarshal(buf: &[u8]) -> (read: Result<PlayoutDelayExtension, PlayoutDelayError>)
        ensures
            buf@.len() < PLAYOUT_DELAY_EXTENSION_SIZE ==> read == Err::<
                PlayoutDelayExtension,
                PlayoutDelayError,
            >(PlayoutDelayError::BufferTooSmall),
            buf@.len() >= PLAYOUT_DELAY_EXTENSION_SIZE ==> read == Ok::<
                PlayoutDelayExtension,
                PlayoutDelayError,
            >(decoded(buf@[0], buf@[1], buf@[2])),
    {
        if buf.len() < PLAYOUT_DELAY_EXTENSION_SIZE {
            return Err(PlayoutDelayError::BufferTooSmall);
        }
        let b0 = buf[0];
        let b1 = buf[1];
        let b2 = buf[2];
        let min_delay: u16 = (((b0 as u16) << 8) | (b1 as u16)) >> 4;
        let max_delay: u16 = (((b1 as u16) << 8) | (b2 as u16)) & 0x0fff;
        Ok(PlayoutDelayExtension { min_delay, max_delay })
    }

    /// Bytes that `marshal_to` writes.
    pub fn marshal_size(&self) -> (size: usize)
        ensures
            size == PLAYOUT_DELAY_EXTENSION_SIZE,
    {
        PLAYOUT_DELAY_EXTENSION_SIZE
    }

    /// Writes the extension to the first three bytes of `buf` and says how
    /// many bytes were written. A buffer of fewer than three bytes is left
    /// as it is.
    pub fn marshal_to(&self, buf: &mut [u8]) -> (written: Result<usize, PlayoutDelayError>)
        ensures
            old(buf)@.len() < PLAYOUT_DELAY_EXTENSION_SIZE ==> written == Err::<
                usize,
                PlayoutDelayError,
            >(PlayoutDelayError::BufferTooSmall) && final(buf)@ == old(buf)@,
            old(buf)@.len() >= PLAYOUT_DELAY_EXTENSION_SIZE ==> written == Ok::<
                usize,
                PlayoutDelayError,
            >(PLAYOUT_DELAY_EXTENSION_SIZE) && final(buf)@ == self.encoded() + old(buf)@.skip(
                PLAYOUT_DELAY_EXTENSION_SIZE as int,
            ),
    {
        if buf.len() < PLAYOUT_DELAY_EXTENSION_SIZE {
            return Err(PlayoutDelayError::BufferTooSmall);
        }
        let min_delay = self.min_delay;
        let max_delay = self.max_delay;
        let b0: u16 = (min_delay >> 4) & 0xff;
        let b1: u16 = ((min_delay << 4) & 0xff) | (max_delay >> 8);
        let b2: u16 = max_delay & 0xff;
        assert(b0 <= 0xff && b1 <= 0xff && b2 <= 0xff) by (bit_vector)
            requires
                b0 == (min_delay >> 4) & 0xff,
                b1 == ((min_delay << 4) & 0xff) | (max_delay >> 8),
                b2 == max_delay & 0xff,
        ;
        buf[0] = b0 as u8;
        buf[1] = b1 as u8;
        buf[2] = b2 as u8;
        assert(buf@ =~= self.encoded() + old(buf)@.skip(PLAYOUT_DELAY_EXTENSION_SIZE as int));
        Ok(PLAYOUT_DELAY_EXTENSION_SIZE)
    }
}

/// What is written is read back as it was, as long as both delays have room
/// on the wire.
pub proof fn lemma_marshal_round_trip(extension: PlayoutDelayExtension)
    requires
        extension.fits(),
    ensures
        decoded(extension.encoded()[0], extension.encoded()[1], extension.encoded()[2])
            == extension,
{
    let min_delay = extension.min_delay;
    let max_delay = extension.max_delay;
    let b0 = ((min_delay >> 4) & 0xff) as u8;
    let b1 = (((min_delay << 4) & 0xff) | (max_delay >> 8)) as u8;
    let b2 = (max_delay & 0xff) as u8;
    assert((((b0 as u16) << 8) | (b1 as u16)) >> 4 == min_delay && (((b1 as u16) << 8) | (
    b2 as u16)) & 0x0fff == max_delay) by (bit_vector)
        requires
            min_delay <= 0x0fff,
            max_delay <= 0x0fff,
            b0 == ((min_delay >> 4) & 0xff) as u8,
            b1 == (((min_delay << 4) & 0xff) | (max_delay >> 8)) as u8,
            b2 == (max_delay & 0xff) as u8,
    ;
}

/// What is read has room on the wire, and is written back as the same three
/// bytes.
pub proof fn lemma_unmarshal_round_trip(b0: u8, b1: u8, b2: u8)
    ensures
        decoded(b0, b1, b2).fits(),
        decoded(b0, b1, b2).encoded() == seq![b0, b1, b2],
{
    let min_delay: u16 = (((b0 as u16) << 8) | (b1 as u16)) >> 4;
    let max_delay: u16 = (((b1 as u16) << 8) | (b2 as u16)) & 0x0fff;
    assert(min_delay <= 0x0fff && max_delay <= 0x0fff && ((min_delay >> 4) & 0xff) as u8 == b0
        && (((min_delay << 4) & 0xff) | (max_delay >> 8)) as u8 == b1 && (max_delay & 0xff) as u8
        == b2) by (bit_vector)
        requires
            min_delay == (((b0 as u16) << 8) | (b1 as u16)) >> 4,
            max_delay == (((b1 as u16) << 8) | (b2 as u16)) & 0x0fff,
    ;
    assert(decoded(b0, b1, b2).encoded() =~= seq![b0, b1, b2]);
}

} // verus!
