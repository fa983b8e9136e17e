//! The process data exchanged with one servo drive each cycle.
//!
//! A drive's slot in the frame is packed and little-endian: first the
//! command image the controller sends (RX, 19 bytes), then the feedback image
//! the drive returns (TX, 6 bytes).
//!
//! | offset | width | field                          |
//! |-------:|------:|--------------------------------|
//! |      0 |     2 | RX `control_word`              |
//! |      2 |     4 | RX `target_position`           |
//! |      6 |     4 | RX `profile_velocity`          |
//! |     10 |     4 | RX `profile_acceleration`      |
//! |     14 |     4 | RX `profile_deceleration`      |
//! |     18 |     1 | RX `mode_of_operation`         |
//! |     19 |     2 | TX `status_word`               |
//! |     21 |     4 | TX `position_actual_value`     |

use vstd::prelude::*;
use crate::codec::{
    lemma_overlay_keeps_u16, lemma_overlay_keeps_u32, read_i32_le, read_u16_le, read_u32_le,
    spec_i32_le, spec_i32_to_le, spec_overlay, spec_u16_le, spec_u16_to_le, spec_u32_le,
    spec_u32_to_le, write_i32_le, write_u16_le, write_u32_le,
};

verus! {

/// Bytes of one command image.
pub const RX_PDO_SIZE: usize = 19;

/// Bytes of one feedback image.
pub const TX_PDO_SIZE: usize = 6;

/// Bytes of one drive slot: command image, then feedback image.
pub const PDO_SIZE: usize = 25;

/// Feedback a drive returns each cycle.
#[derive(Clone, Copy, Debug, PartialEq, Eq, Structural)]
pub struct ServoTxPdo {
    pub status_word: u16,
    pub position_actual_value: i32,
}

/// Command the controller sends to a drive each cycle.
#[derive(Clone, Copy, Debug, PartialEq, Eq, Structural)]
pub struct ServoRxPdo {
    pub control_word: u16,
    pub target_position: i32,
    pub profile_velocity: u32,
    pub profile_acceleration: u32,
    pub profile_deceleration: u32,
    pub mode_of_operation: u8,
}

/// One drive slot of the frame.
#[derive(Clone, Copy, Debug, PartialEq, Eq, Structural)]
pub struct ServoPdo {
    pub rx: ServoRxPdo,
    pub tx: ServoTxPdo,
}

impl ServoTxPdo {
    /// The feedback image stored at `s[at..at + 6]`.
    pub open spec fn spec_at(s: Seq<u8>, at: int) -> ServoTxPdo {
        ServoTxPdo {
            status_word: spec_u16_le(s, at) as u16,
            position_actual_value: spec_i32_le(s, at + 2) as i32,
        }
    }

    /// The six bytes that encode this feedback image.
    pub open spec fn spec_bytes(self) -> Seq<u8> {
        spec_u16_to_le(self.status_word as int) + spec_i32_to_le(
            self.position_actual_value as int,
        )
    }

    /// A feedback image that lies clear of an overlay reads as before.
    pub proof fn lemma_overlay_keeps(s: Seq<u8>, at: int, src: Seq<u8>, image: int)
        requires
            0 <= image,
            image + TX_PDO_SIZE <= s.len(),
            image + TX_PDO_SIZE <= at || at + src.len() <= image,
        ensures
            ServoTxPdo::spec_at(spec_overlay(s, at, src), image) == ServoTxPdo::spec_at(s, image),
    {
        lemma_overlay_keeps_u16(s, at, src, image);
        lemma_overlay_keeps_u32(s, at, src, image + 2);
    }

    /// Decodes the feedback image at byte offset `at`.
    pub fn read_from<const N: usize>(bytes: &[u8; N], at: usize) -> (tx: ServoTxPdo)
        requires
            at + TX_PDO_SIZE <= N,
        ensures
            tx == ServoTxPdo::spec_at(bytes@, at as int),
        no_unwind
    {
        ServoTxPdo {
            status_word: read_u16_le(bytes, at),
            position_actual_value: read_i32_le(bytes, at + 2),
        }
    }

    /// Encodes this feedback image at byte offset `at`; every byte outside
    /// `at..at + 6` is kept.
    pub fn write_to<const N: usize>(&self, bytes: &mut [u8; N], at: usize)
        requires
            at + TX_PDO_SIZE <= N,
        ensures
            final(bytes)@ == spec_overlay(old(bytes)@, at as int, self.spec_bytes()),
            ServoTxPdo::spec_at(final(bytes)@, at as int) == *self,
        no_unwind
    {
        write_u16_le(bytes, at, self.status_word);
        write_i32_le(bytes, at + 2, self.position_actual_value);
        assert(bytes@ =~= spec_overlay(old(bytes)@, at as int, self.spec_bytes()));
    }
}

impl ServoRxPdo {
    /// The command image stored at `s[at..at + 19]`.
    pub open spec fn spec_at(s: Seq<u8>, at: int) -> ServoRxPdo {
        ServoRxPdo {
            control_word: spec_u16_le(s, at) as u16,
            target_position: spec_i32_le(s, at + 2) as i32,
            profile_velocity: spec_u32_le(s, at + 6) as u32,
            profile_acceleration: spec_u32_le(s, at + 10) as u32,
            profile_deceleration: spec_u32_le(s, at + 14) as u32,
            mode_of_operation: s[at + 18],
        }
    }

    /// The nineteen bytes that encode this command image.
    pub open spec fn spec_bytes(self) -> Seq<u8> {
        spec_u16_to_le(self.control_word as int) + spec_i32_to_le(self.target_position as int)
            + spec_u32_to_le(self.profile_velocity as int) + spec_u32_to_le(
            self.profile_acceleration as int,
        ) + spec_u32_to_le(self.profile_deceleration as int) + seq![self.mode_of_operation]
    }

    /// A command image that lies clear of an overlay reads as before.
    pub proof fn lemma_overlay_keeps(s: Seq<u8>, at: int, src: Seq<u8>, image: int)
        requires
            0 <= image,
            image + RX_PDO_SIZE <= s.len(),
            image + RX_PDO_SIZE <= at || at + src.len() <= image,
        ensures
            ServoRxPdo::spec_at(spec_overlay(s, at, src), image) == ServoRxPdo::spec_at(s, image),
    {
        lemma_overlay_keeps_u16(s, at, src, image);
        lemma_overlay_keeps_u32(s, at, src, image + 2);
        lemma_overlay_keeps_u32(s, at, src, image + 6);
        lemma_overlay_keeps_u32(s, at, src, image + 10);
        lemma_overlay_keeps_u32(s, at, src, image + 14);
    }

    /// Decodes the command image at byte offset `at`.
    pub fn read_from<const N: usize>(bytes: &[u8; N], at: usize) -> (rx: ServoRxPdo)
        requires
            at + RX_PDO_SIZE <= N,
        ensures
            rx == ServoRxPdo::spec_at(bytes@, at as int),
        no_unwind
    {
        ServoRxPdo {
            control_word: read_u16_le(bytes, at),
            target_position: read_i32_le(bytes, at + 2),
            profile_velocity: read_u32_le(bytes, at + 6),
            profile_acceleration: read_u32_le(bytes, at + 10),
            profile_deceleration: read_u32_le(bytes, at + 14),
            mode_of_operation: bytes[at + 18],
        }
    }

    /// Encodes this command image at byte offset `at`; every byte outside
    /// `at..at + 19` is kept.
    pub fn write_to<const N: usize>(&self, bytes: &mut [u8; N], at: usize)
        requires
            at + RX_PDO_SIZE <= N,
        ensures
            final(bytes)@ == spec_overlay(old(bytes)@, at as int, self.spec_bytes()),
            ServoRxPdo::spec_at(final(bytes)@, at as int) == *self,
        no_unwind
    {
        write_u16_le(bytes, at, self.control_word);
        write_i32_le(bytes, at + 2, self.target_position);
        write_u32_le(bytes, at + 6, self.profile_velocity);
        write_u32_le(bytes, at + 10, self.profile_acceleration);
        write_u32_le(bytes, at + 14, self.profile_deceleration);
        bytes[at + 18] = self.mode_of_operation;
        assert(bytes@ =~= spec_overlay(old(bytes)@, at as int, self.spec_bytes()));
    }
}

impl ServoPdo {
    /// The drive slot stored at `s[at..at + 25]`.
    pub open spec fn spec_at(s: Seq<u8>, at: int) -> ServoPdo {
        ServoPdo {
            rx: ServoRxPdo::spec_at(s, at),
            tx: ServoTxPdo::spec_at(s, at + RX_PDO_SIZE as int),
        }
    }

    /// Decodes one drive slot from its packed bytes.
    pub fn from_bytes(bytes: &[u8; 25]) -> (pdo: ServoPdo)
        ensures
            pdo == ServoPdo::spec_at(bytes@, 0),
        no_unwind
    {
        ServoPdo {
            rx: ServoRxPdo::read_from(bytes, 0),
            tx: ServoTxPdo::read_from(bytes, RX_PDO_SIZE),
        }
    }

    /// Encodes this drive slot as its packed bytes.
    pub fn to_bytes(&self) -> (bytes: [u8; 25])
        ensures
            ServoPdo::spec_at(bytes@, 0) == *self,
            bytes@ == self.rx.spec_bytes() + self.tx.spec_bytes(),
    {
        let mut bytes: [u8; 25] = [0u8; 25];
        self.rx.write_to(&mut bytes, 0);
        self.tx.write_to(&mut bytes, RX_PDO_SIZE);
        assert(bytes@ =~= self.rx.spec_bytes() + self.tx.spec_bytes());
        bytes
    }
}

} // verus!
