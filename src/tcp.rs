use vstd::prelude::*;

verus! {

/// Bit of `PktHeader::flags` that marks a SYN segment.
pub const FLAG_SYN: u8 = 2;

/// Bit of `PktHeader::flags` that marks an ACK segment.
pub const FLAG_ACK: u8 = 16;

/// Length of a TCP header without options.
pub const BASE_HEADER_LEN: usize = 20;

/// The fixed part of a TCP header, as carried on the wire.
#[derive(Clone, Copy, Debug, PartialEq, Eq, Structural)]
pub struct PktHeader {
    pub source_port: u16,
    pub dest_port: u16,
    pub sequence_number: u32,
    pub acknowlegement_number: u32,
    /// Top four bits: the header length in four-byte words.
    pub data_offset: u8,
    /// FIN, SYN, RST, PSH, ACK, URG, ECE, CWR, from the lowest bit up.
    pub flags: u8,
    pub window_size: u16,
    pub checksum: u16,
    pub urgent_pointer: u16,
}

/// Why a received segment was dropped.
#[derive(Clone, Copy, Debug, PartialEq, Eq, Structural)]
pub enum SegmentError {
    /// The packet ends inside the fixed header.
    Truncated,
    /// The header claims more bytes than the packet holds.
    BadHeaderLength,
}

/// The big-endian 16-bit number at `s[i..i + 2]`.
pub open spec fn be16(s: Seq<u8>, i: int) -> int {
    s[i] * 256 + s[i + 1]
}

/// The big-endian 32-bit number at `s[i..i + 4]`.
pub open spec fn be32(s: Seq<u8>, i: int) -> int {
    be16(s, i) * 65536 + be16(s, i + 2)
}

/// The header that the first twenty bytes of `s` encode.
pub open spec fn header_of(s: Seq<u8>) -> PktHeader {
    PktHeader {
        source_port: be16(s, 0) as u16,
        dest_port: be16(s, 2) as u16,
        sequence_number: be32(s, 4) as u32,
        acknowlegement_number: be32(s, 8) as u32,
        data_offset: s[12],
        flags: s[13],
        window_size: be16(s, 14) as u16,
        checksum: be16(s, 16) as u16,
        urgent_pointer: be16(s, 18) as u16,
    }
}

/// The header length, in bytes, that a header declares.
pub open spec fn header_size_of(h: PktHeader) -> int {
    (h.data_offset / 16) as int * 4
}

fn read_u16n(pkt: &[u8], i: usize) -> (r: u16)
    requires
        i + 2 <= pkt@.len(),
    ensures
        r == be16(pkt@, i as int),
{
    (pkt[i] as u16) * 256 + (pkt[i + 1] as u16)
}

fn read_u32n(pkt: &[u8], i: usize) -> (r: u32)
    requires
        i + 4 <= pkt@.len(),
        i <= BASE_HEADER_LEN,
    ensures
        r == be32(pkt@, i as int),
{
    let hi = read_u16n(pkt, i);
    let lo = read_u16n(pkt, i + 2);
    (hi as u32) * 65536 + (lo as u32)
}

impl PktHeader {
    /// Reads the fixed header at the start of `pkt`; fails when `pkt` is
    /// shorter than that.
    pub fn read(pkt: &[u8]) -> (r: Result<PktHeader, ()>)
        ensures
            pkt@.len() >= BASE_HEADER_LEN ==> r == Ok::<PktHeader, ()>(header_of(pkt@)),
            pkt@.len() < BASE_HEADER_LEN ==> r == Err::<PktHeader, ()>(()),
    {
        if pkt.len() < BASE_HEADER_LEN {
            return Err(());
        }
        Ok(PktHeader {
            source_port: read_u16n(pkt, 0),
            dest_port: read_u16n(pkt, 2),
            sequence_number: read_u32n(pkt, 4),
            acknowlegement_number: read_u32n(pkt, 8),
            data_offset: pkt[12],
            flags: pkt[13],
            window_size: read_u16n(pkt, 14),
            checksum: read_u16n(pkt, 16),
            urgent_pointer: read_u16n(pkt, 18),
        })
    }

    /// The header length, in bytes, including options.
    pub fn get_header_size(&self) -> (r: usize)
        ensures
            r == header_size_of(*self),
    {
        (self.data_offset / 16) as usize * 4
    }
}

/// Checks a received segment and finds where its data starts, past the
/// header and its options (which are skipped). A header length below the
/// fixed header's is read as the fixed header alone.
pub fn parse_segment(pkt: &[u8]) -> (r: Result<(PktHeader, usize), SegmentError>)
    ensures
        pkt@.len() < BASE_HEADER_LEN ==> r == Err::<(PktHeader, usize), SegmentError>(SegmentError::Truncated),
        pkt@.len() >= BASE_HEADER_LEN && header_size_of(header_of(pkt@)) > pkt@.len()
            ==> r == Err::<(PktHeader, usize), SegmentError>(SegmentError::BadHeaderLength),
        pkt@.len() >= BASE_HEADER_LEN && header_size_of(header_of(pkt@)) <= pkt@.len() ==> r == Ok::<
            (PktHeader, usize),
            SegmentError,
        >(
            (
                header_of(pkt@),
                if header_size_of(header_of(pkt@)) < BASE_HEADER_LEN {
                    BASE_HEADER_LEN
                } else {
                    header_size_of(header_of(pkt@)) as usize
                },
            ),
        ),
{
    let hdr = match PktHeader::read(pkt) {
        Ok(h) => h,
        Err(_) => return Err(SegmentError::Truncated),
    };
    let hdr_len = hdr.get_header_size();
    if hdr_len > pkt.len() {
        return Err(SegmentError::BadHeaderLength);
    }
    let start = if hdr_len < BASE_HEADER_LEN {
        BASE_HEADER_LEN
    } else {
        hdr_len
    };
    Ok((hdr, start))
}

} // verus!
