//! The read-path packet reassembler. Every USB bulk-read packet an FTDI
//! chip produces starts with two modem-status bytes that are not part of
//! the data stream; a transfer of several packets carries them at every
//! `max_packet_size` boundary. Reassembly excises them all, preserving the
//! payload bytes in order, contiguous and free of status bytes.
use vstd::prelude::*;

verus! {

/// The payload of a raw transfer buffer: the buffer falls into chunks of
/// `max_packet_size` bytes (the last one possibly shorter), each chunk loses
/// its two leading status bytes, and a chunk of two bytes or fewer carries
/// no payload at all.
pub open spec fn spec_strip_status(raw: Seq<u8>, max_packet_size: int) -> Seq<u8>
    decreases raw.len(),
    when max_packet_size > 2
{
    if raw.len() <= 2 {
        Seq::empty()
    } else if raw.len() <= max_packet_size {
        raw.skip(2)
    } else {
        raw.subrange(2, max_packet_size) + spec_strip_status(
            raw.skip(max_packet_size),
            max_packet_size,
        )
    }
}

/// Law: reassembly is compositional at packet boundaries. A transfer that
/// begins with one full packet decodes to that packet's payload — its two
/// status bytes removed — followed by the decoding of the remaining
/// packets, so payload bytes stay in order and no status byte survives.
pub proof fn lemma_strip_packet_boundary(packet: Seq<u8>, rest: Seq<u8>, max_packet_size: int)
    requires
        max_packet_size > 2,
        packet.len() == max_packet_size,
    ensures
        spec_strip_status(packet + rest, max_packet_size) == packet.skip(2) + spec_strip_status(
            rest,
            max_packet_size,
        ),
{
    let whole = packet + rest;
    if rest.len() == 0 {
        assert(whole =~= packet);
        assert(spec_strip_status(rest, max_packet_size) =~= Seq::<u8>::empty());
        assert(whole.skip(2) =~= packet.skip(2) + spec_strip_status(rest, max_packet_size));
    } else {
        assert(whole.len() > max_packet_size);
        assert(whole.subrange(2, max_packet_size) =~= packet.skip(2));
        assert(whole.skip(max_packet_size) =~= rest);
    }
}

/// Strips the two status bytes from every `max_packet_size`-aligned chunk of
/// a raw bulk-read buffer, returning the contiguous payload in the original
/// byte order.
pub fn strip_status_bytes(raw: &Vec<u8>, max_packet_size: usize) -> (out: Vec<u8>)
    requires
        max_packet_size > 2,
    ensures
        out@ == spec_strip_status(raw@, max_packet_size as int),
        out@.len() <= raw@.len(),
{
    let len = raw.len();
    let mut out: Vec<u8> = Vec::new();
    let mut start: usize = 0;
    proof {
        assert(raw@.skip(0) =~= raw@);
    }
    while start < len
        invariant
            max_packet_size > 2,
            len == raw@.len(),
            start <= len,
            out@.len() <= start,
            spec_strip_status(raw@, max_packet_size as int) =~= out@ + spec_strip_status(
                raw@.skip(start as int),
                max_packet_size as int,
            ),
        decreases len - start,
    {
        let remaining = len - start;
        let end = if remaining > max_packet_size {
            start + max_packet_size
        } else {
            len
        };
        let ghost prev_out = out@;
        let ghost prev_start = start as int;
        if remaining > 2 {
            // Copy this chunk's payload, skipping its two status bytes.
            let mut i = start + 2;
            proof {
                assert(out@ =~= prev_out + raw@.subrange(prev_start + 2, prev_start + 2));
            }
            while i < end
                invariant
                    0 <= prev_start,
                    prev_start + 2 <= i <= end,
                    end <= raw@.len(),
                    out@ =~= prev_out + raw@.subrange(prev_start + 2, i as int),
                decreases end - i,
            {
                let b = raw[i];
                out.push(b);
                proof {
                    assert(out@ =~= prev_out + raw@.subrange(prev_start + 2, i + 1));
                }
                i = i + 1;
            }
        }
        proof {
            let rest = raw@.skip(prev_start);
            let mps = max_packet_size as int;
            let appended = out@.skip(prev_out.len() as int);
            assert(out@ =~= prev_out + appended);
            if remaining > max_packet_size {
                assert(appended =~= raw@.subrange(prev_start + 2, prev_start + mps));
                assert(rest.subrange(2, mps) =~= appended);
                assert(rest.skip(mps) =~= raw@.skip(end as int));
                assert(spec_strip_status(rest, mps) =~= appended + spec_strip_status(
                    raw@.skip(end as int),
                    mps,
                ));
            } else if remaining > 2 {
                assert(appended =~= raw@.subrange(prev_start + 2, len as int));
                assert(rest.skip(2) =~= appended);
                assert(spec_strip_status(rest, mps) =~= appended);
                assert(raw@.skip(end as int) =~= Seq::<u8>::empty());
                assert(spec_strip_status(raw@.skip(end as int), mps) =~= Seq::<u8>::empty());
            } else {
                assert(rest.len() <= 2);
                assert(appended =~= Seq::<u8>::empty());
                assert(raw@.skip(end as int) =~= Seq::<u8>::empty());
                assert(spec_strip_status(raw@.skip(end as int), mps) =~= Seq::<u8>::empty());
            }
            assert(spec_strip_status(raw@, mps) =~= (prev_out + appended) + spec_strip_status(
                raw@.skip(end as int),
                mps,
            ));
        }
        start = end;
    }
    proof {
        assert(raw@.skip(len as int) =~= Seq::<u8>::empty());
    }
    out
}

} // verus!
