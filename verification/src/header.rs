//! The fixed-layout boot header consumed by the mask-ROM loader, and the
//! compressed header-skip jump that precedes it in the image.
//!
//! The header is pure data: eight magic bytes identifying the image format,
//! a checksum and length slot patched by an external tool after linking, a
//! block of loader metadata words, and a pool of thirteen reserved words.
//! Its correctness is structural, so serialization to the exact wire layout
//! is the verified operation.

use vstd::prelude::*;

verus! {

/// Size in bytes of the serialized header block.
pub const HEAD_DATA_SIZE: usize = 92;

/// Bytes occupied by the header-skip jump slot in front of the header
/// (one compressed jump plus its padding).
pub const HEAD_JUMP_BYTES: usize = 4;

/// Placeholder written into the checksum slot; the real checksum is patched
/// in by the external image tool after linking.
pub const STAMP_CHECKSUM: u32 = 0x5F0A6C39;

/// The boot header block, in field order of the wire layout.
/// All multi-byte fields are serialized little-endian.
pub struct HeadData {
    pub magic: [u8; 8],
    pub checksum: u32,
    pub length: u32,
    pub pub_head_size: u32,
    pub fel_script_address: u32,
    pub fel_uenv_length: u32,
    pub dt_name_offset: u32,
    pub dram_size: u32,
    pub boot_media: u32,
    pub string_pool: [u32; 13],
}

/// The eight magic bytes: the ASCII text `eGON.BT0`.
pub open spec fn spec_magic() -> Seq<u8> {
    seq![0x65u8, 0x47u8, 0x4Fu8, 0x4Eu8, 0x2Eu8, 0x42u8, 0x54u8, 0x30u8]
}

/// Little-endian byte serialization of one 32-bit word.
pub open spec fn u32_le(x: u32) -> Seq<u8> {
    seq![
        (x & 0xff) as u8,
        ((x >> 8) & 0xff) as u8,
        ((x >> 16) & 0xff) as u8,
        ((x >> 24) & 0xff) as u8,
    ]
}

/// Serialization of the reserved word pool, word by word, little-endian.
pub open spec fn pool_bytes(p: Seq<u32>) -> Seq<u8>
    decreases p.len(),
{
    if p.len() == 0 {
        Seq::empty()
    } else {
        pool_bytes(p.drop_last()) + u32_le(p.last())
    }
}

pub proof fn lemma_pool_bytes_len(p: Seq<u32>)
    ensures
        pool_bytes(p).len() == 4 * p.len(),
    decreases p.len(),
{
    if p.len() > 0 {
        lemma_pool_bytes_len(p.drop_last());
    }
}

/// The full wire layout of the header: magic, checksum, length, the loader
/// metadata words, then the reserved pool.
pub open spec fn spec_serialize(h: HeadData) -> Seq<u8> {
    h.magic@ + u32_le(h.checksum) + u32_le(h.length) + u32_le(h.pub_head_size)
        + u32_le(h.fel_script_address) + u32_le(h.fel_uenv_length) + u32_le(h.dt_name_offset)
        + u32_le(h.dram_size) + u32_le(h.boot_media) + pool_bytes(h.string_pool@)
}

impl HeadData {
    /// The header as placed in the image at build time: magic set, the
    /// checksum slot holding the placeholder stamp, every other field zero.
    pub fn build_time() -> (h: HeadData)
        ensures
            h.magic@ == spec_magic(),
            h.checksum == STAMP_CHECKSUM,
            h.length == 0,
            h.pub_head_size == 0,
            h.fel_script_address == 0,
            h.fel_uenv_length == 0,
            h.dt_name_offset == 0,
            h.dram_size == 0,
            h.boot_media == 0,
            h.string_pool@ == Seq::new(13, |i: int| 0u32),
    {
        let h = HeadData {
            magic: [0x65u8, 0x47u8, 0x4Fu8, 0x4Eu8, 0x2Eu8, 0x42u8, 0x54u8, 0x30u8],
            checksum: STAMP_CHECKSUM,
            length: 0,
            pub_head_size: 0,
            fel_script_address: 0,
            fel_uenv_length: 0,
            dt_name_offset: 0,
            dram_size: 0,
            boot_media: 0,
            string_pool: [0u32; 13],
        };
        proof {
            assert(h.magic@ =~= spec_magic());
            assert(h.string_pool@ =~= Seq::new(13, |i: int| 0u32));
        }
        h
    }

    /// Serialize the header to its exact wire layout.
    pub fn serialize(&self) -> (r: Vec<u8>)
        ensures
            r@ == spec_serialize(*self),
            r@.len() == HEAD_DATA_SIZE,
    {
        let mut out: Vec<u8> = Vec::new();
        let mut i: usize = 0;
        while i < 8
            invariant
                i <= 8,
                out@ == self.magic@.subrange(0, i as int),
            decreases 8 - i,
        {
            out.push(self.magic[i]);
            proof {
                assert(out@ =~= self.magic@.subrange(0, i + 1));
            }
            i = i + 1;
        }
        proof {
            assert(out@ =~= self.magic@);
        }
        push_u32_le(&mut out, self.checksum);
        push_u32_le(&mut out, self.length);
        push_u32_le(&mut out, self.pub_head_size);
        push_u32_le(&mut out, self.fel_script_address);
        push_u32_le(&mut out, self.fel_uenv_length);
        push_u32_le(&mut out, self.dt_name_offset);
        push_u32_le(&mut out, self.dram_size);
        push_u32_le(&mut out, self.boot_media);
        let ghost before_pool = out@;
        let mut j: usize = 0;
        while j < 13
            invariant
                j <= 13,
                out@ == before_pool + pool_bytes(self.string_pool@.subrange(0, j as int)),
            decreases 13 - j,
        {
            push_u32_le(&mut out, self.string_pool[j]);
            proof {
                let p = self.string_pool@;
                assert(p.subrange(0, j + 1).drop_last() =~= p.subrange(0, j as int));
                assert(p.subrange(0, j + 1).last() == p[j as int]);
                assert(out@ =~= before_pool + pool_bytes(p.subrange(0, j + 1)));
            }
            j = j + 1;
        }
        proof {
            assert(self.string_pool@.subrange(0, 13) =~= self.string_pool@);
            assert(out@ =~= spec_serialize(*self));
            lemma_pool_bytes_len(self.string_pool@);
        }
        out
    }
}

/// Append the little-endian bytes of one 32-bit word.
fn push_u32_le(out: &mut Vec<u8>, x: u32)
    ensures
        final(out)@ == old(out)@ + u32_le(x),
{
    out.push((x & 0xff) as u8);
    out.push(((x >> 8) & 0xff) as u8);
    out.push(((x >> 16) & 0xff) as u8);
    out.push(((x >> 24) & 0xff) as u8);
    proof {
        assert(out@ =~= old(out)@ + u32_le(x));
    }
}

/// Byte offsets of every header field in the serialized layout.
///
/// The serialized header is 92 bytes: magic at offset 0, checksum at 8,
/// length at 12, then the metadata words at 16, 20, 24, 28, 32, 36, and the
/// reserved pool filling offsets 40 to 92.
pub proof fn lemma_head_layout(h: HeadData)
    ensures
        spec_serialize(h).len() == HEAD_DATA_SIZE,
        spec_serialize(h).subrange(0, 8) == h.magic@,
        spec_serialize(h).subrange(8, 12) == u32_le(h.checksum),
        spec_serialize(h).subrange(12, 16) == u32_le(h.length),
        spec_serialize(h).subrange(16, 20) == u32_le(h.pub_head_size),
        spec_serialize(h).subrange(20, 24) == u32_le(h.fel_script_address),
        spec_serialize(h).subrange(24, 28) == u32_le(h.fel_uenv_length),
        spec_serialize(h).subrange(28, 32) == u32_le(h.dt_name_offset),
        spec_serialize(h).subrange(32, 36) == u32_le(h.dram_size),
        spec_serialize(h).subrange(36, 40) == u32_le(h.boot_media),
        spec_serialize(h).subrange(40, HEAD_DATA_SIZE as int) == pool_bytes(h.string_pool@),
{
    lemma_pool_bytes_len(h.string_pool@);
    let s = spec_serialize(h);
    assert(s.subrange(0, 8) =~= h.magic@);
    assert(s.subrange(8, 12) =~= u32_le(h.checksum));
    assert(s.subrange(12, 16) =~= u32_le(h.length));
    assert(s.subrange(16, 20) =~= u32_le(h.pub_head_size));
    assert(s.subrange(20, 24) =~= u32_le(h.fel_script_address));
    assert(s.subrange(24, 28) =~= u32_le(h.fel_uenv_length));
    assert(s.subrange(28, 32) =~= u32_le(h.dt_name_offset));
    assert(s.subrange(32, 36) =~= u32_le(h.dram_size));
    assert(s.subrange(36, 40) =~= u32_le(h.boot_media));
    assert(s.subrange(40, HEAD_DATA_SIZE as int) =~= pool_bytes(h.string_pool@));
}

/// Decode the jump offset carried by a compressed unconditional jump
/// instruction, whose immediate bits are scattered over the encoding.
/// Valid as an unsigned offset when the sign bit (bit 12) is clear.
pub open spec fn cj_offset(insn: u16) -> u16 {
    (((insn >> 12) & 1) << 11) | (((insn >> 8) & 1) << 10) | (((insn >> 9) & 3) << 8) | (((insn
        >> 6) & 1) << 7) | (((insn >> 7) & 1) << 6) | (((insn >> 2) & 1) << 5) | (((insn >> 11)
        & 1) << 4) | (((insn >> 3) & 7) << 1)
}

/// The header-skip jump: the one compressed instruction placed at image
/// offset zero. It is a forward compressed unconditional jump (`funct3`
/// `101`, opcode `01`) whose offset lands exactly past the jump slot and the
/// header block, so execution can never fall through into header data.
pub fn head_jump() -> (insn: u16)
    ensures
        insn & 0xE003 == 0xA001,
        (insn >> 12) & 1 == 0,
        cj_offset(insn) == HEAD_JUMP_BYTES + HEAD_DATA_SIZE,
{
    proof {
        assert(0xA085u16 & 0xE003 == 0xA001) by (bit_vector);
        assert((0xA085u16 >> 12) & 1 == 0) by (bit_vector);
        assert(cj_offset(0xA085u16) == 96) by (bit_vector);
    }
    0xA085
}

} // verus!
