use vstd::prelude::*;

verus! {

/// Tag word of the reserved mode that reboots the device out of rescue,
/// the four ASCII bytes `REBO` packed big-endian.
pub const REBOOT_WORD: u32 = 0x5245424F;

/// Tag word of the reserved mode announcing that the next four bytes are a
/// baud symbol, the four ASCII bytes `BAUD` packed big-endian.
pub const BAUD_WORD: u32 = 0x42415544;

/// Tag word of the reserved idle/hold mode, the four ASCII bytes `WAIT`
/// packed big-endian.
pub const WAIT_WORD: u32 = 0x57414954;

/// A 4-character fixed-width identifier naming a protocol mode or baud-rate
/// selector: four ASCII characters packed big-endian into a 32-bit word.
///
/// The device-side parser expects exactly 4 tag bytes, so the byte form of a
/// tag never varies in length; [`RescueMode::from_tag`] rejects any candidate
/// holding a non-ASCII byte.
#[derive(Clone, Copy, PartialEq, Eq, Structural, Debug)]
pub struct RescueMode(pub u32);

/// The four wire bytes of a tag word, most significant byte first.
pub open spec fn spec_tag_bytes(w: u32) -> Seq<u8> {
    seq![(w >> 24) as u8, (w >> 16) as u8, (w >> 8) as u8, w as u8]
}

/// The tag word packing four wire bytes big-endian.
pub open spec fn spec_word_of(tag: Seq<u8>) -> u32
    recommends
        tag.len() == 4,
{
    ((tag[0] as u32) << 24) | ((tag[1] as u32) << 16) | ((tag[2] as u32) << 8) | (tag[3] as u32)
}

/// An ASCII byte.
pub open spec fn spec_ascii_byte(b: u8) -> bool {
    b < 0x80
}

/// Four bytes, all ASCII: a well-formed tag.
pub open spec fn spec_ascii_tag(tag: Seq<u8>) -> bool {
    &&& tag.len() == 4
    &&& forall|i: int| 0 <= i < 4 ==> spec_ascii_byte(#[trigger] tag[i])
}

/// Law: packing four bytes into a tag word and unpacking it again yields the
/// same four bytes, so a tag's wire form is exactly what it was built from.
pub proof fn lemma_tag_bytes_round_trip(tag: Seq<u8>)
    requires
        tag.len() == 4,
    ensures
        spec_tag_bytes(spec_word_of(tag)) == tag,
{
    let a = tag[0];
    let b = tag[1];
    let c = tag[2];
    let d = tag[3];
    let w = ((a as u32) << 24) | ((b as u32) << 16) | ((c as u32) << 8) | (d as u32);
    assert((w >> 24) as u8 == a) by (bit_vector)
        requires
            w == ((a as u32) << 24) | ((b as u32) << 16) | ((c as u32) << 8) | (d as u32),
    ;
    assert((w >> 16) as u8 == b) by (bit_vector)
        requires
            w == ((a as u32) << 24) | ((b as u32) << 16) | ((c as u32) << 8) | (d as u32),
    ;
    assert((w >> 8) as u8 == c) by (bit_vector)
        requires
            w == ((a as u32) << 24) | ((b as u32) << 16) | ((c as u32) << 8) | (d as u32),
    ;
    assert(w as u8 == d) by (bit_vector)
        requires
            w == ((a as u32) << 24) | ((b as u32) << 16) | ((c as u32) << 8) | (d as u32),
    ;
    assert(spec_tag_bytes(spec_word_of(tag)) =~= tag);
}

/// The four wire bytes of `mode`, most significant byte first.
pub fn tag_bytes(mode: RescueMode) -> (r: [u8; 4])
    ensures
        r@ == spec_tag_bytes(mode.0),
{
    let w = mode.0;
    let r: [u8; 4] = [
        #[verifier::truncate] ((w >> 24) as u8),
        #[verifier::truncate] ((w >> 16) as u8),
        #[verifier::truncate] ((w >> 8) as u8),
        #[verifier::truncate] (w as u8),
    ];
    proof {
        assert(r@ =~= spec_tag_bytes(mode.0));
    }
    r
}

impl RescueMode {
    /// Builds a tag from its four wire bytes, rejecting any candidate with a
    /// non-ASCII byte so that the device-side 4-byte parser is never handed a
    /// tag outside its alphabet.
    pub fn from_tag(tag: &[u8; 4]) -> (r: Option<RescueMode>)
        ensures
            r is Some <==> spec_ascii_tag(tag@),
            r matches Some(m) ==> m.0 == spec_word_of(tag@) && spec_tag_bytes(m.0) == tag@,
    {
        if tag[0] < 0x80 && tag[1] < 0x80 && tag[2] < 0x80 && tag[3] < 0x80 {
            let w: u32 = ((tag[0] as u32) << 24) | ((tag[1] as u32) << 16) | ((tag[2] as u32) << 8)
                | (tag[3] as u32);
            proof {
                lemma_tag_bytes_round_trip(tag@);
            }
            Some(RescueMode(w))
        } else {
            None
        }
    }

    /// The reserved `REBO` tag: leave rescue and reboot the device.
    pub fn reboot() -> (m: RescueMode)
        ensures
            m.0 == REBOOT_WORD,
    {
        RescueMode(REBOOT_WORD)
    }

    /// The reserved `BAUD` tag: the next four bytes are a baud symbol.
    pub fn baud() -> (m: RescueMode)
        ensures
            m.0 == BAUD_WORD,
    {
        RescueMode(BAUD_WORD)
    }

    /// The reserved `WAIT` tag: hold the device idle in rescue.
    pub fn wait() -> (m: RescueMode)
        ensures
            m.0 == WAIT_WORD,
    {
        RescueMode(WAIT_WORD)
    }
}

} // verus!
