use vstd::prelude::*;

verus! {

/// The baud symbol for a requested rate: a closed mapping that is total over
/// exactly the six supported rates and sends each to its 4-character symbol.
pub open spec fn spec_baud_symbol(baud: u32) -> Option<Seq<u8>> {
    if baud == 115200 {
        Some(seq![0x31u8, 0x31u8, 0x35u8, 0x4Bu8])  // 115K
    } else if baud == 230400 {
        Some(seq![0x32u8, 0x33u8, 0x30u8, 0x4Bu8])  // 230K
    } else if baud == 460800 {
        Some(seq![0x34u8, 0x36u8, 0x30u8, 0x4Bu8])  // 460K
    } else if baud == 921600 {
        Some(seq![0x39u8, 0x32u8, 0x31u8, 0x4Bu8])  // 921K
    } else if baud == 1333333 {
        Some(seq![0x31u8, 0x4Du8, 0x33u8, 0x33u8])  // 1M33
    } else if baud == 1500000 {
        Some(seq![0x31u8, 0x4Du8, 0x35u8, 0x30u8])  // 1M50
    } else {
        None
    }
}

/// A rate the symbol mapping is defined on.
pub open spec fn spec_supported_baud(baud: u32) -> bool {
    spec_baud_symbol(baud) is Some
}

/// The baud symbol for `baud`, or `None` for a rate outside the supported
/// set.
pub fn baud_symbol(baud: u32) -> (r: Option<[u8; 4]>)
    ensures
        r is Some <==> spec_supported_baud(baud),
        r matches Some(sym) ==> Some(sym@) == spec_baud_symbol(baud),
{
    let sym: [u8; 4] = match baud {
        115200 => [0x31, 0x31, 0x35, 0x4B],
        230400 => [0x32, 0x33, 0x30, 0x4B],
        460800 => [0x34, 0x36, 0x30, 0x4B],
        921600 => [0x39, 0x32, 0x31, 0x4B],
        1333333 => [0x31, 0x4D, 0x33, 0x33],
        1500000 => [0x31, 0x4D, 0x35, 0x30],
        _ => {
            return None;
        },
    };
    proof {
        assert(Some(sym@) == spec_baud_symbol(baud)) by {
            assert(sym@ =~= spec_baud_symbol(baud)->Some_0);
        }
    }
    Some(sym)
}

/// Law: the supported rates are exactly 115200, 230400, 460800, 921600,
/// 1333333 and 1500000, and each maps to the stated symbol.
pub proof fn lemma_baud_symbols()
    ensures
        spec_baud_symbol(115200) == Some(seq![0x31u8, 0x31u8, 0x35u8, 0x4Bu8]),
        spec_baud_symbol(230400) == Some(seq![0x32u8, 0x33u8, 0x30u8, 0x4Bu8]),
        spec_baud_symbol(460800) == Some(seq![0x34u8, 0x36u8, 0x30u8, 0x4Bu8]),
        spec_baud_symbol(921600) == Some(seq![0x39u8, 0x32u8, 0x31u8, 0x4Bu8]),
        spec_baud_symbol(1333333) == Some(seq![0x31u8, 0x4Du8, 0x33u8, 0x33u8]),
        spec_baud_symbol(1500000) == Some(seq![0x31u8, 0x4Du8, 0x35u8, 0x30u8]),
        forall|b: u32|
            #[trigger] spec_supported_baud(b) <==> (b == 115200 || b == 230400 || b == 460800
                || b == 921600 || b == 1333333 || b == 1500000),
{
}

/// Law: the rate-to-symbol mapping is injective, so the six symbols name the
/// six rates bijectively.
pub proof fn lemma_baud_symbol_injective(b1: u32, b2: u32)
    requires
        spec_supported_baud(b1),
        spec_supported_baud(b2),
        spec_baud_symbol(b1) == spec_baud_symbol(b2),
    ensures
        b1 == b2,
{
    if b1 != b2 {
        let s1 = spec_baud_symbol(b1)->Some_0;
        let s2 = spec_baud_symbol(b2)->Some_0;
        assert(s1[0] == s2[0] && s1[1] == s2[1] && s1[2] == s2[2] && s1[3] == s2[3]);
        assert(false);
    }
}

} // verus!
