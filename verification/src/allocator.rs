use vstd::prelude::*;

verus! {

/// Adresse virtuelle du début du tas.
pub const HEAP_START: u64 = 0x4444_4444_0000;

/// Taille initiale du tas : 2 Mio.
pub const HEAP_SIZE_INITIAL: usize = 2097152;

/// Extension du tas arrondie au multiple de 4096 supérieur.
pub fn taille_alignee(octets_supplementaires: usize) -> (r: usize)
    requires
        octets_supplementaires + 4095 <= usize::MAX,
    ensures
        r % 4096 == 0,
        octets_supplementaires <= r < octets_supplementaires + 4096,
{
    let x = octets_supplementaires;
    let s = x + 4095;
    let r = s & !4095usize;
    assert(r % 4096 == 0 && x <= r && r < x + 4096) by (bit_vector)
        requires
            r == s & !4095usize,
            s == x + 4095,
    ;
    r
}

} // verus!
