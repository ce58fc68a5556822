use vstd::prelude::*;

verus! {

// SHA-256 sur un seul bloc de 64 octets (messages de 55 octets au plus ; au-delà, seuls les 55
// premiers octets sont pris en compte).

pub open spec fn rotr(x: u32, n: u32) -> u32 {
    (x >> n) | (x << ((32 - n) as u32))
}

pub open spec fn petit_sigma0(x: u32) -> u32 {
    rotr(x, 7) ^ rotr(x, 18) ^ (x >> 3u32)
}

pub open spec fn petit_sigma1(x: u32) -> u32 {
    rotr(x, 17) ^ rotr(x, 19) ^ (x >> 10u32)
}

pub open spec fn grand_sigma0(a: u32) -> u32 {
    rotr(a, 2) ^ rotr(a, 13) ^ rotr(a, 22)
}

pub open spec fn grand_sigma1(e: u32) -> u32 {
    rotr(e, 6) ^ rotr(e, 11) ^ rotr(e, 25)
}

pub open spec fn choix(e: u32, f: u32, g: u32) -> u32 {
    (e & f) ^ (!e & g)
}

pub open spec fn majorite(a: u32, b: u32, c: u32) -> u32 {
    (a & b) ^ (a & c) ^ (b & c)
}

/// Constantes des 64 tours.
pub open spec fn k_v() -> Seq<u32> {
    seq![
        0x428a2f98u32, 0x71374491u32, 0xb5c0fbcfu32, 0xe9b5dba5u32, 0x3956c25bu32, 0x59f111f1u32, 0x923f82a4u32, 0xab1c5ed5u32,
        0xd807aa98u32, 0x12835b01u32, 0x243185beu32, 0x550c7dc3u32, 0x72be5d74u32, 0x80deb1feu32, 0x9bdc06a7u32, 0xc19bf174u32,
        0xe49b69c1u32, 0xefbe4786u32, 0x0fc19dc6u32, 0x240ca1ccu32, 0x2de92c6fu32, 0x4a7484aau32, 0x5cb0a9dcu32, 0x76f988dau32,
        0x983e5152u32, 0xa831c66du32, 0xb00327c8u32, 0xbf597fc7u32, 0xc6e00bf3u32, 0xd5a79147u32, 0x06ca6351u32, 0x14292967u32,
        0x27b70a85u32, 0x2e1b2138u32, 0x4d2c6dfcu32, 0x53380d13u32, 0x650a7354u32, 0x766a0abbu32, 0x81c2c92eu32, 0x92722c85u32,
        0xa2bfe8a1u32, 0xa81a664bu32, 0xc24b8b70u32, 0xc76c51a3u32, 0xd192e819u32, 0xd6990624u32, 0xf40e3585u32, 0x106aa070u32,
        0x19a4c116u32, 0x1e376c08u32, 0x2748774cu32, 0x34b0bcb5u32, 0x391c0cb3u32, 0x4ed8aa4au32, 0x5b9cca4fu32, 0x682e6ff3u32,
        0x748f82eeu32, 0x78a5636fu32, 0x84c87814u32, 0x8cc70208u32, 0x90befffau32, 0xa4506cebu32, 0xbef9a3f7u32, 0xc67178f2u32,
    ]
}

/// Valeurs initiales.
pub open spec fn h0_v() -> Seq<u32> {
    seq![
        0x6a09e667u32, 0xbb67ae85u32, 0x3c6ef372u32, 0xa54ff53au32,
        0x510e527fu32, 0x9b05688cu32, 0x1f83d9abu32, 0x5be0cd19u32,
    ]
}

/// Nombre d'octets du message pris en compte.
pub open spec fn taille_prise(d: Seq<u8>) -> nat {
    if d.len() < 55 {
        d.len()
    } else {
        55
    }
}

/// Bloc unique après remplissage : message, 0x80, zéros, longueur en bits (64 bits gros-boutiste).
pub open spec fn bloc_v(d: Seq<u8>) -> Seq<u8> {
    let t = taille_prise(d);
    Seq::new(
        64,
        |j: int|
            if j < t {
                d[j]
            } else if j == t {
                0x80u8
            } else if j < 62 {
                0u8
            } else if j == 62 {
                ((t * 8) / 256) as u8
            } else {
                ((t * 8) % 256) as u8
            },
    )
}

pub open spec fn mot_be(a: u8, b: u8, c: u8, d: u8) -> u32 {
    (a as u32 * 16777216 + b as u32 * 65536 + c as u32 * 256 + d as u32) as u32
}

/// Les `n` premiers mots de l'ordonnancement du message.
pub open spec fn mots(b: Seq<u8>, n: nat) -> Seq<u32>
    decreases n,
{
    if n == 0 {
        Seq::empty()
    } else {
        let p = mots(b, (n - 1) as nat);
        let i = n - 1;
        if i < 16 {
            p.push(mot_be(b[4 * i], b[4 * i + 1], b[4 * i + 2], b[4 * i + 3]))
        } else {
            p.push(
                p[i - 16].wrapping_add(petit_sigma0(p[i - 15])).wrapping_add(p[i - 7]).wrapping_add(
                    petit_sigma1(p[i - 2]),
                ),
            )
        }
    }
}

pub type Etat = (u32, u32, u32, u32, u32, u32, u32, u32);

/// Un tour de compression.
pub open spec fn tour(s: Etat, k: u32, w: u32) -> Etat {
    let (a, b, c, d, e, f, g, h) = s;
    let t1 = h.wrapping_add(grand_sigma1(e)).wrapping_add(choix(e, f, g)).wrapping_add(k).wrapping_add(w);
    let t2 = grand_sigma0(a).wrapping_add(majorite(a, b, c));
    (t1.wrapping_add(t2), a, b, c, d.wrapping_add(t1), e, f, g)
}

/// État après `n` tours.
pub open spec fn etat_apres(w: Seq<u32>, n: nat) -> Etat
    decreases n,
{
    if n == 0 {
        let h = h0_v();
        (h[0], h[1], h[2], h[3], h[4], h[5], h[6], h[7])
    } else {
        tour(etat_apres(w, (n - 1) as nat), k_v()[n - 1], w[n - 1])
    }
}

pub open spec fn octets_be(x: u32) -> Seq<u8> {
    seq![(x / 16777216) as u8, ((x / 65536) % 256) as u8, ((x / 256) % 256) as u8, (x % 256) as u8]
}

/// Empreinte SHA-256 (bloc unique) des 55 premiers octets au plus de `d`.
pub open spec fn sha256_v(d: Seq<u8>) -> Seq<u8> {
    let w = mots(bloc_v(d), 64);
    let (a, b, c, dd, e, f, g, h) = etat_apres(w, 64);
    let h0 = h0_v();
    octets_be(h0[0].wrapping_add(a)) + octets_be(h0[1].wrapping_add(b)) + octets_be(h0[2].wrapping_add(c))
        + octets_be(h0[3].wrapping_add(dd)) + octets_be(h0[4].wrapping_add(e)) + octets_be(
        h0[5].wrapping_add(f),
    ) + octets_be(h0[6].wrapping_add(g)) + octets_be(h0[7].wrapping_add(h))
}

fn rotr_x(x: u32, n: u32) -> (r: u32)
    requires
        1 <= n < 32,
    ensures
        r == rotr(x, n),
{
    (x >> n) | (x << (32 - n))
}

pub proof fn lemme_mots_longueur(b: Seq<u8>, n: nat)
    ensures
        mots(b, n).len() == n,
    decreases n,
{
    if n > 0 {
        lemme_mots_longueur(b, (n - 1) as nat);
    }
}

proof fn lemme_mots_prefixe(b: Seq<u8>, m: nat, n: nat)
    requires
        m <= n,
    ensures
        forall|i: int| 0 <= i < m ==> #[trigger] mots(b, n)[i] == mots(b, m)[i],
    decreases n - m,
{
    if m < n {
        lemme_mots_prefixe(b, m, (n - 1) as nat);
        lemme_mots_longueur(b, (n - 1) as nat);
    }
}

fn remplir_bloc(donnees: &[u8]) -> (bloc: Vec<u8>)
    ensures
        bloc@ == bloc_v(donnees@),
{
    let taille: usize = if donnees.len() < 55 {
        donnees.len()
    } else {
        55
    };
    let bits: u64 = (taille as u64) * 8;
    let mut bloc: Vec<u8> = Vec::new();
    let mut j: usize = 0;
    while j < 64
        invariant
            j <= 64,
            taille == taille_prise(donnees@),
            bits == taille * 8,
            bloc@ == bloc_v(donnees@).take(j as int),
        decreases 64 - j,
    {
        let octet: u8 = if j < taille {
            donnees[j]
        } else if j == taille {
            0x80u8
        } else if j < 62 {
            0u8
        } else if j == 62 {
            (bits / 256) as u8
        } else {
            (bits % 256) as u8
        };
        bloc.push(octet);
        j = j + 1;
        assert(bloc@ =~= bloc_v(donnees@).take(j as int));
    }
    assert(bloc@ =~= bloc_v(donnees@));
    bloc
}

fn ordonnancer(bloc: &Vec<u8>) -> (w: Vec<u32>)
    requires
        bloc@.len() == 64,
    ensures
        w@ == mots(bloc@, 64),
        w@.len() == 64,
{
    let ghost bv = bloc@;
    let mut w: Vec<u32> = Vec::new();
    let mut i: usize = 0;
    while i < 64
        invariant
            i <= 64,
            bloc@ == bv,
            bv.len() == 64,
            w@ == mots(bv, i as nat),
        decreases 64 - i,
    {
        proof {
            lemme_mots_longueur(bv, i as nat);
        }
        let mot: u32 = if i < 16 {
            (bloc[4 * i] as u32) * 16777216 + (bloc[4 * i + 1] as u32) * 65536 + (bloc[4 * i + 2] as u32)
                * 256 + (bloc[4 * i + 3] as u32)
        } else {
            let x15 = w[i - 15];
            let x2 = w[i - 2];
            let s0 = rotr_x(x15, 7) ^ rotr_x(x15, 18) ^ (x15 >> 3u32);
            let s1 = rotr_x(x2, 17) ^ rotr_x(x2, 19) ^ (x2 >> 10u32);
            w[i - 16].wrapping_add(s0).wrapping_add(w[i - 7]).wrapping_add(s1)
        };
        w.push(mot);
        i = i + 1;
        proof {
            assert(w@ =~= mots(bv, i as nat));
        }
    }
    proof {
        lemme_mots_longueur(bv, 64);
    }
    w
}

fn compresser(w: &Vec<u32>) -> (r: Etat)
    requires
        w@.len() == 64,
    ensures
        r == etat_apres(w@, 64),
{
    let k: [u32; 64] = [
        0x428a2f98, 0x71374491, 0xb5c0fbcf, 0xe9b5dba5, 0x3956c25b, 0x59f111f1, 0x923f82a4, 0xab1c5ed5,
        0xd807aa98, 0x12835b01, 0x243185be, 0x550c7dc3, 0x72be5d74, 0x80deb1fe, 0x9bdc06a7, 0xc19bf174,
        0xe49b69c1, 0xefbe4786, 0x0fc19dc6, 0x240ca1cc, 0x2de92c6f, 0x4a7484aa, 0x5cb0a9dc, 0x76f988da,
        0x983e5152, 0xa831c66d, 0xb00327c8, 0xbf597fc7, 0xc6e00bf3, 0xd5a79147, 0x06ca6351, 0x14292967,
        0x27b70a85, 0x2e1b2138, 0x4d2c6dfc, 0x53380d13, 0x650a7354, 0x766a0abb, 0x81c2c92e, 0x92722c85,
        0xa2bfe8a1, 0xa81a664b, 0xc24b8b70, 0xc76c51a3, 0xd192e819, 0xd6990624, 0xf40e3585, 0x106aa070,
        0x19a4c116, 0x1e376c08, 0x2748774c, 0x34b0bcb5, 0x391c0cb3, 0x4ed8aa4a, 0x5b9cca4f, 0x682e6ff3,
        0x748f82ee, 0x78a5636f, 0x84c87814, 0x8cc70208, 0x90befffa, 0xa4506ceb, 0xbef9a3f7, 0xc67178f2,
    ];
    assert(k@ =~= k_v());
    let mut a: u32 = 0x6a09e667;
    let mut b: u32 = 0xbb67ae85;
    let mut c: u32 = 0x3c6ef372;
    let mut d: u32 = 0xa54ff53a;
    let mut e: u32 = 0x510e527f;
    let mut f: u32 = 0x9b05688c;
    let mut g: u32 = 0x1f83d9ab;
    let mut h_v: u32 = 0x5be0cd19;
    let mut i: usize = 0;
    while i < 64
        invariant
            i <= 64,
            w@.len() == 64,
            k@ == k_v(),
            (a, b, c, d, e, f, g, h_v) == etat_apres(w@, i as nat),
        decreases 64 - i,
    {
        let s1 = rotr_x(e, 6) ^ rotr_x(e, 11) ^ rotr_x(e, 25);
        let ch = (e & f) ^ ((!e) & g);
        let temp1 = h_v.wrapping_add(s1).wrapping_add(ch).wrapping_add(k[i]).wrapping_add(w[i]);
        let s0 = rotr_x(a, 2) ^ rotr_x(a, 13) ^ rotr_x(a, 22);
        let maj = (a & b) ^ (a & c) ^ (b & c);
        let temp2 = s0.wrapping_add(maj);
        h_v = g;
        g = f;
        f = e;
        e = d.wrapping_add(temp1);
        d = c;
        c = b;
        b = a;
        a = temp1.wrapping_add(temp2);
        i = i + 1;
    }
    (a, b, c, d, e, f, g, h_v)
}

fn ecrire_be(sortie: &mut [u8; 32], i: usize, x: u32)
    requires
        i < 8,
    ensures
        final(sortie)@.len() == 32,
        final(sortie)@.subrange(4 * i as int, 4 * i + 4) == octets_be(x),
        forall|m: int| 0 <= m < 32 && (m < 4 * i || m >= 4 * i + 4) ==> #[trigger] final(sortie)@[m] == old(sortie)@[m],
{
    sortie[4 * i] = (x / 16777216) as u8;
    sortie[4 * i + 1] = ((x / 65536) % 256) as u8;
    sortie[4 * i + 2] = ((x / 256) % 256) as u8;
    sortie[4 * i + 3] = (x % 256) as u8;
    assert(final(sortie)@.subrange(4 * i as int, 4 * i + 4) =~= octets_be(x));
}

/// SHA-256 sur pile, pour des mots de passe de 55 octets au plus (au-delà, tronqués à 55).
pub fn sha256(donnees: &[u8]) -> (r: [u8; 32])
    ensures
        r@ == sha256_v(donnees@),
{
    let bloc = remplir_bloc(donnees);
    let w = ordonnancer(&bloc);
    let (a, b, c, d, e, f, g, h) = compresser(&w);
    let mut sortie = [0u8; 32];
    ecrire_be(&mut sortie, 0, 0x6a09e667u32.wrapping_add(a));
    ecrire_be(&mut sortie, 1, 0xbb67ae85u32.wrapping_add(b));
    ecrire_be(&mut sortie, 2, 0x3c6ef372u32.wrapping_add(c));
    ecrire_be(&mut sortie, 3, 0xa54ff53au32.wrapping_add(d));
    ecrire_be(&mut sortie, 4, 0x510e527fu32.wrapping_add(e));
    ecrire_be(&mut sortie, 5, 0x9b05688cu32.wrapping_add(f));
    ecrire_be(&mut sortie, 6, 0x1f83d9abu32.wrapping_add(g));
    ecrire_be(&mut sortie, 7, 0x5be0cd19u32.wrapping_add(h));
    proof {
        let h0 = h0_v();
        assert(sortie@ =~= sha256_v(donnees@)) by {
            assert(sortie@ =~= sortie@.subrange(0, 4) + sortie@.subrange(4, 8) + sortie@.subrange(8, 12)
                + sortie@.subrange(12, 16) + sortie@.subrange(16, 20) + sortie@.subrange(20, 24)
                + sortie@.subrange(24, 28) + sortie@.subrange(28, 32));
        }
    }
    sortie
}

} // verus!
