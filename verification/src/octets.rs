use vstd::prelude::*;
use std::vec::Vec;

verus! {

/// Encodage petit-boutiste d'un entier de 16 bits.
pub open spec fn le16(v: u16) -> Seq<u8> {
    seq![(v % 256) as u8, (v / 256) as u8]
}

/// Encodage petit-boutiste d'un entier de 32 bits.
pub open spec fn le32(v: u32) -> Seq<u8> {
    seq![(v % 256) as u8, ((v / 256) % 256) as u8, ((v / 65536) % 256) as u8, (v / 16777216) as u8]
}

/// Valeur d'un entier de 16 bits lu en petit-boutiste.
pub open spec fn val16(a: u8, b: u8) -> nat {
    a as nat + 256 * (b as nat)
}

/// Valeur d'un entier de 32 bits lu en petit-boutiste.
pub open spec fn val32(a: u8, b: u8, c: u8, d: u8) -> nat {
    a as nat + 256 * (b as nat) + 65536 * (c as nat) + 16777216 * (d as nat)
}

/// Relire un entier de 16 bits encodé en petit-boutiste rend cet entier.
pub proof fn lemme_le16(x: u16)
    ensures
        val16(le16(x)[0], le16(x)[1]) == x,
{
}

/// Relire un entier de 32 bits encodé en petit-boutiste rend cet entier.
pub proof fn lemme_le32(x: u32)
    ensures
        val32(le32(x)[0], le32(x)[1], le32(x)[2], le32(x)[3]) == x,
{
}

pub fn pousser_le16(v: &mut Vec<u8>, x: u16)
    ensures
        final(v)@ == old(v)@ + le16(x),
{
    v.push((x % 256) as u8);
    v.push((x / 256) as u8);
    assert(final(v)@ =~= old(v)@ + le16(x));
}

pub fn pousser_le32(v: &mut Vec<u8>, x: u32)
    ensures
        final(v)@ == old(v)@ + le32(x),
{
    v.push((x % 256) as u8);
    v.push(((x / 256) % 256) as u8);
    v.push(((x / 65536) % 256) as u8);
    v.push((x / 16777216) as u8);
    assert(final(v)@ =~= old(v)@ + le32(x));
}

pub fn lire_le16(a: u8, b: u8) -> (r: u16)
    ensures
        r == val16(a, b),
{
    (a as u16) + 256 * (b as u16)
}

pub fn lire_le32(a: u8, b: u8, c: u8, d: u8) -> (r: u32)
    ensures
        r == val32(a, b, c, d),
{
    (a as u32) + 256 * (b as u32) + 65536 * (c as u32) + 16777216 * (d as u32)
}

/// Ajoute les octets de `s` à la fin de `v`.
pub fn etendre(v: &mut Vec<u8>, s: &[u8])
    ensures
        final(v)@ == old(v)@ + s@,
{
    let mut i: usize = 0;
    while i < s.len()
        invariant
            i <= s.len(),
            v@ == old(v)@ + s@.take(i as int),
        decreases s.len() - i,
    {
        v.push(s[i]);
        i = i + 1;
        assert(v@ =~= old(v)@ + s@.take(i as int));
    }
    assert(s@.take(s.len() as int) =~= s@);
}

/// Copie d'une plage d'octets.
pub fn extraire(s: &[u8], debut: usize, fin: usize) -> (r: Vec<u8>)
    requires
        debut <= fin <= s.len(),
    ensures
        r@ == s@.subrange(debut as int, fin as int),
{
    let mut r: Vec<u8> = Vec::new();
    let mut i: usize = debut;
    while i < fin
        invariant
            debut <= i <= fin <= s.len(),
            r@ == s@.subrange(debut as int, i as int),
        decreases fin - i,
    {
        r.push(s[i]);
        i = i + 1;
        assert(r@ =~= s@.subrange(debut as int, i as int));
    }
    r
}

/// Vecteur de `n` zéros.
pub fn zeros(n: usize) -> (r: Vec<u8>)
    ensures
        r@ == Seq::new(n as nat, |i: int| 0u8),
{
    let mut r: Vec<u8> = Vec::new();
    let mut i: usize = 0;
    while i < n
        invariant
            i <= n,
            r@ == Seq::new(i as nat, |k: int| 0u8),
        decreases n - i,
    {
        r.push(0u8);
        i = i + 1;
        assert(r@ =~= Seq::new(i as nat, |k: int| 0u8));
    }
    r
}

/// Écriture décimale ASCII d'un entier naturel.
pub open spec fn decimal_octets(n: nat) -> Seq<u8>
    decreases n,
{
    if n < 10 {
        seq![(48 + n) as u8]
    } else {
        decimal_octets(n / 10).push((48 + n % 10) as u8)
    }
}

/// Puissance de dix.
pub open spec fn puissance10(k: nat) -> nat
    decreases k,
{
    if k == 0 {
        1
    } else {
        10 * puissance10((k - 1) as nat)
    }
}

/// Un nombre inférieur à 10^k s'écrit avec au plus k chiffres.
pub proof fn lemme_decimal_longueur(n: nat, k: nat)
    requires
        k >= 1,
        n < puissance10(k),
    ensures
        decimal_octets(n).len() <= k,
    decreases k,
{
    if n >= 10 {
        let p = puissance10((k - 1) as nat);
        assert(n / 10 < p) by (nonlinear_arith)
            requires
                n < 10 * p,
        ;
        if k == 1 {
            assert(puissance10(0) == 1);
        } else {
            lemme_decimal_longueur(n / 10, (k - 1) as nat);
        }
    }
}

/// Ajoute l'écriture décimale ASCII de `n`.
pub fn pousser_decimal_octets(v: &mut Vec<u8>, n: u64)
    ensures
        final(v)@ == old(v)@ + decimal_octets(n as nat),
    decreases n,
{
    if n >= 10 {
        pousser_decimal_octets(v, n / 10);
    }
    v.push((48 + n % 10) as u8);
    proof {
        assert(final(v)@ =~= old(v)@ + decimal_octets(n as nat));
    }
}

} // verus!
