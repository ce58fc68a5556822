use vstd::prelude::*;
use std::string::String;
use crate::texte::{decimal, hex, pousser_car, pousser_decimal, pousser_hex, pousser_texte};

verus! {

/// Adresse matérielle "XX:XX:XX:XX:XX:XX" (hexadécimal majuscule).
pub open spec fn mac_v(m: Seq<u8>) -> Seq<char> {
    hex(m[0] as nat, 2) + seq![':'] + hex(m[1] as nat, 2) + seq![':'] + hex(m[2] as nat, 2) + seq![':']
        + hex(m[3] as nat, 2) + seq![':'] + hex(m[4] as nat, 2) + seq![':'] + hex(m[5] as nat, 2)
}

/// Écrit une adresse matérielle (ses six premiers octets).
pub fn formater_mac(mac: &[u8]) -> (r: String)
    requires
        mac@.len() >= 6,
    ensures
        r@ == mac_v(mac@),
{
    let mut s = String::new();
    pousser_hex(&mut s, mac[0] as u64, 2);
    pousser_car(&mut s, ':');
    pousser_hex(&mut s, mac[1] as u64, 2);
    pousser_car(&mut s, ':');
    pousser_hex(&mut s, mac[2] as u64, 2);
    pousser_car(&mut s, ':');
    pousser_hex(&mut s, mac[3] as u64, 2);
    pousser_car(&mut s, ':');
    pousser_hex(&mut s, mac[4] as u64, 2);
    pousser_car(&mut s, ':');
    pousser_hex(&mut s, mac[5] as u64, 2);
    assert(s@ =~= mac_v(mac@));
    s
}

/// Protocole d'après le type Ethernet.
pub open spec fn protocole_v(ethertype: nat) -> Seq<char> {
    if ethertype == 0x0800 {
        "IPv4"@
    } else if ethertype == 0x0806 {
        "ARP"@
    } else if ethertype == 0x86DD {
        "IPv6"@
    } else {
        "Inconnu"@
    }
}

/// Ligne affichée pour la trame n° `index` : rang, taille, adresses source et destination, type
/// Ethernet et protocole ; rien pour une trame de moins de 14 octets.
pub open spec fn trame_v(d: Seq<u8>, index: nat) -> Option<Seq<char>> {
    if d.len() < 14 {
        None
    } else {
        let et = d[12] as nat * 256 + d[13] as nat;
        Some(
            seq!['['] + decimal(index) + seq![']', ' '] + decimal(d.len()) + " octets | "@ + mac_v(
                d.subrange(6, 12),
            ) + " -> "@ + mac_v(d.subrange(0, 6)) + " | Proto: 0x"@ + hex(et, 4) + seq![' ', '(']
                + protocole_v(et) + seq![')'],
        )
    }
}

/// Décrit une trame interceptée.
pub fn analyser_trame(donnees: &[u8], index: usize) -> (r: Option<String>)
    ensures
        match trame_v(donnees@, index as nat) {
            Some(l) => r matches Some(s) && s@ == l,
            None => r is None,
        },
{
    if donnees.len() < 14 {
        return None;
    }
    let mac_dest = crate::octets::extraire(donnees, 0, 6);
    let mac_src = crate::octets::extraire(donnees, 6, 12);
    let hi = donnees[12];
    let lo = donnees[13];
    let ethertype = ((hi as u16) << 8u16) | (lo as u16);
    assert(ethertype == hi as nat * 256 + lo as nat) by (bit_vector)
        requires
            ethertype == ((hi as u16) << 8u16) | (lo as u16),
    ;
    let proto = if ethertype == 0x0800 {
        "IPv4"
    } else if ethertype == 0x0806 {
        "ARP"
    } else if ethertype == 0x86DD {
        "IPv6"
    } else {
        "Inconnu"
    };
    let mut s = String::new();
    pousser_car(&mut s, '[');
    pousser_decimal(&mut s, index as u64);
    pousser_car(&mut s, ']');
    pousser_car(&mut s, ' ');
    pousser_decimal(&mut s, donnees.len() as u64);
    pousser_texte(&mut s, " octets | ");
    let m1 = formater_mac(mac_src.as_slice());
    pousser_texte(&mut s, m1.as_str());
    pousser_texte(&mut s, " -> ");
    let m2 = formater_mac(mac_dest.as_slice());
    pousser_texte(&mut s, m2.as_str());
    pousser_texte(&mut s, " | Proto: 0x");
    pousser_hex(&mut s, ethertype as u64, 4);
    pousser_car(&mut s, ' ');
    pousser_car(&mut s, '(');
    pousser_texte(&mut s, proto);
    pousser_car(&mut s, ')');
    assert(s@ =~= trame_v(donnees@, index as nat)->0);
    Some(s)
}

} // verus!
