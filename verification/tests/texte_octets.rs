use qbx::octets::{etendre, extraire, lire_le16, lire_le32, pousser_decimal_octets, pousser_le16, pousser_le32, zeros};
use qbx::sha::sha256;
use qbx::texte::{
    analyser_u8, analyser_usize, caracteres, chercher_motif, concat3, contient, couper, decouper_mots, egal,
    lex_inferieur, lignes, pousser_a_gauche, pousser_decimal, pousser_deux_chiffres, pousser_hex,
    pousser_hex_minuscule, rogner,
};

fn hex_de(o: &[u8]) -> String {
    o.iter().map(|b| format!("{:02x}", b)).collect()
}

#[test]
fn sha256_message_vide() {
    assert_eq!(hex_de(&sha256(b"")), "e3b0c44298fc1c149afbf4c8996fb92427ae41e4649b934ca495991b7852b855");
}

#[test]
fn sha256_abc() {
    assert_eq!(hex_de(&sha256(b"abc")), "ba7816bf8f01cfea414140de5dae2223b00361a396177a9cb410ff61f20015ad");
}

#[test]
fn sha256_un_seul_bloc_de_55_octets_au_plus() {
    let m = b"abcdbcdecdefdefgefghfghighijhijkijkljklmklmnlmnomnopnopq";
    assert_eq!(m.len(), 56);
    assert_eq!(hex_de(&sha256(&m[..55])), "aa353e009edbaebfc6e494c8d847696896cb8b398e0173a4b5c1b636292d87c7");
    assert_eq!(sha256(m), sha256(&m[..55]));
}

#[test]
fn mots_separes_par_des_blancs() {
    assert_eq!(decouper_mots("  a  bc\td "), vec!["a".to_string(), "bc".to_string(), "d".to_string()]);
    assert!(decouper_mots("   ").is_empty());
}

#[test]
fn rogner_retire_les_blancs_autour() {
    assert_eq!(rogner("  x y \n"), "x y");
    assert_eq!(rogner("   "), "");
}

#[test]
fn analyser_u8_comme_from_str() {
    assert_eq!(analyser_u8("255"), Some(255));
    assert_eq!(analyser_u8("+7"), Some(7));
    assert_eq!(analyser_u8("256"), None);
    assert_eq!(analyser_u8(""), None);
    assert_eq!(analyser_u8("-1"), None);
    assert_eq!(analyser_u8("1a"), None);
}

#[test]
fn analyser_usize_comme_from_str() {
    assert_eq!(analyser_usize("42"), Some(42));
    assert_eq!(analyser_usize("0"), Some(0));
    assert_eq!(analyser_usize("x"), None);
    assert_eq!(analyser_usize("+"), None);
}

#[test]
fn egalite_et_appartenance() {
    assert!(egal("abc", "abc"));
    assert!(!egal("abc", "abd"));
    assert!(contient("a>b", '>'));
    assert!(!contient("ab", '>'));
}

#[test]
fn lignes_comme_str_lines() {
    assert_eq!(lignes("a\r\nb\nc"), vec!["a".to_string(), "b".to_string(), "c".to_string()]);
    assert_eq!(lignes("a\n"), vec!["a".to_string()]);
    assert!(lignes("").is_empty());
}

#[test]
fn couper_garde_les_morceaux_vides() {
    let v: Vec<char> = "a.b..c".chars().collect();
    assert_eq!(couper(&v, '.'), vec!["a".to_string(), "b".to_string(), "".to_string(), "c".to_string()]);
}

#[test]
fn motif_trouve_a_sa_premiere_position() {
    let s: Vec<char> = "abcabc".chars().collect();
    let m: Vec<char> = "ca".chars().collect();
    assert_eq!(chercher_motif(&s, &m), Some(2));
    let absent: Vec<char> = "zz".chars().collect();
    assert_eq!(chercher_motif(&s, &absent), None);
}

#[test]
fn ordre_lexicographique() {
    assert!(lex_inferieur("abc", "abd"));
    assert!(lex_inferieur("ab", "abc"));
    assert!(!lex_inferieur("b", "a"));
    assert!(!lex_inferieur("a", "a"));
}

#[test]
fn ecritures_numeriques() {
    let mut s = String::new();
    pousser_decimal(&mut s, 1234);
    s.push(' ');
    pousser_deux_chiffres(&mut s, 7);
    s.push(' ');
    pousser_hex(&mut s, 0xAB, 4);
    s.push(' ');
    pousser_hex_minuscule(&mut s, 0x4444_4444_0000);
    assert_eq!(s, "1234 07 00AB 444444440000");
}

#[test]
fn alignement_a_gauche() {
    let mut s = String::from("[");
    pousser_a_gauche(&mut s, &"ab".to_string(), 5);
    s.push(']');
    assert_eq!(s, "[ab   ]");
}

#[test]
fn concatenation_et_caracteres() {
    assert_eq!(concat3("a", "bé", "c"), "abéc");
    assert_eq!(caracteres("hé"), vec!['h', 'é']);
}

#[test]
fn petit_boutiste_aller_retour() {
    let mut v = Vec::new();
    pousser_le32(&mut v, 0x1234_5678);
    pousser_le16(&mut v, 0xABCD);
    assert_eq!(v, vec![0x78, 0x56, 0x34, 0x12, 0xCD, 0xAB]);
    assert_eq!(lire_le32(v[0], v[1], v[2], v[3]), 0x1234_5678);
    assert_eq!(lire_le16(v[4], v[5]), 0xABCD);
}

#[test]
fn octets_utilitaires() {
    let mut v = zeros(3);
    etendre(&mut v, &[1, 2]);
    assert_eq!(v, vec![0, 0, 0, 1, 2]);
    assert_eq!(extraire(&v, 2, 4), vec![0, 1]);
    let mut d = Vec::new();
    pousser_decimal_octets(&mut d, 1234);
    assert_eq!(d, b"1234".to_vec());
}
