use vstd::prelude::*;
use std::string::String;
use std::vec::Vec;
use crate::fs::node::lex_lt;
use crate::fs::node::lemme_lex_prefixe;

verus! {

/// `String::push` : ajoute un caractère à la fin de la chaîne.
#[verifier::external_body]
pub(crate) fn pousser_car(s: &mut String, c: char)
    ensures
        final(s)@ == old(s)@.push(c),
{
    s.push(c);
}

/// `core::str::from_utf8` : le texte encodé par `octets`, s'ils forment de l'UTF-8 valide.
#[verifier::external_body]
pub(crate) fn texte_utf8(octets: &[u8]) -> (r: Option<String>)
    ensures
        r is Some <==> vstd::utf8::valid_utf8(octets@),
        r matches Some(s) ==> s@ == vstd::utf8::decode_utf8(octets@),
{
    match core::str::from_utf8(octets) {
        Ok(s) => Some(String::from(s)),
        Err(_) => None,
    }
}

/// Copie possédée d'une tranche de texte.
pub fn vers_chaine(s: &str) -> (r: String)
    ensures
        r@ == s@,
{
    String::from_str(s)
}

/// Chaîne formée des caractères d'un vecteur.
pub fn chaine_de_caracteres(v: &Vec<char>) -> (r: String)
    ensures
        r@ == v@,
{
    let mut r = String::new();
    let mut i: usize = 0;
    while i < v.len()
        invariant
            i <= v.len(),
            r@ == v@.take(i as int),
        decreases v.len() - i,
    {
        pousser_car(&mut r, v[i]);
        i = i + 1;
        assert(r@ =~= v@.take(i as int));
    }
    assert(v@.take(v.len() as int) =~= v@);
    r
}

/// Caractères d'une tranche de texte.
pub fn caracteres(s: &str) -> (r: Vec<char>)
    ensures
        r@ == s@,
{
    let n = s.unicode_len();
    let mut r: Vec<char> = Vec::new();
    let mut i: usize = 0;
    while i < n
        invariant
            n == s@.len(),
            i <= n,
            r@ == s@.take(i as int),
        decreases n - i,
    {
        r.push(s.get_char(i));
        i = i + 1;
        assert(r@ =~= s@.take(i as int));
    }
    assert(s@.take(n as int) =~= s@);
    r
}


/// Chiffre décimal `d` (0 à 9).
pub open spec fn chiffre(d: nat) -> char {
    if d == 0 { '0' }
    else if d == 1 { '1' }
    else if d == 2 { '2' }
    else if d == 3 { '3' }
    else if d == 4 { '4' }
    else if d == 5 { '5' }
    else if d == 6 { '6' }
    else if d == 7 { '7' }
    else if d == 8 { '8' }
    else { '9' }
}

/// Écriture décimale d'un entier naturel, sans zéro de tête.
pub open spec fn decimal(n: nat) -> Seq<char>
    decreases n,
{
    if n < 10 {
        seq![chiffre(n)]
    } else {
        decimal(n / 10).push(chiffre(n % 10))
    }
}

/// Écriture décimale sur deux chiffres au moins (`{:02}`).
pub open spec fn deux_chiffres(n: nat) -> Seq<char> {
    if n < 10 {
        seq!['0', chiffre(n)]
    } else {
        decimal(n)
    }
}

pub fn chiffre_x(d: u8) -> (r: char)
    requires
        d < 10,
    ensures
        r == chiffre(d as nat),
{
    if d == 0 { '0' }
    else if d == 1 { '1' }
    else if d == 2 { '2' }
    else if d == 3 { '3' }
    else if d == 4 { '4' }
    else if d == 5 { '5' }
    else if d == 6 { '6' }
    else if d == 7 { '7' }
    else if d == 8 { '8' }
    else { '9' }
}

/// Ajoute l'écriture décimale de `n`.
pub fn pousser_decimal(s: &mut String, n: u64)
    ensures
        final(s)@ == old(s)@ + decimal(n as nat),
    decreases n,
{
    if n >= 10 {
        pousser_decimal(s, n / 10);
    }
    pousser_car(s, chiffre_x((n % 10) as u8));
    proof {
        if n < 10 {
            assert(final(s)@ =~= old(s)@ + decimal(n as nat));
        } else {
            assert(final(s)@ =~= old(s)@ + decimal(n as nat));
        }
    }
}

/// Ajoute l'écriture de `n` sur deux chiffres au moins.
pub fn pousser_deux_chiffres(s: &mut String, n: u64)
    ensures
        final(s)@ == old(s)@ + deux_chiffres(n as nat),
{
    if n < 10 {
        pousser_car(s, '0');
    }
    pousser_decimal(s, n);
    proof {
        assert(final(s)@ =~= old(s)@ + deux_chiffres(n as nat));
    }
}

/// Ajoute tous les caractères d'une tranche de texte.
pub fn pousser_texte(s: &mut String, t: &str)
    ensures
        final(s)@ == old(s)@ + t@,
{
    let v = caracteres(t);
    let mut i: usize = 0;
    while i < v.len()
        invariant
            i <= v.len(),
            v@ == t@,
            s@ == old(s)@ + t@.take(i as int),
        decreases v.len() - i,
    {
        pousser_car(s, v[i]);
        i = i + 1;
        assert(s@ =~= old(s)@ + t@.take(i as int));
    }
    assert(t@.take(t@.len() as int) =~= t@);
}

/// Blancs au sens Unicode (White_Space), ceux que reconnaît `char::is_whitespace`.
pub open spec fn est_espace(c: char) -> bool {
    let u = c as u32;
    ||| (0x09 <= u && u <= 0x0D)
    ||| u == 0x20
    ||| u == 0x85
    ||| u == 0xA0
    ||| u == 0x1680
    ||| (0x2000 <= u && u <= 0x200A)
    ||| u == 0x2028
    ||| u == 0x2029
    ||| u == 0x202F
    ||| u == 0x205F
    ||| u == 0x3000
}

pub fn est_espace_x(c: char) -> (r: bool)
    ensures
        r == est_espace(c),
{
    let u = c as u32;
    (0x09 <= u && u <= 0x0D) || u == 0x20 || u == 0x85 || u == 0xA0 || u == 0x1680 || (0x2000 <= u
        && u <= 0x200A) || u == 0x2028 || u == 0x2029 || u == 0x202F || u == 0x205F || u == 0x3000
}

/// Nombre de blancs en tête.
pub open spec fn blancs_en_tete(s: Seq<char>) -> nat
    decreases s.len(),
{
    if s.len() == 0 || !est_espace(s[0]) {
        0
    } else {
        1 + blancs_en_tete(s.drop_first())
    }
}

/// Longueur sans les blancs de queue.
pub open spec fn sans_blancs_en_queue(s: Seq<char>) -> nat
    decreases s.len(),
{
    if s.len() == 0 || !est_espace(s.last()) {
        s.len()
    } else {
        sans_blancs_en_queue(s.drop_last())
    }
}

/// Texte sans ses blancs de tête et de queue (`str::trim`).
pub open spec fn rogner_v(s: Seq<char>) -> Seq<char> {
    if blancs_en_tete(s) == s.len() {
        Seq::empty()
    } else {
        s.subrange(blancs_en_tete(s) as int, sans_blancs_en_queue(s) as int)
    }
}

proof fn lemme_blancs_en_tete(s: Seq<char>, i: int)
    requires
        0 <= i <= s.len(),
        forall|k: int| 0 <= k < i ==> est_espace(#[trigger] s[k]),
    ensures
        blancs_en_tete(s) == i + blancs_en_tete(s.skip(i)),
    decreases i,
{
    if i > 0 {
        assert(s.skip(1).skip(i - 1) =~= s.skip(i));
        lemme_blancs_en_tete(s.drop_first(), i - 1);
        assert(s.drop_first() =~= s.skip(1));
    } else {
        assert(s.skip(0) =~= s);
    }
}

proof fn lemme_sans_blancs_en_queue(s: Seq<char>, j: int)
    requires
        0 <= j <= s.len(),
        forall|k: int| j <= k < s.len() ==> est_espace(#[trigger] s[k]),
    ensures
        sans_blancs_en_queue(s) == sans_blancs_en_queue(s.take(j)),
    decreases s.len() - j,
{
    if j < s.len() {
        lemme_sans_blancs_en_queue(s.drop_last(), j);
        assert(s.drop_last().take(j) =~= s.take(j));
    } else {
        assert(s.take(j) =~= s);
    }
}

proof fn lemme_tete_bornee(s: Seq<char>)
    ensures
        blancs_en_tete(s) <= s.len(),
        blancs_en_tete(s) < s.len() ==> !est_espace(s[blancs_en_tete(s) as int]),
        forall|k: int| 0 <= k < blancs_en_tete(s) ==> est_espace(#[trigger] s[k]),
    decreases s.len(),
{
    if s.len() > 0 && est_espace(s[0]) {
        lemme_tete_bornee(s.drop_first());
        assert forall|k: int| 0 <= k < blancs_en_tete(s) implies est_espace(#[trigger] s[k]) by {
            if k > 0 {
                assert(s[k] == s.drop_first()[k - 1]);
            }
        }
    }
}

proof fn lemme_queue_bornee(s: Seq<char>)
    ensures
        sans_blancs_en_queue(s) <= s.len(),
        sans_blancs_en_queue(s) > 0 ==> !est_espace(s[sans_blancs_en_queue(s) - 1]),
        forall|k: int| sans_blancs_en_queue(s) <= k < s.len() ==> est_espace(#[trigger] s[k]),
    decreases s.len(),
{
    if s.len() > 0 && est_espace(s.last()) {
        lemme_queue_bornee(s.drop_last());
        assert forall|k: int| sans_blancs_en_queue(s) <= k < s.len() implies est_espace(#[trigger] s[k]) by {
            if k < s.len() - 1 {
                assert(s[k] == s.drop_last()[k]);
            }
        }
    }
}

/// Texte sans ses blancs de tête et de queue.
pub fn rogner(t: &str) -> (r: String)
    ensures
        r@ == rogner_v(t@),
{
    let v = caracteres(t);
    let n = v.len();
    let mut d: usize = 0;
    while d < n && est_espace_x(v[d])
        invariant
            v@ == t@,
            n == v@.len(),
            d <= n,
            forall|k: int| 0 <= k < d ==> est_espace(#[trigger] v@[k]),
        decreases n - d,
    {
        d = d + 1;
    }
    proof {
        lemme_blancs_en_tete(v@, d as int);
        if d < n {
            assert(v@.skip(d as int)[0] == v@[d as int]);
        }
    }
    let mut r = String::new();
    if d == n {
        proof {
            assert(v@.skip(d as int).len() == 0);
        }
        return r;
    }
    let mut f: usize = n;
    while f > d && est_espace_x(v[f - 1])
        invariant
            v@ == t@,
            n == v@.len(),
            d < n,
            d <= f <= n,
            forall|k: int| f <= k < n ==> est_espace(#[trigger] v@[k]),
        decreases f,
    {
        f = f - 1;
    }
    proof {
        lemme_sans_blancs_en_queue(v@, f as int);
        assert(!est_espace(v@[d as int]));
        assert(f > d);
        assert(v@.take(f as int).last() == v@[f - 1]);
    }
    let mut i: usize = d;
    while i < f
        invariant
            v@ == t@,
            d <= i <= f <= n,
            n == v@.len(),
            r@ == v@.subrange(d as int, i as int),
        decreases f - i,
    {
        pousser_car(&mut r, v[i]);
        i = i + 1;
        assert(r@ =~= v@.subrange(d as int, i as int));
    }
    r
}

/// Longueur du mot en tête (caractères avant le premier blanc).
pub open spec fn long_mot(s: Seq<char>) -> nat
    decreases s.len(),
{
    if s.len() == 0 || est_espace(s[0]) {
        0
    } else {
        1 + long_mot(s.drop_first())
    }
}

/// Mots d'un texte, séparés par des blancs (`str::split_whitespace`).
pub open spec fn mots(s: Seq<char>) -> Seq<Seq<char>>
    decreases s.len(),
{
    if s.len() == 0 {
        Seq::empty()
    } else if est_espace(s[0]) {
        mots(s.drop_first())
    } else {
        proof {
            lemme_long_mot_borne(s);
        }
        seq![s.take(long_mot(s) as int)] + mots(s.skip(long_mot(s) as int))
    }
}

/// Le mot en tête tient dans le texte.
pub proof fn lemme_long_mot_borne(s: Seq<char>)
    ensures
        long_mot(s) <= s.len(),
    decreases s.len(),
{
    if s.len() > 0 && !est_espace(s[0]) {
        lemme_long_mot_borne(s.drop_first());
    }
}

pub open spec fn vue_mots(v: Seq<String>) -> Seq<Seq<char>> {
    v.map_values(|m: String| m@)
}

proof fn lemme_long_mot(s: Seq<char>, i: int)
    requires
        0 <= i <= s.len(),
        forall|k: int| 0 <= k < i ==> !est_espace(#[trigger] s[k]),
        i == s.len() || est_espace(s[i]),
    ensures
        long_mot(s) == i,
    decreases i,
{
    if i > 0 {
        lemme_long_mot(s.drop_first(), i - 1);
    }
}

/// Mots d'un texte séparés par des blancs.
pub fn decouper_mots(t: &str) -> (r: Vec<String>)
    ensures
        vue_mots(r@) == mots(t@),
{
    let v = caracteres(t);
    let n = v.len();
    let mut r: Vec<String> = Vec::new();
    let mut i: usize = 0;
    proof {
        assert(v@.skip(0) =~= v@);
        assert(vue_mots(r@) + mots(t@) =~= mots(t@));
    }
    while i < n
        invariant
            v@ == t@,
            n == v@.len(),
            i <= n,
            vue_mots(r@) + mots(v@.skip(i as int)) == mots(t@),
        decreases n - i,
    {
        if est_espace_x(v[i]) {
            proof {
                assert(v@.skip(i as int).drop_first() =~= v@.skip(i + 1));
            }
            i = i + 1;
        } else {
            let mut j: usize = i;
            let mut mot = String::new();
            while j < n && !est_espace_x(v[j])
                invariant
                    v@ == t@,
                    n == v@.len(),
                    i <= j <= n,
                    forall|k: int| i <= k < j ==> !est_espace(#[trigger] v@[k]),
                    mot@ == v@.subrange(i as int, j as int),
                decreases n - j,
            {
                pousser_car(&mut mot, v[j]);
                j = j + 1;
                assert(mot@ =~= v@.subrange(i as int, j as int));
            }
            proof {
                let s = v@.skip(i as int);
                lemme_long_mot(s, j - i);
                assert(s.take(j - i) =~= mot@);
                assert(s.skip(j - i) =~= v@.skip(j as int));
                assert(vue_mots(r@.push(mot)) =~= vue_mots(r@) + seq![mot@]);
            }
            r.push(mot);
            i = j;
        }
    }
    proof {
        assert(v@.skip(n as int) =~= Seq::<char>::empty());
        assert(vue_mots(r@) + Seq::<Seq<char>>::empty() =~= vue_mots(r@));
    }
    r
}

/// Égalité de deux textes.
pub fn egal(a: &str, b: &str) -> (r: bool)
    ensures
        r == (a@ == b@),
{
    let n = a.unicode_len();
    if n != b.unicode_len() {
        return false;
    }
    let mut i: usize = 0;
    while i < n
        invariant
            n == a@.len(),
            n == b@.len(),
            i <= n,
            a@.take(i as int) == b@.take(i as int),
        decreases n - i,
    {
        if a.get_char(i) != b.get_char(i) {
            return false;
        }
        i = i + 1;
        assert(a@.take(i as int) =~= a@.take(i - 1).push(a@[i - 1]));
        assert(b@.take(i as int) =~= b@.take(i - 1).push(b@[i - 1]));
    }
    assert(a@.take(n as int) =~= a@);
    assert(b@.take(n as int) =~= b@);
    true
}

/// Première position de `m` dans `s` à partir de `i`.
pub open spec fn trouver_depuis(s: Seq<char>, m: Seq<char>, i: int) -> Option<int>
    decreases s.len() + 1 - i,
{
    if i < 0 || i + m.len() > s.len() {
        None
    } else if s.subrange(i, i + m.len()) == m {
        Some(i)
    } else {
        trouver_depuis(s, m, i + 1)
    }
}

/// Première position de `m` dans `s` (`str::find`).
pub open spec fn trouver(s: Seq<char>, m: Seq<char>) -> Option<int> {
    trouver_depuis(s, m, 0)
}

/// Première position du motif `m` dans `s`.
pub fn chercher_motif(s: &Vec<char>, m: &Vec<char>) -> (r: Option<usize>)
    ensures
        r is None <==> trouver(s@, m@) is None,
        r matches Some(i) ==> trouver(s@, m@) == Some(i as int) && i + m@.len() <= s@.len(),
{
    let n = s.len();
    let k = m.len();
    if k > n {
        return None;
    }
    let mut i: usize = 0;
    while i <= n - k
        invariant
            n == s@.len(),
            k == m@.len(),
            k <= n,
            i <= n - k + 1,
            trouver_depuis(s@, m@, i as int) == trouver(s@, m@),
        decreases n - i,
    {
        let mut j: usize = 0;
        while j < k && s[i + j] == m[j]
            invariant
                n == s@.len(),
                k == m@.len(),
                i + k <= n,
                j <= k,
                s@.subrange(i as int, i + j) == m@.take(j as int),
            decreases k - j,
        {
            j = j + 1;
            assert(s@.subrange(i as int, i + j) =~= s@.subrange(i as int, i + j - 1).push(s@[i + j - 1]));
            assert(m@.take(j as int) =~= m@.take(j - 1).push(m@[j - 1]));
        }
        if j == k {
            assert(m@.take(k as int) =~= m@);
            return Some(i);
        }
        proof {
            assert(s@.subrange(i as int, i + k)[j as int] != m@[j as int]);
        }
        i = i + 1;
    }
    None
}

/// Chiffre hexadécimal majuscule de `d` (0 à 15).
pub open spec fn chiffre_hex(d: nat) -> char {
    if d < 10 {
        chiffre(d)
    } else if d == 10 {
        'A'
    } else if d == 11 {
        'B'
    } else if d == 12 {
        'C'
    } else if d == 13 {
        'D'
    } else if d == 14 {
        'E'
    } else {
        'F'
    }
}

/// Écriture hexadécimale majuscule de `n` sur `k` chiffres exactement (`{:0kX}` pour n < 16^k).
pub open spec fn hex(n: nat, k: nat) -> Seq<char>
    decreases k,
{
    if k == 0 {
        Seq::empty()
    } else {
        hex(n / 16, (k - 1) as nat).push(chiffre_hex(n % 16))
    }
}

pub fn chiffre_hex_x(d: u8) -> (r: char)
    requires
        d < 16,
    ensures
        r == chiffre_hex(d as nat),
{
    if d < 10 {
        chiffre_x(d)
    } else if d == 10 {
        'A'
    } else if d == 11 {
        'B'
    } else if d == 12 {
        'C'
    } else if d == 13 {
        'D'
    } else if d == 14 {
        'E'
    } else {
        'F'
    }
}

/// Ajoute l'écriture hexadécimale de `n` sur `k` chiffres.
pub fn pousser_hex(s: &mut String, n: u64, k: u64)
    ensures
        final(s)@ == old(s)@ + hex(n as nat, k as nat),
    decreases k,
{
    if k > 0 {
        pousser_hex(s, n / 16, k - 1);
        pousser_car(s, chiffre_hex_x((n % 16) as u8));
    }
    proof {
        assert(final(s)@ =~= old(s)@ + hex(n as nat, k as nat));
    }
}

/// Morceaux d'un texte séparés par `sep` (`str::split`).
pub open spec fn morceaux(s: Seq<char>, sep: char) -> Seq<Seq<char>>
    decreases s.len(),
{
    if s.len() == 0 {
        seq![Seq::empty()]
    } else {
        let r = morceaux(s.drop_last(), sep);
        if s.last() == sep {
            r.push(Seq::empty())
        } else {
            r.update(r.len() - 1, r.last().push(s.last()))
        }
    }
}

/// Il y a toujours au moins un morceau.
pub proof fn lemme_morceaux_non_vide(s: Seq<char>, sep: char)
    ensures
        morceaux(s, sep).len() >= 1,
    decreases s.len(),
{
    if s.len() > 0 {
        lemme_morceaux_non_vide(s.drop_last(), sep);
    }
}

/// Morceaux du texte `v` séparés par `sep`.
pub fn couper(v: &Vec<char>, sep: char) -> (r: Vec<String>)
    ensures
        vue_mots(r@) == morceaux(v@, sep),
{
    let mut r: Vec<String> = Vec::new();
    let mut courante = String::new();
    let mut i: usize = 0;
    while i < v.len()
        invariant
            i <= v@.len(),
            vue_mots(r@).push(courante@) == morceaux(v@.take(i as int), sep),
        decreases v@.len() - i,
    {
        proof {
            lemme_morceaux_non_vide(v@.take(i as int), sep);
            assert(v@.take(i + 1).drop_last() =~= v@.take(i as int));
        }
        let c = v[i];
        if c == sep {
            let fini = courante;
            r.push(fini);
            courante = String::new();
            proof {
                assert(vue_mots(r@) =~= vue_mots(r@.drop_last()).push(fini@));
            }
        } else {
            pousser_car(&mut courante, c);
            proof {
                let m = morceaux(v@.take(i as int), sep);
                assert(vue_mots(r@).push(courante@) =~= m.update(m.len() - 1, m.last().push(c)));
            }
        }
        i = i + 1;
    }
    proof {
        assert(v@.take(v@.len() as int) =~= v@);
    }
    r.push(courante);
    r
}

/// Chiffre décimal ASCII.
pub open spec fn est_chiffre(c: char) -> bool {
    48 <= (c as u32) && (c as u32) <= 57
}

/// Valeur d'une suite de chiffres décimaux.
pub open spec fn valeur_chiffres(s: Seq<char>) -> nat
    decreases s.len(),
{
    if s.len() == 0 {
        0
    } else {
        10 * valeur_chiffres(s.drop_last()) + ((s.last() as u32) - 48) as nat
    }
}

/// Texte fait de chiffres décimaux.
pub open spec fn tous_chiffres(d: Seq<char>) -> bool {
    forall|i: int| 0 <= i < d.len() ==> est_chiffre(#[trigger] d[i])
}

/// Lecture d'un octet en décimal (`u8::from_str`) : un signe `+` facultatif puis au moins un
/// chiffre, valeur au plus 255.
pub open spec fn analyser_u8_v(s: Seq<char>) -> Option<u8> {
    let d = if s.len() > 0 && s[0] == '+' {
        s.drop_first()
    } else {
        s
    };
    if d.len() == 0 || !tous_chiffres(d) {
        None
    } else if valeur_chiffres(d) > 255 {
        None
    } else {
        Some(valeur_chiffres(d) as u8)
    }
}

proof fn lemme_valeur_croissante(s: Seq<char>, i: int)
    requires
        0 <= i <= s.len(),
        forall|k: int| 0 <= k < s.len() ==> est_chiffre(#[trigger] s[k]),
    ensures
        valeur_chiffres(s.take(i)) <= valeur_chiffres(s),
    decreases s.len() - i,
{
    if i < s.len() {
        lemme_valeur_croissante(s, i + 1);
        let t = s.take(i + 1);
        assert(t.drop_last() =~= s.take(i));
        assert(est_chiffre(t.last()));
    } else {
        assert(s.take(i) =~= s);
    }
}

/// Lit un octet écrit en décimal.
pub fn analyser_u8(t: &str) -> (r: Option<u8>)
    ensures
        r == analyser_u8_v(t@),
{
    let v = caracteres(t);
    let mut debut: usize = 0;
    if v.len() > 0 && v[0] == '+' {
        debut = 1;
    }
    let ghost d = if t@.len() > 0 && t@[0] == '+' {
        t@.drop_first()
    } else {
        t@
    };
    assert(d =~= v@.skip(debut as int));
    if debut == v.len() {
        return None;
    }
    let mut valeur: u32 = 0;
    let mut i: usize = debut;
    while i < v.len()
        invariant
            v@ == t@,
            debut <= i <= v@.len(),
            d == v@.skip(debut as int),
            d == (if t@.len() > 0 && t@[0] == '+' {
                t@.drop_first()
            } else {
                t@
            }),
            valeur <= 255,
            valeur == valeur_chiffres(d.take(i - debut)),
            forall|k: int| 0 <= k < i - debut ==> est_chiffre(#[trigger] d[k]),
        decreases v@.len() - i,
    {
        let c = v[i];
        let u = c as u32;
        if !(u >= 48 && u <= 57) {
            proof {
                assert(d[i - debut] == c);
                assert(!est_chiffre(d[i - debut]));
                assert(!tous_chiffres(d));
            }
            return None;
        }
        proof {
            assert(d.take(i - debut + 1).drop_last() =~= d.take(i - debut));
            assert(d.take(i - debut + 1).last() == c);
            vstd::utf8::char_u32_cast(c, c as u32);
        }
        let n = valeur * 10 + (u - 48);
        proof {
            assert(valeur_chiffres(d.take(i - debut + 1)) == n);
        }
        if n > 255 {
            proof {
                if tous_chiffres(d) {
                    lemme_valeur_croissante(d, i - debut + 1);
                    assert(valeur_chiffres(d) > 255);
                }
            }
            return None;
        }
        valeur = n;
        i = i + 1;
    }
    proof {
        assert(d.take(d.len() as int) =~= d);
    }
    Some(valeur as u8)
}

/// Texte `a` suivi de `b`.
pub fn concat2(a: &str, b: &str) -> (r: String)
    ensures
        r@ == a@ + b@,
{
    let mut s = vers_chaine(a);
    pousser_texte(&mut s, b);
    s
}

/// Texte `a`, `b` puis `c`.
pub fn concat3(a: &str, b: &str, c: &str) -> (r: String)
    ensures
        r@ == a@ + b@ + c@,
{
    let mut s = vers_chaine(a);
    pousser_texte(&mut s, b);
    pousser_texte(&mut s, c);
    s
}

/// Texte `a`, `b`, `c`, `d` puis `e`.
pub fn concat5(a: &str, b: &str, c: &str, d: &str, e: &str) -> (r: String)
    ensures
        r@ == a@ + b@ + c@ + d@ + e@,
{
    let mut s = vers_chaine(a);
    pousser_texte(&mut s, b);
    pousser_texte(&mut s, c);
    pousser_texte(&mut s, d);
    pousser_texte(&mut s, e);
    s
}

/// Le texte contient le caractère `c`.
pub fn contient(t: &str, c: char) -> (r: bool)
    ensures
        r == t@.contains(c),
{
    let n = t.unicode_len();
    let mut i: usize = 0;
    while i < n
        invariant
            n == t@.len(),
            i <= n,
            forall|k: int| 0 <= k < i ==> t@[k] != c,
        decreases n - i,
    {
        if t.get_char(i) == c {
            return true;
        }
        i = i + 1;
    }
    false
}

/// Ligne sans son retour chariot final.
pub open spec fn sans_cr(l: Seq<char>) -> Seq<char> {
    if l.len() > 0 && l.last() == '\r' {
        l.drop_last()
    } else {
        l
    }
}

/// Lignes d'un texte (`str::lines`) : coupées aux sauts de ligne, sans le "\r" d'un "\r\n",
/// le dernier saut de ligne étant facultatif.
pub open spec fn lignes_v(s: Seq<char>) -> Seq<Seq<char>> {
    let m = morceaux(s, '\n');
    let debut = Seq::new((m.len() - 1) as nat, |i: int| sans_cr(m[i]));
    if m.last().len() == 0 {
        debut
    } else {
        debut.push(m.last())
    }
}

fn sans_cr_x(l: &String) -> (r: String)
    ensures
        r@ == sans_cr(l@),
{
    let v = caracteres(l.as_str());
    if v.len() > 0 && v[v.len() - 1] == '\r' {
        let mut r = String::new();
        let mut i: usize = 0;
        while i < v.len() - 1
            invariant
                v@ == l@,
                v@.len() > 0,
                i <= v@.len() - 1,
                r@ == v@.take(i as int),
            decreases v@.len() - 1 - i,
        {
            pousser_car(&mut r, v[i]);
            i = i + 1;
            assert(r@ =~= v@.take(i as int));
        }
        assert(v@.take(v@.len() - 1) =~= l@.drop_last());
        r
    } else {
        vers_chaine(l.as_str())
    }
}

/// Lignes d'un texte.
pub fn lignes(t: &str) -> (r: Vec<String>)
    ensures
        vue_mots(r@) == lignes_v(t@),
{
    let v = caracteres(t);
    let m = couper(&v, '\n');
    proof {
        lemme_morceaux_non_vide(t@, '\n');
    }
    let n = m.len();
    let mut r: Vec<String> = Vec::new();
    let mut i: usize = 0;
    while i < n - 1
        invariant
            vue_mots(m@) == morceaux(t@, '\n'),
            n == m@.len(),
            n >= 1,
            i <= n - 1,
            vue_mots(r@) == Seq::new(i as nat, |k: int| sans_cr(morceaux(t@, '\n')[k])),
        decreases n - 1 - i,
    {
        proof {
            assert(vue_mots(m@)[i as int] == m@[i as int]@);
        }
        let l = sans_cr_x(&m[i]);
        let ghost avant = r@;
        let ghost lv = l@;
        r.push(l);
        assert(vue_mots(r@) =~= vue_mots(avant).push(lv));
        i = i + 1;
        assert(vue_mots(r@) =~= Seq::new(i as nat, |k: int| sans_cr(morceaux(t@, '\n')[k])));
    }
    proof {
        assert(vue_mots(m@)[n - 1] == m@[n - 1]@);
    }
    let derniere = &m[n - 1];
    if derniere.as_str().unicode_len() > 0 {
        let ghost avant = r@;
        r.push(vers_chaine(derniere.as_str()));
        assert(vue_mots(r@) =~= vue_mots(avant).push(derniere@));
    }
    r
}

/// Chiffre hexadécimal minuscule de `d` (0 à 15).
pub open spec fn chiffre_hex_min(d: nat) -> char {
    if d < 10 {
        chiffre(d)
    } else if d == 10 {
        'a'
    } else if d == 11 {
        'b'
    } else if d == 12 {
        'c'
    } else if d == 13 {
        'd'
    } else if d == 14 {
        'e'
    } else {
        'f'
    }
}

/// Écriture hexadécimale minuscule de `n`, sans zéro de tête (`{:x}`).
pub open spec fn hex_minuscule(n: nat) -> Seq<char>
    decreases n,
{
    if n < 16 {
        seq![chiffre_hex_min(n)]
    } else {
        hex_minuscule(n / 16).push(chiffre_hex_min(n % 16))
    }
}

fn chiffre_hex_min_x(d: u8) -> (r: char)
    requires
        d < 16,
    ensures
        r == chiffre_hex_min(d as nat),
{
    if d < 10 {
        chiffre_x(d)
    } else if d == 10 {
        'a'
    } else if d == 11 {
        'b'
    } else if d == 12 {
        'c'
    } else if d == 13 {
        'd'
    } else if d == 14 {
        'e'
    } else {
        'f'
    }
}

/// Ajoute l'écriture hexadécimale minuscule de `n`.
pub fn pousser_hex_minuscule(s: &mut String, n: u64)
    ensures
        final(s)@ == old(s)@ + hex_minuscule(n as nat),
    decreases n,
{
    if n >= 16 {
        pousser_hex_minuscule(s, n / 16);
    }
    pousser_car(s, chiffre_hex_min_x((n % 16) as u8));
    proof {
        assert(final(s)@ =~= old(s)@ + hex_minuscule(n as nat));
    }
}

/// Lecture d'un entier non signé en décimal (`usize::from_str`) : un signe `+` facultatif puis au
/// moins un chiffre, valeur au plus `usize::MAX`.
pub open spec fn analyser_usize_v(s: Seq<char>) -> Option<usize> {
    let d = if s.len() > 0 && s[0] == '+' {
        s.drop_first()
    } else {
        s
    };
    if d.len() == 0 || !tous_chiffres(d) {
        None
    } else if valeur_chiffres(d) > usize::MAX {
        None
    } else {
        Some(valeur_chiffres(d) as usize)
    }
}

/// Lit un entier non signé écrit en décimal.
pub fn analyser_usize(t: &str) -> (r: Option<usize>)
    ensures
        r == analyser_usize_v(t@),
{
    let v = caracteres(t);
    let mut debut: usize = 0;
    if v.len() > 0 && v[0] == '+' {
        debut = 1;
    }
    let ghost d = if t@.len() > 0 && t@[0] == '+' {
        t@.drop_first()
    } else {
        t@
    };
    assert(d =~= v@.skip(debut as int));
    if debut == v.len() {
        return None;
    }
    let mut valeur: usize = 0;
    let mut i: usize = debut;
    while i < v.len()
        invariant
            v@ == t@,
            debut <= i <= v@.len(),
            d == v@.skip(debut as int),
            d == (if t@.len() > 0 && t@[0] == '+' {
                t@.drop_first()
            } else {
                t@
            }),
            valeur == valeur_chiffres(d.take(i - debut)),
            forall|k: int| 0 <= k < i - debut ==> est_chiffre(#[trigger] d[k]),
        decreases v@.len() - i,
    {
        let c = v[i];
        let u = c as u32;
        if !(u >= 48 && u <= 57) {
            proof {
                assert(d[i - debut] == c);
                assert(!est_chiffre(d[i - debut]));
                assert(!tous_chiffres(d));
            }
            return None;
        }
        proof {
            assert(d.take(i - debut + 1).drop_last() =~= d.take(i - debut));
            assert(d.take(i - debut + 1).last() == c);
        }
        let chiffre_v = (u - 48) as usize;
        if valeur > (usize::MAX - chiffre_v) / 10 {
            proof {
                assert(valeur_chiffres(d.take(i - debut + 1)) == 10 * valeur + chiffre_v);
                assert(10 * valeur + chiffre_v > usize::MAX) by (nonlinear_arith)
                    requires
                        valeur > (usize::MAX - chiffre_v) / 10,
                        chiffre_v <= 9,
                ;
                if tous_chiffres(d) {
                    lemme_valeur_croissante(d, i - debut + 1);
                }
            }
            return None;
        }
        assert(10 * valeur + chiffre_v <= usize::MAX) by (nonlinear_arith)
            requires
                valeur <= (usize::MAX - chiffre_v) / 10,
                chiffre_v <= 9,
        ;
        valeur = valeur * 10 + chiffre_v;
        proof {
            assert(valeur_chiffres(d.take(i - debut + 1)) == valeur);
        }
        i = i + 1;
    }
    proof {
        assert(d.take(d.len() as int) =~= d);
    }
    Some(valeur)
}

/// Comparaison stricte de deux suites de caractères (ordre des points de code).
pub fn lex_inferieur_car(a: &Vec<char>, b: &Vec<char>) -> (r: bool)
    ensures
        r == lex_lt(a@, b@),
{
    let la = a.len();
    let lb = b.len();
    let mut i: usize = 0;
    while i < la && i < lb
        invariant
            la == a@.len(),
            lb == b@.len(),
            i <= la,
            i <= lb,
            a@.take(i as int) =~= b@.take(i as int),
        decreases la - i,
    {
        let ca = a[i];
        let cb = b[i];
        if (ca as u32) != (cb as u32) {
            proof {
                lemme_lex_prefixe(a@, b@, i as int);
                assert(a@.skip(i as int)[0] == ca);
                assert(b@.skip(i as int)[0] == cb);
            }
            return (ca as u32) < (cb as u32);
        }
        proof {
            vstd::utf8::char_u32_cast(ca, ca as u32);
            vstd::utf8::char_u32_cast(cb, cb as u32);
            assert(a@.take(i + 1) =~= a@.take(i as int).push(ca));
            assert(b@.take(i + 1) =~= b@.take(i as int).push(cb));
        }
        i = i + 1;
    }
    proof {
        lemme_lex_prefixe(a@, b@, i as int);
    }
    i == la && i < lb
}

/// Comparaison stricte de deux noms.
pub fn lex_inferieur(a: &str, b: &str) -> (r: bool)
    ensures
        r == lex_lt(a@, b@),
{
    let va = caracteres(a);
    let vb = caracteres(b);
    lex_inferieur_car(&va, &vb)
}

/// Texte aligné à gauche sur `w` colonnes (`{:<w}`).
pub open spec fn a_gauche(s: Seq<char>, w: nat) -> Seq<char> {
    if s.len() < w {
        s + Seq::new((w - s.len()) as nat, |i: int| ' ')
    } else {
        s
    }
}

/// Ajoute `s` aligné à gauche sur `w` colonnes.
pub fn pousser_a_gauche(r: &mut String, s: &String, w: usize)
    ensures
        final(r)@ == old(r)@ + a_gauche(s@, w as nat),
{
    pousser_texte(r, s.as_str());
    let n = s.as_str().unicode_len();
    if n < w {
        let ghost milieu = r@;
        let mut i: usize = 0;
        while i < w - n
            invariant
                n < w,
                i <= w - n,
                r@ == milieu + Seq::new(i as nat, |k: int| ' '),
            decreases w - n - i,
        {
            pousser_car(r, ' ');
            i = i + 1;
            assert(r@ =~= milieu + Seq::new(i as nat, |k: int| ' '));
        }
    }
    assert(r@ =~= old(r)@ + a_gauche(s@, w as nat));
}


} // verus!
