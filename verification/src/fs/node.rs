use vstd::prelude::*;
use std::string::String;
use std::vec::Vec;

verus! {

/// Heure (h, m, s) attachée à chaque nœud du VFS.
#[derive(Clone, Copy, Debug, PartialEq, Eq, Structural)]
pub struct Horodatage {
    pub heure: u8,
    pub minute: u8,
    pub seconde: u8,
}

impl Horodatage {
    pub fn new(heure: u8, minute: u8, seconde: u8) -> (r: Self)
        ensures
            r == (Horodatage { heure, minute, seconde }),
    {
        Horodatage { heure, minute, seconde }
    }

    pub fn zero() -> (r: Self)
        ensures
            r == (Horodatage { heure: 0, minute: 0, seconde: 0 }),
    {
        Horodatage { heure: 0, minute: 0, seconde: 0 }
    }
}

/// Modèle mathématique d'un nœud : un fichier (octets) ou un dossier
/// (suite d'entrées nommées, triées par nom).
pub enum NoeudV {
    Fichier(Seq<u8>, Horodatage),
    Dossier(Seq<(Seq<char>, NoeudV)>, Horodatage),
}

/// Nœud de l'arbre du VFS. Les enfants d'un dossier sont rangés par nom
/// strictement croissant (ordre des octets UTF-8, c'est-à-dire des points de code).
pub enum Node {
    File { data: Vec<u8>, horodatage: Horodatage },
    Directory { children: Vec<(String, Node)>, horodatage: Horodatage },
}

pub open spec fn vue_enfants(s: Seq<(String, Node)>) -> Seq<(Seq<char>, NoeudV)>
    decreases s,
{
    if s.len() == 0 {
        Seq::empty()
    } else {
        vue_enfants(s.drop_last()).push((s.last().0@, vue_noeud(s.last().1)))
    }
}

pub open spec fn vue_noeud(n: Node) -> NoeudV
    decreases n,
{
    match n {
        Node::File { data, horodatage } => NoeudV::Fichier(data@, horodatage),
        Node::Directory { children, horodatage } => NoeudV::Dossier(
            vue_enfants(children@),
            horodatage,
        ),
    }
}

impl View for Node {
    type V = NoeudV;

    open spec fn view(&self) -> NoeudV {
        vue_noeud(*self)
    }
}

/// La vue des enfants se lit entrée par entrée.
pub proof fn lemme_vue_enfants(s: Seq<(String, Node)>)
    ensures
        vue_enfants(s).len() == s.len(),
        forall|i: int|
            0 <= i < s.len() ==> #[trigger] vue_enfants(s)[i] == (s[i].0@, vue_noeud(s[i].1)),
    decreases s.len(),
{
    if s.len() > 0 {
        lemme_vue_enfants(s.drop_last());
    }
}

// ---------------------------------------------------------------------------
// Ordre des noms
// ---------------------------------------------------------------------------

/// Ordre lexicographique strict sur les noms (par point de code).
pub open spec fn lex_lt(a: Seq<char>, b: Seq<char>) -> bool
    decreases a.len(),
{
    if b.len() == 0 {
        false
    } else if a.len() == 0 {
        true
    } else if (a[0] as u32) < (b[0] as u32) {
        true
    } else if a[0] == b[0] {
        lex_lt(a.drop_first(), b.drop_first())
    } else {
        false
    }
}

pub proof fn lemme_lex_irreflexif(a: Seq<char>)
    ensures
        !lex_lt(a, a),
    decreases a.len(),
{
    if a.len() > 0 {
        lemme_lex_irreflexif(a.drop_first());
    }
}

pub proof fn lemme_lex_asymetrique(a: Seq<char>, b: Seq<char>)
    ensures
        lex_lt(a, b) ==> !lex_lt(b, a),
    decreases a.len(),
{
    if a.len() > 0 && b.len() > 0 && a[0] == b[0] {
        lemme_lex_asymetrique(a.drop_first(), b.drop_first());
    }
}

pub proof fn lemme_lex_transitif(a: Seq<char>, b: Seq<char>, c: Seq<char>)
    ensures
        lex_lt(a, b) && lex_lt(b, c) ==> lex_lt(a, c),
    decreases a.len(),
{
    if a.len() > 0 && b.len() > 0 && c.len() > 0 {
        lemme_lex_transitif(a.drop_first(), b.drop_first(), c.drop_first());
    }
}

pub proof fn lemme_lex_total(a: Seq<char>, b: Seq<char>)
    ensures
        a != b ==> lex_lt(a, b) || lex_lt(b, a),
    decreases a.len(),
{
    if a.len() > 0 && b.len() > 0 {
        lemme_lex_total(a.drop_first(), b.drop_first());
        if (a[0] as u32) == (b[0] as u32) {
            vstd::utf8::char_u32_cast(a[0], a[0] as u32);
            vstd::utf8::char_u32_cast(b[0], b[0] as u32);
        }
        if a[0] == b[0] && a.drop_first() == b.drop_first() {
            assert(a =~= seq![a[0]] + a.drop_first());
            assert(b =~= seq![b[0]] + b.drop_first());
        }
    } else if a.len() == 0 && b.len() == 0 {
        assert(a =~= b);
    }
}

/// Si deux noms ont le même préfixe de longueur i, leur ordre est celui des suffixes.
pub proof fn lemme_lex_prefixe(a: Seq<char>, b: Seq<char>, i: int)
    requires
        0 <= i <= a.len(),
        i <= b.len(),
        a.take(i) =~= b.take(i),
    ensures
        lex_lt(a, b) == lex_lt(a.skip(i), b.skip(i)),
    decreases i,
{
    if i > 0 {
        assert(a[0] == a.take(i)[0]);
        assert(b[0] == b.take(i)[0]);
        assert(a.drop_first().take(i - 1) =~= a.take(i).drop_first());
        assert(b.drop_first().take(i - 1) =~= b.take(i).drop_first());
        lemme_lex_prefixe(a.drop_first(), b.drop_first(), i - 1);
        assert(a.drop_first().skip(i - 1) =~= a.skip(i));
        assert(b.drop_first().skip(i - 1) =~= b.skip(i));
    } else {
        assert(a.skip(0) =~= a);
        assert(b.skip(0) =~= b);
    }
}

// ---------------------------------------------------------------------------
// Opérations abstraites sur les entrées d'un dossier
// ---------------------------------------------------------------------------

/// Les noms des entrées sont strictement croissants.
pub open spec fn trie(s: Seq<(Seq<char>, NoeudV)>) -> bool {
    forall|i: int, j: int| 0 <= i < j < s.len() ==> lex_lt(#[trigger] s[i].0, #[trigger] s[j].0)
}

pub open spec fn a_enfant(s: Seq<(Seq<char>, NoeudV)>, nom: Seq<char>) -> bool {
    exists|i: int| 0 <= i < s.len() && (#[trigger] s[i]).0 == nom
}

pub open spec fn indice(s: Seq<(Seq<char>, NoeudV)>, nom: Seq<char>) -> int {
    choose|i: int| 0 <= i < s.len() && (#[trigger] s[i]).0 == nom
}

/// L'entrée portant ce nom, s'il y en a une.
pub open spec fn enfant(s: Seq<(Seq<char>, NoeudV)>, nom: Seq<char>) -> Option<NoeudV> {
    if a_enfant(s, nom) {
        Some(s[indice(s, nom)].1)
    } else {
        None
    }
}

/// Nombre d'entrées dont le nom précède `nom` (position d'insertion).
pub open spec fn est_rang(s: Seq<(Seq<char>, NoeudV)>, nom: Seq<char>, k: int) -> bool {
    &&& 0 <= k <= s.len()
    &&& forall|j: int| 0 <= j < k ==> lex_lt(#[trigger] s[j].0, nom)
    &&& forall|j: int| k <= j < s.len() ==> !lex_lt(#[trigger] s[j].0, nom)
}

pub open spec fn rang(s: Seq<(Seq<char>, NoeudV)>, nom: Seq<char>) -> int {
    choose|k: int| est_rang(s, nom, k)
}

/// Insertion (ou remplacement) d'une entrée en gardant l'ordre des noms.
pub open spec fn inserer_enfant(
    s: Seq<(Seq<char>, NoeudV)>,
    nom: Seq<char>,
    v: NoeudV,
) -> Seq<(Seq<char>, NoeudV)> {
    if a_enfant(s, nom) {
        s.update(indice(s, nom), (nom, v))
    } else {
        s.insert(rang(s, nom), (nom, v))
    }
}

/// Retrait de l'entrée portant ce nom, si elle existe.
pub open spec fn retirer_enfant(s: Seq<(Seq<char>, NoeudV)>, nom: Seq<char>) -> Seq<
    (Seq<char>, NoeudV),
> {
    if a_enfant(s, nom) {
        s.remove(indice(s, nom))
    } else {
        s
    }
}

/// Dans une suite triée, un nom présent l'est à un seul indice.
pub proof fn lemme_indice_unique(s: Seq<(Seq<char>, NoeudV)>, nom: Seq<char>, i: int)
    requires
        trie(s),
        0 <= i < s.len(),
        s[i].0 == nom,
    ensures
        a_enfant(s, nom),
        indice(s, nom) == i,
{
    let k = indice(s, nom);
    assert(0 <= k < s.len() && s[k].0 == nom);
    if k < i {
        assert(lex_lt(s[k].0, s[i].0));
        lemme_lex_irreflexif(nom);
    } else if i < k {
        assert(lex_lt(s[i].0, s[k].0));
        lemme_lex_irreflexif(nom);
    }
}

/// Une position d'insertion trouvée est la seule.
pub proof fn lemme_rang_unique(s: Seq<(Seq<char>, NoeudV)>, nom: Seq<char>, k: int)
    requires
        est_rang(s, nom, k),
    ensures
        rang(s, nom) == k,
{
    let r = rang(s, nom);
    assert(est_rang(s, nom, r));
    if r < k {
        assert(lex_lt(s[r].0, nom));
    } else if k < r {
        assert(lex_lt(s[k].0, nom));
    }
}

/// Dans une suite triée, la position d'insertion existe.
pub proof fn lemme_rang_existe(s: Seq<(Seq<char>, NoeudV)>, nom: Seq<char>)
    requires
        trie(s),
    ensures
        est_rang(s, nom, rang(s, nom)),
    decreases s.len(),
{
    if s.len() == 0 {
        assert(est_rang(s, nom, 0));
    } else {
        let t = s.drop_last();
        assert(trie(t)) by {
            assert forall|i: int, j: int| 0 <= i < j < t.len() implies lex_lt(
                #[trigger] t[i].0,
                #[trigger] t[j].0,
            ) by {
                assert(lex_lt(s[i].0, s[j].0));
            }
        }
        lemme_rang_existe(t, nom);
        let k = rang(t, nom);
        if lex_lt(s.last().0, nom) {
            assert forall|j: int| 0 <= j < s.len() implies lex_lt(#[trigger] s[j].0, nom) by {
                if j < s.len() - 1 {
                    assert(lex_lt(s[j].0, s[s.len() - 1].0));
                    lemme_lex_transitif(s[j].0, s.last().0, nom);
                }
            }
            assert(est_rang(s, nom, s.len() as int));
        } else {
            assert(est_rang(s, nom, k)) by {
                assert forall|j: int| k <= j < s.len() implies !lex_lt(#[trigger] s[j].0, nom) by {
                    if j < s.len() - 1 {
                        assert(t[j] == s[j]);
                    }
                }
                assert forall|j: int| 0 <= j < k implies lex_lt(#[trigger] s[j].0, nom) by {
                    assert(t[j] == s[j]);
                }
            }
        }
    }
}

/// Après insertion, le nom désigne le nouveau nœud et les autres noms n'ont pas bougé.
pub proof fn lemme_inserer_enfant(s: Seq<(Seq<char>, NoeudV)>, nom: Seq<char>, v: NoeudV)
    requires
        trie(s),
    ensures
        trie(inserer_enfant(s, nom, v)),
        enfant(inserer_enfant(s, nom, v), nom) == Some(v),
        forall|autre: Seq<char>|
            autre != nom ==> #[trigger] enfant(inserer_enfant(s, nom, v), autre) == enfant(s, autre),
{
    let t = inserer_enfant(s, nom, v);
    if a_enfant(s, nom) {
        let i = indice(s, nom);
        assert forall|a: int, b: int| 0 <= a < b < t.len() implies lex_lt(
            #[trigger] t[a].0,
            #[trigger] t[b].0,
        ) by {
            assert(lex_lt(s[a].0, s[b].0));
        }
        lemme_indice_unique(t, nom, i);
        assert forall|autre: Seq<char>| autre != nom implies #[trigger] enfant(t, autre) == enfant(s, autre) by {
            if a_enfant(s, autre) {
                let j = indice(s, autre);
                assert(t[j] == s[j]);
                lemme_indice_unique(t, autre, j);
            }
            if a_enfant(t, autre) {
                let j = indice(t, autre);
                assert(t[j] == s[j]);
            }
        }
    } else {
        lemme_rang_existe(s, nom);
        let k = rang(s, nom);
        assert forall|a: int, b: int| 0 <= a < b < t.len() implies lex_lt(
            #[trigger] t[a].0,
            #[trigger] t[b].0,
        ) by {
            if b == k {
                assert(lex_lt(s[a].0, nom));
            } else if a == k {
                let sb = s[b - 1].0;
                assert(!lex_lt(sb, nom));
                assert(sb != nom);
                lemme_lex_total(sb, nom);
            } else if a < k && b > k {
                assert(lex_lt(s[a].0, s[b - 1].0));
            } else if b < k {
                assert(lex_lt(s[a].0, s[b].0));
            } else {
                assert(lex_lt(s[a - 1].0, s[b - 1].0));
            }
        }
        lemme_indice_unique(t, nom, k);
        assert forall|autre: Seq<char>| autre != nom implies #[trigger] enfant(t, autre) == enfant(s, autre) by {
            if a_enfant(s, autre) {
                let j = indice(s, autre);
                let jj = if j < k { j } else { j + 1 };
                assert(t[jj] == s[j]);
                lemme_indice_unique(t, autre, jj);
            }
            if a_enfant(t, autre) {
                let j = indice(t, autre);
                let jj = if j < k { j } else { j - 1 };
                assert(s[jj] == t[j]);
            }
        }
    }
}

/// Après retrait, le nom ne désigne plus rien et les autres noms n'ont pas bougé.
pub proof fn lemme_retirer_enfant(s: Seq<(Seq<char>, NoeudV)>, nom: Seq<char>)
    requires
        trie(s),
    ensures
        trie(retirer_enfant(s, nom)),
        enfant(retirer_enfant(s, nom), nom) is None,
        forall|autre: Seq<char>|
            autre != nom ==> #[trigger] enfant(retirer_enfant(s, nom), autre) == enfant(s, autre),
{
    let t = retirer_enfant(s, nom);
    if a_enfant(s, nom) {
        let i = indice(s, nom);
        assert forall|a: int, b: int| 0 <= a < b < t.len() implies lex_lt(
            #[trigger] t[a].0,
            #[trigger] t[b].0,
        ) by {
            if a < i && b >= i {
                assert(lex_lt(s[a].0, s[b + 1].0));
            } else if b < i {
                assert(lex_lt(s[a].0, s[b].0));
            } else {
                assert(lex_lt(s[a + 1].0, s[b + 1].0));
            }
        }
        if a_enfant(t, nom) {
            let j = indice(t, nom);
            let jj = if j < i { j } else { j + 1 };
            assert(s[jj] == t[j]);
            lemme_indice_unique(s, nom, jj);
        }
        assert forall|autre: Seq<char>| autre != nom implies #[trigger] enfant(t, autre) == enfant(s, autre) by {
            if a_enfant(s, autre) {
                let j = indice(s, autre);
                let jj = if j < i { j } else { j - 1 };
                assert(t[jj] == s[j]);
                lemme_indice_unique(t, autre, jj);
            }
            if a_enfant(t, autre) {
                let j = indice(t, autre);
                let jj = if j < i { j } else { j + 1 };
                assert(s[jj] == t[j]);
                lemme_indice_unique(s, autre, jj);
            }
        }
    }
}

// ---------------------------------------------------------------------------
// Arbre : bonne forme, accès et remplacement le long d'un chemin
// ---------------------------------------------------------------------------

pub open spec fn bien_forme(n: NoeudV) -> bool
    decreases n,
{
    match n {
        NoeudV::Fichier(_, _) => true,
        NoeudV::Dossier(enf, _) => trie(enf) && enfants_bien_formes(enf),
    }
}

pub open spec fn enfants_bien_formes(s: Seq<(Seq<char>, NoeudV)>) -> bool
    decreases s,
{
    if s.len() == 0 {
        true
    } else {
        enfants_bien_formes(s.drop_last()) && bien_forme(s.last().1)
    }
}

pub proof fn lemme_enfants_bien_formes(s: Seq<(Seq<char>, NoeudV)>)
    ensures
        enfants_bien_formes(s) <==> forall|i: int| 0 <= i < s.len() ==> bien_forme(#[trigger] s[i].1),
    decreases s.len(),
{
    if s.len() > 0 {
        lemme_enfants_bien_formes(s.drop_last());
        if forall|i: int| 0 <= i < s.len() ==> bien_forme(#[trigger] s[i].1) {
            assert forall|i: int| 0 <= i < s.drop_last().len() implies bien_forme(
                #[trigger] s.drop_last()[i].1,
            ) by {
                assert(s.drop_last()[i] == s[i]);
            }
        }
        if enfants_bien_formes(s) {
            assert forall|i: int| 0 <= i < s.len() implies bien_forme(#[trigger] s[i].1) by {
                if i < s.len() - 1 {
                    assert(s.drop_last()[i] == s[i]);
                }
            }
        }
    }
}

/// Le nœud atteint en suivant `p` depuis `n`.
pub open spec fn acces(n: NoeudV, p: Seq<Seq<char>>) -> Option<NoeudV>
    decreases p.len(),
{
    if p.len() == 0 {
        Some(n)
    } else {
        match n {
            NoeudV::Fichier(_, _) => None,
            NoeudV::Dossier(enf, _) => if a_enfant(enf, p[0]) {
                acces(enf[indice(enf, p[0])].1, p.drop_first())
            } else {
                None
            },
        }
    }
}

/// `n` où le nœud au bout de `p` est remplacé par `v` (inchangé si `p` n'existe pas).
pub open spec fn remplacer(n: NoeudV, p: Seq<Seq<char>>, v: NoeudV) -> NoeudV
    decreases p.len(),
{
    if p.len() == 0 {
        v
    } else {
        match n {
            NoeudV::Fichier(_, _) => n,
            NoeudV::Dossier(enf, h) => if a_enfant(enf, p[0]) {
                let i = indice(enf, p[0]);
                NoeudV::Dossier(enf.update(i, (p[0], remplacer(enf[i].1, p.drop_first(), v))), h)
            } else {
                n
            },
        }
    }
}

pub open spec fn vue_chemin(p: Seq<String>) -> Seq<Seq<char>> {
    p.map_values(|s: String| s@)
}

impl Node {
    pub fn nouveau_fichier(data: Vec<u8>, horodatage: Horodatage) -> (r: Self)
        ensures
            r@ == NoeudV::Fichier(data@, horodatage),
    {
        Node::File { data, horodatage }
    }

    pub fn nouveau_dossier(horodatage: Horodatage) -> (r: Self)
        ensures
            r@ == NoeudV::Dossier(Seq::empty(), horodatage),
    {
        let r = Node::Directory { children: Vec::new(), horodatage };
        proof {
            assert(vue_enfants(Seq::<(String, Node)>::empty()) =~= Seq::empty());
        }
        r
    }

    pub fn est_un_dossier(&self) -> (r: bool)
        ensures
            r == (self@ is Dossier),
    {
        match self {
            Node::Directory { .. } => true,
            Node::File { .. } => false,
        }
    }

    pub fn est_un_fichier(&self) -> (r: bool)
        ensures
            r == (self@ is Fichier),
    {
        match self {
            Node::File { .. } => true,
            Node::Directory { .. } => false,
        }
    }

    pub fn horodatage(&self) -> (r: Horodatage)
        ensures
            r == horodatage_v(self@),
    {
        match self {
            Node::File { horodatage, .. } => *horodatage,
            Node::Directory { horodatage, .. } => *horodatage,
        }
    }
}

pub open spec fn horodatage_v(n: NoeudV) -> Horodatage {
    match n {
        NoeudV::Fichier(_, h) => h,
        NoeudV::Dossier(_, h) => h,
    }
}

} // verus!
