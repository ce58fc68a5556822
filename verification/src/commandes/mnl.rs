use vstd::prelude::*;
use std::string::String;
use std::vec::Vec;
use crate::texte::{egal, pousser_texte, rogner, rogner_v, vers_chaine, vue_mots};

verus! {

/// Commandes qui ont une page de manuel, dans l'ordre du sommaire.
pub open spec fn noms_v() -> Seq<Seq<char>> {
    seq![
        "afn"@, "aide"@, "cat"@, "cdr"@, "cpr"@, "ctr"@, "df"@, "dpc"@, "dsk"@, "echo"@, "edt"@, "inf"@, "ls"@,
        "mmr"@, "mnl"@, "net"@, "ntr"@, "pager"@, "pci"@, "probe"@, "qtr"@, "rnm"@, "snf"@, "spp"@, "su"@,
        "sync"@, "tmps"@, "tpf"@, "tsk"@, "ver"@,
    ]
}

/// Noms des pages de manuel.
pub fn noms_pages() -> (r: Vec<&'static str>)
    ensures
        r@.map_values(|s: &str| s@) == noms_v(),
{
    let r = vec![
        "afn", "aide", "cat", "cdr", "cpr", "ctr", "df", "dpc", "dsk", "echo", "edt", "inf", "ls", "mmr", "mnl",
        "net", "ntr", "pager", "pci", "probe", "qtr", "rnm", "snf", "spp", "su", "sync", "tmps", "tpf", "tsk",
        "ver",
    ];
    assert(r@.map_values(|s: &str| s@) =~= noms_v());
    r
}

/// Noms séparés par ", ".
pub open spec fn joindre_virgules(l: Seq<Seq<char>>) -> Seq<char>
    decreases l.len(),
{
    if l.len() == 0 {
        Seq::empty()
    } else if l.len() == 1 {
        l[0]
    } else {
        joindre_virgules(l.drop_last()) + ", "@ + l.last()
    }
}

/// Plus petit de deux entiers.
pub open spec fn plus_petit(a: int, b: int) -> int {
    if a < b { a } else { b }
}

/// Sommaire : les noms par groupes de six, un groupe par ligne.
pub open spec fn sommaire_v(noms: Seq<Seq<char>>) -> Seq<Seq<char>> {
    Seq::new(
        ((noms.len() + 5) / 6) as nat,
        |k: int| "  "@ + joindre_virgules(noms.subrange(6 * k, plus_petit(6 * k + 6, noms.len() as int))),
    )
}

/// Ce que `mnl` fait afficher : des lignes, ou la page de manuel d'une commande.
pub enum SortieMnl {
    Lignes(Vec<String>),
    Page(String),
}

/// Ce que `mnl <commande>` affiche.
pub enum SortieMnlV {
    Lignes(Seq<Seq<char>>),
    Page(Seq<char>),
}

pub open spec fn vue_sortie_mnl(s: SortieMnl) -> SortieMnlV {
    match s {
        SortieMnl::Lignes(v) => SortieMnlV::Lignes(vue_mots(v@)),
        SortieMnl::Page(t) => SortieMnlV::Page(t@),
    }
}

/// Sans argument, l'usage et le sommaire ; la page de la commande si elle en a une ; sinon un
/// message qui renvoie au sommaire.
pub open spec fn mnl_v(commande: Seq<char>) -> SortieMnlV {
    let cmd = rogner_v(commande);
    if cmd.len() == 0 {
        SortieMnlV::Lignes(seq!["Usage : mnl <commande>"@, "Pages de manuel disponibles :"@] + sommaire_v(noms_v()))
    } else if noms_v().contains(cmd) {
        SortieMnlV::Page(cmd)
    } else {
        SortieMnlV::Lignes(
            seq![
                "Aucune page de manuel pour : "@ + cmd,
                "Tapez 'mnl' sans argument pour voir la liste des commandes."@,
            ],
        )
    }
}

fn ligne_groupe(noms: &Vec<&'static str>, debut: usize, fin: usize) -> (r: String)
    requires
        debut < fin <= noms@.len(),
    ensures
        r@ == "  "@ + joindre_virgules(noms@.map_values(|s: &str| s@).subrange(debut as int, fin as int)),
{
    let ghost vn = noms@.map_values(|s: &str| s@);
    let mut l = vers_chaine("  ");
    pousser_texte(&mut l, noms[debut]);
    let mut j: usize = debut + 1;
    proof {
        assert(vn.subrange(debut as int, j as int) =~= seq![vn[debut as int]]);
    }
    while j < fin
        invariant
            vn == noms@.map_values(|s: &str| s@),
            debut < j <= fin <= noms@.len(),
            l@ == "  "@ + joindre_virgules(vn.subrange(debut as int, j as int)),
        decreases fin - j,
    {
        pousser_texte(&mut l, ", ");
        pousser_texte(&mut l, noms[j]);
        proof {
            let g = vn.subrange(debut as int, j + 1);
            assert(g.drop_last() =~= vn.subrange(debut as int, j as int));
            assert(g.last() == noms@[j as int]@);
        }
        j = j + 1;
    }
    l
}

/// Commande `mnl <commande>`.
pub fn executer(commande: &str) -> (r: SortieMnl)
    ensures
        vue_sortie_mnl(r) == mnl_v(commande@),
{
    let cmd = rogner(commande);
    let noms = noms_pages();
    let ghost vn = noms@.map_values(|s: &str| s@);
    let longueur = cmd.as_str().unicode_len();
    assert(longueur == cmd@.len());
    if longueur == 0 {
        let mut r: Vec<String> = Vec::new();
        r.push(vers_chaine("Usage : mnl <commande>"));
        r.push(vers_chaine("Pages de manuel disponibles :"));
        let ghost entete = vue_mots(r@);
        assert(entete =~= seq!["Usage : mnl <commande>"@, "Pages de manuel disponibles :"@]);
        let n = noms.len();
        let mut k: usize = 0;
        while 6 * k < n
            invariant
                n == noms@.len(),
                n == 30,
                vn == noms@.map_values(|s: &str| s@),
                vn == noms_v(),
                6 * k <= n + 5,
                vue_mots(r@) == entete + sommaire_v(vn).take(k as int),
            decreases n + 6 - 6 * k,
        {
            let fin = if 6 * k + 6 < n { 6 * k + 6 } else { n };
            let l = ligne_groupe(&noms, 6 * k, fin);
            let ghost avant = r@;
            r.push(l);
            proof {
                assert(sommaire_v(vn).len() == 5);
                assert(k < 5);
                assert(sommaire_v(vn).take(k + 1) =~= sommaire_v(vn).take(k as int).push(sommaire_v(vn)[k as int]));
                assert(vue_mots(r@) =~= vue_mots(avant).push(l@));
            }
            k = k + 1;
        }
        proof {
            assert(k == 5);
            assert(sommaire_v(vn).take(5) =~= sommaire_v(vn));
            assert(cmd@.len() == 0);
        }
        return SortieMnl::Lignes(r);
    }
    let mut i: usize = 0;
    while i < noms.len()
        invariant
            i <= noms@.len(),
            vn == noms@.map_values(|s: &str| s@),
            vn == noms_v(),
            cmd@ == rogner_v(commande@),
            cmd@.len() > 0,
            forall|j: int| 0 <= j < i ==> vn[j] != cmd@,
        decreases noms@.len() - i,
    {
        if egal(noms[i], cmd.as_str()) {
            proof {
                assert(vn[i as int] == cmd@);
                assert(noms_v().contains(cmd@));
                assert(cmd@.len() > 0);
            }
            return SortieMnl::Page(cmd);
        }
        i = i + 1;
    }
    proof {
        assert(!noms_v().contains(cmd@));
    }
    let mut l1 = vers_chaine("Aucune page de manuel pour : ");
    pousser_texte(&mut l1, cmd.as_str());
    let mut r: Vec<String> = Vec::new();
    r.push(l1);
    r.push(vers_chaine("Tapez 'mnl' sans argument pour voir la liste des commandes."));
    assert(vue_mots(r@) =~= seq![
        "Aucune page de manuel pour : "@ + cmd@,
        "Tapez 'mnl' sans argument pour voir la liste des commandes."@,
    ]);
    SortieMnl::Lignes(r)
}

} // verus!
