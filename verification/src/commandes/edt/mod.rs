use vstd::prelude::*;
use std::string::String;
use std::vec::Vec;
use crate::fs::FileSystem;
use crate::texte::{decouper_mots, mots, vers_chaine};
use moteur::{Editeur, bien_forme, lancer_v};

pub mod affichage;
pub mod moteur;

verus! {

/// Le mot "-l".
pub open spec fn tiret_l() -> Seq<char> {
    seq!['-', 'l']
}

/// Nom ouvert quand aucun n'est donné, "nouveau.txt".
pub open spec fn nom_nouveau() -> Seq<char> {
    seq!['n', 'o', 'u', 'v', 'e', 'a', 'u', '.', 't', 'x', 't']
}

/// Premier mot qui n'est pas "-l".
pub open spec fn premier_nom(ws: Seq<Seq<char>>) -> Option<Seq<char>>
    decreases ws.len(),
{
    if ws.len() == 0 {
        None
    } else if ws[0] == tiret_l() {
        premier_nom(ws.drop_first())
    } else {
        Some(ws[0])
    }
}

/// Arguments de `edt` : l'option -l (numéros de ligne) et le nom du fichier ("nouveau.txt" s'il
/// manque).
pub open spec fn arguments_v(args: Seq<char>) -> (bool, Seq<char>) {
    let ws = mots(args);
    (
        ws.contains(tiret_l()),
        match premier_nom(ws) {
            Some(n) => n,
            None => nom_nouveau(),
        },
    )
}

fn est_tiret_l(s: &String) -> (r: bool)
    ensures
        r == (s@ == tiret_l()),
{
    let t = s.as_str();
    let r = t.unicode_len() == 2 && t.get_char(0) == '-' && t.get_char(1) == 'l';
    proof {
        if s@.len() == 2 && s@[0] == '-' && s@[1] == 'l' {
            assert(s@ =~= tiret_l());
        }
    }
    r
}

/// Lit les arguments de `edt` : option -l et nom du fichier.
pub fn analyser_arguments(args: &str) -> (r: (bool, String))
    ensures
        (r.0, r.1@) == arguments_v(args@),
{
    let ws = decouper_mots(args);
    let ghost vm = mots(args@);
    let mut option_l = false;
    let mut nom: Option<String> = None;
    let mut i: usize = 0;
    proof {
        assert(vm.skip(0) =~= vm);
        assert(!vm.take(0).contains(tiret_l()));
    }
    while i < ws.len()
        invariant
            i <= ws@.len(),
            ws@.len() == vm.len(),
            forall|k: int| 0 <= k < ws@.len() ==> #[trigger] ws@[k]@ == vm[k],
            vm == mots(args@),
            option_l == vm.take(i as int).contains(tiret_l()),
            premier_nom(vm) == match nom {
                Some(n) => Some(n@),
                None => premier_nom(vm.skip(i as int)),
            },
        decreases ws@.len() - i,
    {
        proof {
            assert(vm.skip(i as int)[0] == vm[i as int]);
            assert(vm.skip(i as int).drop_first() =~= vm.skip(i + 1));
            assert(vm.take(i + 1) =~= vm.take(i as int).push(vm[i as int]));
        }
        let ghost avant = option_l;
        if est_tiret_l(&ws[i]) {
            option_l = true;
        } else if nom.is_none() {
            nom = Some(vers_chaine(ws[i].as_str()));
        }
        proof {
            let p = vm.take(i + 1);
            if vm[i as int] == tiret_l() {
                assert(p[i as int] == tiret_l());
            } else if avant {
                let k = choose|k: int| 0 <= k < i && vm.take(i as int)[k] == tiret_l();
                assert(p[k] == tiret_l());
            } else {
                assert forall|k: int| 0 <= k < p.len() implies p[k] != tiret_l() by {
                    if k < i {
                        assert(p[k] == vm.take(i as int)[k]);
                    }
                }
            }
        }
        i = i + 1;
    }
    proof {
        assert(vm.take(ws@.len() as int) =~= vm);
        assert(vm.skip(ws@.len() as int).len() == 0);
    }
    let n = match nom {
        Some(n) => n,
        None => {
            let d = vers_chaine("nouveau.txt");
            proof {
                reveal_strlit("nouveau.txt");
                assert(d@ =~= nom_nouveau());
            }
            d
        },
    };
    (option_l, n)
}

/// Commande `edt [-l] [fichier]` : ouvre l'éditeur sur le fichier du répertoire courant.
pub fn executer(editeur: &mut Editeur, args: &str, fs: &FileSystem)
    ensures
        bien_forme(final(editeur)),
        final(editeur)@ == lancer_v(old(editeur)@, arguments_v(args@).0, arguments_v(args@).1, fs@),
{
    let (option_l, nom) = analyser_arguments(args);
    editeur.lancer(option_l, nom.as_str(), fs);
}

} // verus!
