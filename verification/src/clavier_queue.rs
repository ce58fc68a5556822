use vstd::prelude::*;
use std::vec::Vec;

verus! {

/// Nombre de cases du tampon ; la file en garde une libre, elle contient donc au plus 255 codes.
pub const QUEUE_SIZE: usize = 256;

/// File des codes clavier : tampon circulaire entre l'interruption et la boucle principale.
pub struct ClavierQueue {
    tampon: Vec<u8>,
    tete: usize,
    queue: usize,
}

impl View for ClavierQueue {
    type V = Seq<u8>;

    /// Codes en attente, du plus ancien au plus récent.
    closed spec fn view(&self) -> Seq<u8> {
        let n = (self.tete + QUEUE_SIZE - self.queue) % (QUEUE_SIZE as int);
        Seq::new(n as nat, |i: int| self.tampon@[(self.queue + i) % (QUEUE_SIZE as int)])
    }
}

/// Issue d'un ajout : refus si la file est pleine, sinon le code se range en dernier.
pub open spec fn pousser_v(c: Seq<u8>, x: u8) -> (Result<(), ()>, Seq<u8>) {
    if c.len() >= QUEUE_SIZE - 1 {
        (Err(()), c)
    } else {
        (Ok(()), c.push(x))
    }
}

/// Issue d'un retrait : rien si la file est vide, sinon le plus ancien code en sort.
pub open spec fn retirer_v(c: Seq<u8>) -> (Option<u8>, Seq<u8>) {
    if c.len() == 0 {
        (None, c)
    } else {
        (Some(c[0]), c.drop_first())
    }
}

impl ClavierQueue {
    /// Tampon de 256 cases, indices dans les bornes.
    pub closed spec fn bien_forme(&self) -> bool {
        &&& self.tampon@.len() == QUEUE_SIZE
        &&& self.tete < QUEUE_SIZE
        &&& self.queue < QUEUE_SIZE
    }

    /// File vide.
    pub fn new() -> (r: Self)
        ensures
            r.bien_forme(),
            r@ == Seq::<u8>::empty(),
    {
        let mut tampon: Vec<u8> = Vec::new();
        let mut i: usize = 0;
        while i < QUEUE_SIZE
            invariant
                i <= QUEUE_SIZE,
                tampon@.len() == i,
            decreases QUEUE_SIZE - i,
        {
            tampon.push(0);
            i = i + 1;
        }
        let r = ClavierQueue { tampon, tete: 0, queue: 0 };
        assert(r@ =~= Seq::<u8>::empty());
        r
    }

    /// Une file contient au plus 255 codes.
    pub proof fn lemme_longueur(&self)
        requires
            self.bien_forme(),
        ensures
            self@.len() < QUEUE_SIZE,
    {
    }

    /// Range un code en dernier ; refusé (`Err`) si la file est pleine.
    pub fn push(&mut self, scancode: u8) -> (r: Result<(), ()>)
        requires
            old(self).bien_forme(),
        ensures
            final(self).bien_forme(),
            (r, final(self)@) == pousser_v(old(self)@, scancode),
    {
        let ghost avant = self@;
        let prochain = (self.tete + 1) % QUEUE_SIZE;
        if prochain == self.queue {
            return Err(());
        }
        let t = self.tete;
        self.tampon.set(t, scancode);
        self.tete = prochain;
        proof {
            assert(avant.len() < 255);
            assert forall|i: int| 0 <= i < avant.len() implies self@[i] == avant[i] by {
                assert((self.queue + i) % 256 != t as int);
            }
            assert(self@ =~= avant.push(scancode));
        }
        Ok(())
    }

    /// Retire le plus ancien code ; `None` si la file est vide.
    pub fn pop(&mut self) -> (r: Option<u8>)
        requires
            old(self).bien_forme(),
        ensures
            final(self).bien_forme(),
            (r, final(self)@) == retirer_v(old(self)@),
    {
        let ghost avant = self@;
        if self.tete == self.queue {
            return None;
        }
        let scancode = self.tampon[self.queue];
        self.queue = (self.queue + 1) % QUEUE_SIZE;
        proof {
            assert(avant[0] == scancode);
            assert forall|i: int| 0 <= i < self@.len() implies self@[i] == avant.drop_first()[i] by {
                assert((self.queue + i) % 256 == (old(self).queue + (i + 1)) % 256);
            }
            assert(self@ =~= avant.drop_first());
        }
        Some(scancode)
    }
}

/// La file rend les codes dans l'ordre où ils sont entrés : un code rangé dans une file vide en
/// ressort aussitôt, et, dans une file non vide, ranger puis retirer revient à retirer puis ranger.
pub proof fn loi_file_fifo(c: Seq<u8>, x: u8)
    requires
        c.len() < QUEUE_SIZE - 1,
    ensures
        c.len() == 0 ==> retirer_v(pousser_v(c, x).1) == (Some(x), c),
        c.len() > 0 ==> retirer_v(pousser_v(c, x).1) == (
            retirer_v(c).0,
            pousser_v(retirer_v(c).1, x).1,
        ),
{
    if c.len() == 0 {
        assert(c.push(x).drop_first() =~= c);
    } else {
        assert(c.push(x).drop_first() =~= c.drop_first().push(x));
    }
}


/// Issue de l'entrée, dans l'ordre, des codes `xs` dans la file `c` : tous acceptés ou non, et la
/// file d'après.
pub open spec fn pousser_tous(c: Seq<u8>, xs: Seq<u8>) -> (bool, Seq<u8>)
    decreases xs.len(),
{
    if xs.len() == 0 {
        (true, c)
    } else {
        let (ok, d) = pousser_tous(c, xs.drop_last());
        let (r, e) = pousser_v(d, xs.last());
        (ok && r is Ok, e)
    }
}

/// Ce que rendent `n` retraits successifs de la file `c`.
pub open spec fn retirer_n(c: Seq<u8>, n: nat) -> Seq<Option<u8>>
    decreases n,
{
    if n == 0 {
        Seq::empty()
    } else {
        seq![retirer_v(c).0] + retirer_n(retirer_v(c).1, (n - 1) as nat)
    }
}

proof fn lemme_pousser_tous(xs: Seq<u8>)
    requires
        xs.len() < QUEUE_SIZE,
    ensures
        pousser_tous(Seq::empty(), xs) == (true, xs),
    decreases xs.len(),
{
    if xs.len() > 0 {
        lemme_pousser_tous(xs.drop_last());
        assert(xs.drop_last().push(xs.last()) =~= xs);
    }
}

proof fn lemme_retirer_tout(c: Seq<u8>)
    ensures
        retirer_n(c, c.len() + 1) == Seq::new(c.len(), |i: int| Some(c[i])).push(None::<u8>),
    decreases c.len(),
{
    if c.len() > 0 {
        lemme_retirer_tout(c.drop_first());
        assert(retirer_n(c, c.len() + 1) =~= Seq::new(c.len(), |i: int| Some(c[i])).push(None::<u8>));
    } else {
        assert(retirer_n(retirer_v(c).1, 0) == Seq::<Option<u8>>::empty());
        assert(retirer_n(c, 1) =~= seq![None::<u8>]);
        assert(retirer_n(c, 1) =~= Seq::new(c.len(), |i: int| Some(c[i])).push(None::<u8>));
    }
}

/// Rangés dans une file neuve, `n` codes (255 au plus) sont tous acceptés ; `n + 1` retraits
/// les rendent dans l'ordre, puis rien.
pub proof fn loi_file_n_codes(xs: Seq<u8>)
    requires
        xs.len() < QUEUE_SIZE,
    ensures
        pousser_tous(Seq::empty(), xs) == (true, xs),
        retirer_n(xs, xs.len() + 1) == Seq::new(xs.len(), |i: int| Some(xs[i])).push(None::<u8>),
{
    lemme_pousser_tous(xs);
    lemme_retirer_tout(xs);
}

} // verus!
