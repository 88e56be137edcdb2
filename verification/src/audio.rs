//! Ce que l'aperçu sonore joue : le choix des notes d'un arpège.
use vstd::prelude::*;
use crate::modele::{Corde, Reel32, ReglageSon};

verus! {

/// Fréquence et réglage de chaque corde active de `cordes`, dans l'ordre
/// des cordes.
pub open spec fn notes_actives(cordes: Seq<Corde>) -> Seq<(Reel32, ReglageSon)>
    decreases cordes.len(),
{
    if cordes.len() == 0 {
        Seq::empty()
    } else {
        let debut = notes_actives(cordes.drop_last());
        let c = cordes.last();
        if c.active {
            debut.push((c.frequence, c.reglage))
        } else {
            debut
        }
    }
}

/// Les notes d'un arpège : la fréquence et le réglage de toutes les cordes
/// actives, dans l'ordre des cordes ; les cordes inactives sont sautées.
pub fn notes_arpege(cordes: &Vec<Corde>) -> (r: Vec<(Reel32, ReglageSon)>)
    ensures
        r@ == notes_actives(cordes@),
{
    let mut r: Vec<(Reel32, ReglageSon)> = Vec::new();
    let mut i: usize = 0;
    while i < cordes.len()
        invariant
            i <= cordes.len(),
            r@ == notes_actives(cordes@.subrange(0, i as int)),
        decreases cordes.len() - i,
    {
        let c = &cordes[i];
        if c.active {
            r.push((c.frequence, c.reglage));
        }
        assert(cordes@.subrange(0, i + 1).drop_last() =~= cordes@.subrange(0, i as int));
        i = i + 1;
    }
    assert(cordes@.subrange(0, cordes.len() as int) =~= cordes@);
    r
}

/// Loi de l'arpège : les notes sont la fréquence et le réglage des cordes
/// actives, et d'elles seules, chacune une fois et dans l'ordre des cordes ;
/// une corde inactive ne donne aucune note.
pub proof fn loi_arpege_cordes_actives(cordes: Seq<Corde>)
    ensures
        notes_actives(cordes) == cordes.filter(|c: Corde| c.active).map_values(
            |c: Corde| (c.frequence, c.reglage),
        ),
        forall|c: Corde| !c.active ==> notes_actives(seq![c]).len() == 0,
    decreases cordes.len(),
{
    reveal(Seq::filter);
    if cordes.len() > 0 {
        loi_arpege_cordes_actives(cordes.drop_last());
        let f = cordes.drop_last().filter(|c: Corde| c.active);
        let m = |c: Corde| (c.frequence, c.reglage);
        assert(f.push(cordes.last()).map_values(m) =~= f.map_values(m).push(m(cordes.last())));
    }
    assert forall|c: Corde| !c.active implies notes_actives(seq![c]).len() == 0 by {
        assert(seq![c].len() == 1);
        assert(seq![c].drop_last().len() == 0);
        assert(seq![c].last() == c);
        assert(notes_actives(seq![c].drop_last()).len() == 0);
    }
}
} // verus!
