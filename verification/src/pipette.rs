//! La couleur prélevée à l'écran par la pipette, en attente d'être
//! appliquée par l'application.
use vstd::prelude::*;

verus! {

/// Case qui garde la dernière couleur prélevée jusqu'à ce que
/// l'application la consomme.
pub struct CouleurPiochee {
    couleur: Option<[u8; 3]>,
}

impl View for CouleurPiochee {
    type V = Option<[u8; 3]>;

    closed spec fn view(&self) -> Option<[u8; 3]> {
        self.couleur
    }
}

/// Ce que rend une prise sur la case qui contient `c`, et ce qu'elle y
/// laisse.
pub open spec fn prise(c: Option<[u8; 3]>) -> (Option<[u8; 3]>, Option<[u8; 3]>) {
    (c, None)
}

impl CouleurPiochee {
    /// Une case vide.
    pub fn new() -> (p: CouleurPiochee)
        ensures
            p@ == None::<[u8; 3]>,
    {
        CouleurPiochee { couleur: None }
    }

    /// Dépose la couleur prélevée, qui remplace toute couleur non encore
    /// consommée.
    pub fn deposer(&mut self, rgb: [u8; 3])
        ensures
            final(self)@ == Some(rgb),
    {
        self.couleur = Some(rgb);
    }

    /// Renvoie la couleur prélevée à l'écran, s'il y en a une, et vide la
    /// case.
    pub fn couleur_piochee(&mut self) -> (r: Option<[u8; 3]>)
        ensures
            (r, final(self)@) == prise(old(self)@),
    {
        self.couleur.take()
    }
}

/// Loi de la pipette : une prise après un dépôt rend la couleur déposée,
/// et une seconde prise ne rend plus rien.
pub proof fn loi_prise_apres_depot(rgb: [u8; 3])
    ensures
        prise(Some(rgb)).0 == Some(rgb),
        prise(prise(Some(rgb)).1).0 == None::<[u8; 3]>,
{
}

} // verus!
