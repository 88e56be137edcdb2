//! Le modèle de la harpe : formes d'onde, réglages sonores, cordes et
//! configuration, et le nom des notes.
use vstd::prelude::*;
use crate::texte::{concatener, ecrire_entier, entier_decimal};

verus! {

/// Nombre de cordes de la harpe.
pub const NOMBRE_CORDES: usize = 22;

/// Les formes d'onde disponibles pour le timbre d'une note.
#[derive(Debug, Clone, Copy, PartialEq, Eq, Structural)]
pub enum FormeOnde {
    Sinus,
    Carre,
    DentDeScie,
    Triangle,
}

/// Nom français d'une forme d'onde, tel que l'interface l'affiche.
pub open spec fn libelle_forme(f: FormeOnde) -> Seq<char> {
    match f {
        FormeOnde::Sinus => "Sinus"@,
        FormeOnde::Carre => "Carré"@,
        FormeOnde::DentDeScie => "Dent de scie"@,
        FormeOnde::Triangle => "Triangle"@,
    }
}

impl Default for FormeOnde {
    /// La forme d'onde de départ : le sinus.
    fn default() -> (r: FormeOnde)
        ensures
            r == FormeOnde::Sinus,
    {
        FormeOnde::Sinus
    }
}

impl FormeOnde {
    /// Nom français affiché dans l'interface.
    pub fn label(&self) -> (r: &'static str)
        ensures
            r@ == libelle_forme(*self),
    {
        match self {
            FormeOnde::Sinus => "Sinus",
            FormeOnde::Carre => "Carré",
            FormeOnde::DentDeScie => "Dent de scie",
            FormeOnde::Triangle => "Triangle",
        }
    }

    /// Toutes les formes d'onde, dans l'ordre d'affichage.
    pub fn toutes() -> (r: [FormeOnde; 4])
        ensures
            r@ == seq![FormeOnde::Sinus, FormeOnde::Carre, FormeOnde::DentDeScie, FormeOnde::Triangle],
    {
        [FormeOnde::Sinus, FormeOnde::Carre, FormeOnde::DentDeScie, FormeOnde::Triangle]
    }
}

/// Un nombre réel simple précision (IEEE-754) conservé par son motif
/// binaire : la bibliothèque le transporte sans jamais calculer dessus.
#[derive(Debug, Clone, Copy, PartialEq, Eq, Structural)]
pub struct Reel32 {
    pub bits: u32,
}

/// Réglages sonores d'une corde : timbre, volume et enveloppe.
#[derive(Debug, Clone, Copy, PartialEq, Eq, Structural)]
pub struct ReglageSon {
    pub forme_onde: FormeOnde,
    pub volume: Reel32,
    pub attaque_ms: Reel32,
    pub relache_ms: Reel32,
}

/// Une corde de la harpe : note, fréquence (en Hz), couleur et réglage
/// sonore.
#[derive(Debug, Clone, PartialEq)]
pub struct Corde {
    pub note: String,
    pub frequence: Reel32,
    pub reglage: ReglageSon,
    pub active: bool,
    /// Couleur personnalisée RGB ; `None` = couleur automatique selon l'index.
    pub couleur: Option<[u8; 3]>,
}

impl Corde {
    /// Une copie de la corde, égale à elle champ par champ.
    pub fn copie(&self) -> (c: Corde)
        ensures
            c == *self,
    {
        Corde {
            note: self.note.clone(),
            frequence: self.frequence,
            reglage: self.reglage,
            active: self.active,
            couleur: self.couleur,
        }
    }
}

/// La configuration complète de la harpe (toutes les cordes).
#[derive(Debug, Clone, PartialEq)]
pub struct HarpeConfig {
    pub cordes: Vec<Corde>,
}

impl HarpeConfig {
    /// Les cordes de la configuration où la corde `index` est remplacée par
    /// `c`, dans un vecteur neuf.
    pub fn cordes_avec(&self, index: usize, c: Corde) -> (r: Vec<Corde>)
        requires
            index < self.cordes@.len(),
        ensures
            r@ == self.cordes@.update(index as int, c),
    {
        let mut r: Vec<Corde> = Vec::new();
        let mut i: usize = 0;
        while i < self.cordes.len()
            invariant
                i <= self.cordes@.len(),
                index < self.cordes@.len(),
                r@ == self.cordes@.subrange(0, i as int),
            decreases self.cordes@.len() - i,
        {
            r.push(self.cordes[i].copie());
            i = i + 1;
        }
        r.set(index, c);
        r
    }
}

/// Nom français de la note d'indice `i` dans l'octave (0 = Do).
pub open spec fn nom_dans_octave(i: int) -> Seq<char> {
    if i == 0 {
        "Do"@
    } else if i == 1 {
        "Do#"@
    } else if i == 2 {
        "Ré"@
    } else if i == 3 {
        "Ré#"@
    } else if i == 4 {
        "Mi"@
    } else if i == 5 {
        "Fa"@
    } else if i == 6 {
        "Fa#"@
    } else if i == 7 {
        "Sol"@
    } else if i == 8 {
        "Sol#"@
    } else if i == 9 {
        "La"@
    } else if i == 10 {
        "La#"@
    } else {
        "Si"@
    }
}

/// Nom de la note placée `d` demi-tons au-dessus du Do4 (au-dessous si
/// `d` est négatif) : le nom dans l'octave puis le numéro d'octave.
pub open spec fn nom_note_spec(d: int) -> Seq<char> {
    nom_dans_octave(d % 12) + entier_decimal(4 + d / 12)
}

/// Nom français de la note d'indice `index` dans l'octave (0 = Do).
pub fn nom_de_note(index: usize) -> (r: &'static str)
    requires
        index < 12,
    ensures
        r@ == nom_dans_octave(index as int),
{
    match index {
        0 => "Do",
        1 => "Do#",
        2 => "Ré",
        3 => "Ré#",
        4 => "Mi",
        5 => "Fa",
        6 => "Fa#",
        7 => "Sol",
        8 => "Sol#",
        9 => "La",
        10 => "La#",
        _ => "Si",
    }
}

/// Nom de la note placée `demi_tons` demi-tons au-dessus du Do4 (ex. 9 →
/// "La4", -6 → "Fa#3") : l'octave est `4 + demi_tons.div_euclid(12)`,
/// le nom celui de `demi_tons.rem_euclid(12)`.
pub fn nom_note_demi_tons(demi_tons: i32) -> (r: String)
    ensures
        r@ == nom_note_spec(demi_tons as int),
{
    let quotient: i64;
    let reste: usize;
    if demi_tons >= 0 {
        let u: u32 = demi_tons as u32;
        quotient = (u / 12) as i64;
        reste = (u % 12) as usize;
    } else {
        let u: u32 = (0i64 - (demi_tons as i64) - 1) as u32;
        quotient = 0i64 - ((u / 12) as i64) - 1;
        reste = (11 - u % 12) as usize;
    }
    assert(quotient * 12 + reste == demi_tons as int && 0 <= reste < 12);
    assert(quotient == (demi_tons as int) / 12 && reste == (demi_tons as int) % 12) by {
        vstd::arithmetic::div_mod::lemma_fundamental_div_mod_converse(
            demi_tons as int,
            12,
            quotient as int,
            reste as int,
        );
    }
    let octave: i32 = (4 + quotient) as i32;
    let nom = nom_de_note(reste);
    let chiffres = ecrire_entier(octave);
    concatener(nom, chiffres.as_str())
}

/// Loi des octaves : douze demi-tons plus haut, la note garde son nom et
/// son numéro d'octave augmente de un.
pub proof fn loi_octave_suivante(d: int)
    ensures
        (d + 12) % 12 == d % 12,
        (d + 12) / 12 == d / 12 + 1,
        0 <= d % 12 < 12,
        nom_note_spec(d + 12) == nom_dans_octave(d % 12) + entier_decimal(4 + d / 12 + 1),
{
    vstd::arithmetic::div_mod::lemma_fundamental_div_mod(d, 12);
    vstd::arithmetic::div_mod::lemma_fundamental_div_mod_converse(d + 12, 12, d / 12 + 1, d % 12);
}

} // verus!
