//! Les fichiers de configuration : leur extension et la règle qui accepte
//! une configuration lue.
use vstd::prelude::*;
use vstd::string::*;
use crate::modele::HarpeConfig;
use crate::texte::{egal_sans_casse_ascii, egaux_sans_casse_ascii};

verus! {

/// Extension des fichiers de configuration de la harpe.
pub const EXTENSION: &'static str = "harpcfg";

/// L'extension du chemin `chemin` selon `std::path::Path::extension` (la
/// partie du nom de fichier après son dernier point), si elle existe.
pub uninterp spec fn extension_de(chemin: Seq<char>) -> Option<Seq<char>>;

/// Le chemin `chemin` dont `std::path::Path::with_extension` remplace
/// l'extension par `ext` (ou l'ajoute).
pub uninterp spec fn extension_remplacee(chemin: Seq<char>, ext: Seq<char>) -> Seq<char>;

/// Le nom de fichier (dernier composant) du chemin `chemin` selon
/// `std::path::Path::file_name`, s'il y en a un.
pub uninterp spec fn nom_de_fichier(chemin: Seq<char>) -> Option<Seq<char>>;

/// Appelle `Path::extension` sur `chemin` puis `OsStr::to_str` : rend
/// l'extension du chemin. Un chemin donné en `&str` a une extension en
/// UTF-8, que `to_str` rend entière. Comme le documente `Path::extension`,
/// un chemin sans nom de fichier n'a pas d'extension.
#[verifier::external_body]
fn extension(chemin: &str) -> (r: Option<String>)
    ensures
        r is Some <==> extension_de(chemin@) is Some,
        r matches Some(e) ==> extension_de(chemin@) == Some(e@),
        nom_de_fichier(chemin@) is None ==> r is None,
{
    match std::path::Path::new(chemin).extension() {
        Some(e) => e.to_str().map(String::from),
        None => None,
    }
}

/// Un texte sans séparateur de chemin (ni barre oblique, ni barre oblique
/// inverse).
pub open spec fn sans_separateur(t: Seq<char>) -> bool {
    forall|i: int| 0 <= i < t.len() ==> t[i] != '/' && t[i] != '\\'
}

/// Un texte sans point.
pub open spec fn sans_point(t: Seq<char>) -> bool {
    forall|i: int| 0 <= i < t.len() ==> t[i] != '.'
}

/// Appelle `Path::with_extension` : le chemin avec l'extension `ext`,
/// rendu en texte par `to_string_lossy` (sans perte ici, les deux
/// arguments étant en UTF-8). `PathBuf::set_extension`, qu'elle emploie,
/// panique si `ext` contient un séparateur de chemin : ce cas est exclu.
/// Comme le documente `set_extension`, un chemin sans nom de fichier est
/// rendu tel quel, et sinon le chemin rendu a pour extension `ext` quand
/// `ext` est non vide et sans point (un point ferait de sa fin seule
/// l'extension).
#[verifier::external_body]
fn remplacer_extension(chemin: &str, ext: &str) -> (r: String)
    requires
        sans_separateur(ext@),
    ensures
        r@ == extension_remplacee(chemin@, ext@),
        nom_de_fichier(chemin@) is None ==> r@ == chemin@,
        nom_de_fichier(chemin@) is Some && ext@.len() > 0 && sans_point(ext@)
            ==> extension_de(r@) == Some(ext@),
{
    std::path::Path::new(chemin).with_extension(ext).to_string_lossy().into_owned()
}

/// Appelle `Path::file_name` : le dernier composant du chemin, rendu en
/// texte par `to_string_lossy`.
#[verifier::external_body]
fn nom_fichier(chemin: &str) -> (r: Option<String>)
    ensures
        r is Some <==> nom_de_fichier(chemin@) is Some,
        r matches Some(n) ==> nom_de_fichier(chemin@) == Some(n@),
{
    match std::path::Path::new(chemin).file_name() {
        Some(n) => Some(n.to_string_lossy().into_owned()),
        None => None,
    }
}

/// Le chemin sous lequel une configuration est enregistrée : `chemin`
/// lui-même s'il porte déjà l'extension `.harpcfg` (sans égard à la casse),
/// sinon `chemin` avec cette extension.
pub open spec fn avec_extension_spec(chemin: Seq<char>) -> Seq<char> {
    match extension_de(chemin) {
        Some(e) => if egaux_sans_casse_ascii(e, "harpcfg"@) {
            chemin
        } else {
            extension_remplacee(chemin, "harpcfg"@)
        },
        None => extension_remplacee(chemin, "harpcfg"@),
    }
}

/// Renvoie le chemin avec l'extension `.harpcfg`, ajoutée si absente. Le
/// chemin rendu porte cette extension dès qu'il a un nom de fichier, et le
/// traiter une seconde fois ne le change plus.
pub fn avec_extension(chemin: &str) -> (r: String)
    ensures
        r@ == avec_extension_spec(chemin@),
        avec_extension_spec(r@) == r@,
        nom_de_fichier(chemin@) is Some ==> (extension_de(r@) matches Some(e)
            && egaux_sans_casse_ascii(e, "harpcfg"@)),
{
    proof {
        reveal_strlit("harpcfg");
        assert(sans_separateur(EXTENSION@));
        assert(sans_point(EXTENSION@));
        assert(egaux_sans_casse_ascii("harpcfg"@, "harpcfg"@));
    }
    match extension(chemin) {
        Some(e) => {
            if egal_sans_casse_ascii(e.as_str(), EXTENSION) {
                String::from_str(chemin)
            } else {
                remplacer_extension(chemin, EXTENSION)
            }
        },
        None => remplacer_extension(chemin, EXTENSION),
    }
}

/// Le nom de fichier que la barre de statut affiche pour le fichier courant.
pub open spec fn nom_affiche_spec(fichier: Option<Seq<char>>) -> Seq<char> {
    match fichier {
        Some(c) => match nom_de_fichier(c) {
            Some(n) => n,
            None => "non enregistré"@,
        },
        None => "non enregistré"@,
    }
}

/// Nom du fichier courant tel que la barre de statut l'affiche :
/// « non enregistré » s'il n'y en a pas.
pub fn nom_affiche(fichier: Option<&str>) -> (r: String)
    ensures
        r@ == nom_affiche_spec(
            match fichier {
                Some(c) => Some(c@),
                None => None,
            },
        ),
{
    match fichier {
        Some(c) => match nom_fichier(c) {
            Some(n) => n,
            None => String::from_str("non enregistré"),
        },
        None => String::from_str("non enregistré"),
    }
}

/// Message d'une configuration lue qui n'a aucune corde.
pub open spec fn message_sans_corde() -> Seq<char> {
    "La configuration ne contient aucune corde."@
}

/// Ce que donne le chargement d'une configuration lue : l'erreur de lecture
/// telle quelle, un refus si la configuration n'a aucune corde, sinon la
/// configuration.
pub open spec fn charger_spec(lu: Result<HarpeConfig, Seq<char>>) -> Result<HarpeConfig, Seq<char>> {
    match lu {
        Err(e) => Err(e),
        Ok(c) => if c.cordes@.len() == 0 {
            Err(message_sans_corde())
        } else {
            Ok(c)
        },
    }
}

/// Vue d'un résultat de lecture, l'erreur prise comme texte.
pub open spec fn vue_lecture(r: Result<HarpeConfig, String>) -> Result<HarpeConfig, Seq<char>> {
    match r {
        Ok(c) => Ok(c),
        Err(e) => Err(e@),
    }
}

/// Accepte une configuration lue d'un fichier `.harpcfg` (ou `.json`) :
/// l'erreur de lecture passe telle quelle, et une configuration sans corde
/// est refusée.
pub fn charger(lu: Result<HarpeConfig, String>) -> (r: Result<HarpeConfig, String>)
    ensures
        vue_lecture(r) == charger_spec(vue_lecture(lu)),
{
    match lu {
        Err(e) => Err(e),
        Ok(c) => {
            if c.cordes.len() == 0 {
                Err(String::from_str("La configuration ne contient aucune corde."))
            } else {
                Ok(c)
            }
        },
    }
}

} // verus!
