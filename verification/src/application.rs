//! L'état de l'application et ses transitions : sélection et réglage des
//! cordes, fichier courant, marque « modifié », messages, thème et
//! disposition. Les entrées-sorties (dialogues, fichiers, son, dessin)
//! restent à l'appelant, qui reçoit ce qu'il doit faire sous forme d'`Effet`.
use vstd::prelude::*;
use vstd::string::*;
use crate::config::{avec_extension, avec_extension_spec, charger, charger_spec, vue_lecture};
use crate::menus::ActionMenu;
use crate::modele::{Corde, FormeOnde, HarpeConfig, Reel32, ReglageSon};
use crate::texte::concatener;
use crate::theme::Theme;

verus! {

/// Ce que l'état de l'application donne à voir.
pub struct VueHarpe {
    pub cordes: Seq<Corde>,
    pub selection: int,
    pub fichier: Option<Seq<char>>,
    /// La marque « modifié » (voir `EtatHarpe::modifie`).
    pub modifie: bool,
    pub message: Option<Seq<char>>,
    pub theme: Theme,
    pub panneau_gauche: bool,
    pub volumes_lies: bool,
    pub picker_agrandi: bool,
}

/// Vue d'un texte facultatif.
pub open spec fn vue_texte(t: Option<String>) -> Option<Seq<char>> {
    match t {
        Some(s) => Some(s@),
        None => None,
    }
}

/// Vue d'un texte emprunté facultatif.
pub open spec fn vue_str(t: Option<&str>) -> Option<Seq<char>> {
    match t {
        Some(s) => Some(s@),
        None => None,
    }
}

/// L'état est cohérent : la harpe a au moins une corde et la corde
/// sélectionnée en fait partie.
pub open spec fn bien_forme(v: VueHarpe) -> bool {
    &&& v.cordes.len() > 0
    &&& 0 <= v.selection < v.cordes.len()
}

/// L'état principal de l'application.
pub struct EtatHarpe {
    config: HarpeConfig,
    corde_selectionnee: usize,
    fichier: Option<String>,
    modifie: bool,
    message: Option<String>,
    theme: Theme,
    panneau_gauche: bool,
    volumes_lies: bool,
    picker_agrandi: bool,
}

impl EtatHarpe {
    /// Invariant de l'état : il est toujours cohérent.
    #[verifier::type_invariant]
    closed spec fn coherent(self) -> bool {
        &&& self.config.cordes@.len() > 0
        &&& self.corde_selectionnee < self.config.cordes@.len()
    }
}

impl View for EtatHarpe {
    type V = VueHarpe;

    closed spec fn view(&self) -> VueHarpe {
        VueHarpe {
            cordes: self.config.cordes@,
            selection: self.corde_selectionnee as int,
            fichier: vue_texte(self.fichier),
            modifie: self.modifie,
            message: vue_texte(self.message),
            theme: self.theme,
            panneau_gauche: self.panneau_gauche,
            volumes_lies: self.volumes_lies,
            picker_agrandi: self.picker_agrandi,
        }
    }
}

/// Ce que l'appelant doit faire après une action de menu.
#[derive(Debug, Clone, PartialEq)]
pub enum Effet {
    /// Construire la configuration par défaut et la passer à `nouveau`.
    NouvelleConfiguration,
    /// Demander un fichier à ouvrir, le lire et passer le résultat à
    /// `apres_ouverture`.
    ChoisirFichierAOuvrir,
    /// Enregistrer la configuration dans ce fichier, puis passer le
    /// résultat à `apres_enregistrement`.
    EnregistrerVers(String),
    /// Demander un chemin d'enregistrement ; s'il y en a un, y enregistrer
    /// la configuration puis passer le résultat à `apres_enregistrement`.
    ChoisirFichierOuEnregistrer,
    /// Mettre à jour l'élément « Panneau » du menu natif (panneau à gauche
    /// si vrai).
    MettreAJourPanneau(bool),
    /// Appliquer ce thème aux visuels et au menu natif.
    AppliquerTheme(Theme),
    /// Fermer la fenêtre.
    Fermer,
}

/// Vue d'un effet, le chemin pris comme texte.
pub enum VueEffet {
    NouvelleConfiguration,
    ChoisirFichierAOuvrir,
    EnregistrerVers(Seq<char>),
    ChoisirFichierOuEnregistrer,
    MettreAJourPanneau(bool),
    AppliquerTheme(Theme),
    Fermer,
}

/// Vue d'un effet.
pub open spec fn vue_effet(e: Effet) -> VueEffet {
    match e {
        Effet::NouvelleConfiguration => VueEffet::NouvelleConfiguration,
        Effet::ChoisirFichierAOuvrir => VueEffet::ChoisirFichierAOuvrir,
        Effet::EnregistrerVers(c) => VueEffet::EnregistrerVers(c@),
        Effet::ChoisirFichierOuEnregistrer => VueEffet::ChoisirFichierOuEnregistrer,
        Effet::MettreAJourPanneau(g) => VueEffet::MettreAJourPanneau(g),
        Effet::AppliquerTheme(t) => VueEffet::AppliquerTheme(t),
        Effet::Fermer => VueEffet::Fermer,
    }
}

/// L'état au lancement, sur la configuration `config`.
pub open spec fn etat_initial(config: HarpeConfig) -> VueHarpe {
    VueHarpe {
        cordes: config.cordes@,
        selection: 0,
        fichier: None,
        modifie: false,
        message: None,
        theme: Theme::Sombre,
        panneau_gauche: false,
        volumes_lies: false,
        picker_agrandi: false,
    }
}

/// L'état après « Nouveau » avec la configuration par défaut `defaut`.
pub open spec fn apres_nouveau(v: VueHarpe, defaut: HarpeConfig) -> VueHarpe {
    VueHarpe {
        cordes: defaut.cordes@,
        selection: 0,
        fichier: None,
        modifie: true,
        message: Some("Nouvelle configuration créée."@),
        ..v
    }
}

/// L'effet d'une action de menu dans l'état `v`.
pub open spec fn effet_spec(v: VueHarpe, a: ActionMenu) -> VueEffet {
    match a {
        ActionMenu::Nouveau => VueEffet::NouvelleConfiguration,
        ActionMenu::Ouvrir => VueEffet::ChoisirFichierAOuvrir,
        ActionMenu::Enregistrer => match v.fichier {
            Some(c) => VueEffet::EnregistrerVers(avec_extension_spec(c)),
            None => VueEffet::ChoisirFichierOuEnregistrer,
        },
        ActionMenu::EnregistrerSous => VueEffet::ChoisirFichierOuEnregistrer,
        ActionMenu::BasculerPanneau => VueEffet::MettreAJourPanneau(!v.panneau_gauche),
        ActionMenu::Theme(t) => VueEffet::AppliquerTheme(t),
        ActionMenu::Quitter => VueEffet::Fermer,
    }
}

/// L'état après une action de menu : seules la bascule du panneau et le
/// choix du thème le changent.
pub open spec fn apres_action(v: VueHarpe, a: ActionMenu) -> VueHarpe {
    match a {
        ActionMenu::BasculerPanneau => VueHarpe { panneau_gauche: !v.panneau_gauche, ..v },
        ActionMenu::Theme(t) => VueHarpe { theme: t, ..v },
        _ => v,
    }
}

/// L'état après l'ouverture du fichier `chemin`, dont la lecture a donné
/// `lu` : la configuration lue devient courante (sans modification, la
/// sélection ramenée dans les cordes), ou bien l'erreur est annoncée.
pub open spec fn apres_ouverture_spec(v: VueHarpe, chemin: Seq<char>, lu: Result<HarpeConfig, Seq<char>>) -> VueHarpe {
    match charger_spec(lu) {
        Ok(c) => VueHarpe {
            cordes: c.cordes@,
            fichier: Some(chemin),
            modifie: false,
            selection: if v.selection < c.cordes@.len() - 1 {
                v.selection
            } else {
                c.cordes@.len() - 1
            },
            message: Some("Configuration ouverte : "@ + chemin),
            ..v
        },
        Err(e) => VueHarpe { message: Some("Erreur à l'ouverture : "@ + e), ..v },
    }
}

/// L'état après l'enregistrement dans `chemin`, qui a réussi si `erreur`
/// est `None`.
pub open spec fn apres_enregistrement_spec(v: VueHarpe, chemin: Seq<char>, erreur: Option<Seq<char>>) -> VueHarpe {
    match erreur {
        None => VueHarpe {
            fichier: Some(chemin),
            modifie: false,
            message: Some("Configuration enregistrée : "@ + chemin),
            ..v
        },
        Some(e) => VueHarpe { message: Some("Erreur à l'enregistrement : "@ + e), ..v },
    }
}

/// Les cordes où la corde `i` est remplacée par `c`, la harpe étant dès lors
/// modifiée.
pub open spec fn avec_corde(v: VueHarpe, i: int, c: Corde) -> VueHarpe {
    VueHarpe { cordes: v.cordes.update(i, c), modifie: true, ..v }
}

/// La corde `c` avec le réglage `r`.
pub open spec fn avec_reglage(c: Corde, r: ReglageSon) -> Corde {
    Corde { reglage: r, ..c }
}

/// L'erreur d'un enregistrement, s'il a échoué.
pub open spec fn erreur_de(r: Result<(), String>) -> Option<Seq<char>> {
    match r {
        Ok(_) => None,
        Err(e) => Some(e@),
    }
}

impl EtatHarpe {
    /// L'état au lancement : la configuration donnée, sa première corde
    /// sélectionnée, aucun fichier, thème sombre, panneau à droite.
    pub fn new(config: HarpeConfig) -> (e: EtatHarpe)
        requires
            config.cordes@.len() > 0,
        ensures
            e@ == etat_initial(config),
            bien_forme(e@),
    {
        EtatHarpe {
            config,
            corde_selectionnee: 0,
            fichier: None,
            modifie: false,
            message: None,
            theme: Theme::Sombre,
            panneau_gauche: false,
            volumes_lies: false,
            picker_agrandi: false,
        }
    }

    /// La configuration courante.
    pub fn config(&self) -> (c: &HarpeConfig)
        ensures
            c.cordes@ == self@.cordes,
            bien_forme(self@),
    {
        proof {
            use_type_invariant(&*self);
        }
        &self.config
    }

    /// Indice de la corde sélectionnée.
    pub fn corde_selectionnee(&self) -> (i: usize)
        ensures
            i == self@.selection,
    {
        self.corde_selectionnee
    }

    /// La corde sélectionnée.
    pub fn corde_selection(&self) -> (c: &Corde)
        ensures
            *c == self@.cordes[self@.selection],
    {
        proof {
            use_type_invariant(&*self);
        }
        &self.config.cordes[self.corde_selectionnee]
    }

    /// Chemin du fichier courant, s'il y en a un.
    pub fn fichier(&self) -> (f: Option<&str>)
        ensures
            vue_str(f) == self@.fichier,
    {
        match &self.fichier {
            Some(c) => Some(c.as_str()),
            None => None,
        }
    }

    /// La marque « modifié » : posée par « Nouveau » et par tout réglage
    /// d'une corde sauf le choix de sa forme d'onde, ôtée par une ouverture
    /// ou un enregistrement réussis.
    pub fn modifie(&self) -> (m: bool)
        ensures
            m == self@.modifie,
    {
        self.modifie
    }

    /// Le dernier message à afficher dans la barre de statut.
    pub fn message(&self) -> (m: Option<&str>)
        ensures
            vue_str(m) == self@.message,
    {
        match &self.message {
            Some(c) => Some(c.as_str()),
            None => None,
        }
    }

    /// Le thème courant.
    pub fn theme(&self) -> (t: Theme)
        ensures
            t == self@.theme,
    {
        self.theme
    }

    /// Vrai si le panneau de réglages est à gauche.
    pub fn panneau_gauche(&self) -> (g: bool)
        ensures
            g == self@.panneau_gauche,
    {
        self.panneau_gauche
    }

    /// Vrai si le réglage du volume d'une corde s'applique à toutes.
    pub fn volumes_lies(&self) -> (l: bool)
        ensures
            l == self@.volumes_lies,
    {
        self.volumes_lies
    }

    /// Vrai si le sélecteur de couleur est agrandi.
    pub fn picker_agrandi(&self) -> (p: bool)
        ensures
            p == self@.picker_agrandi,
    {
        self.picker_agrandi
    }
}

impl EtatHarpe {
    /// « Nouveau » : la configuration par défaut `defaut` devient courante,
    /// sa première corde sélectionnée, sans fichier, et la harpe est marquée
    /// modifiée.
    pub fn nouveau(&mut self, defaut: HarpeConfig)
        requires
            defaut.cordes@.len() > 0,
        ensures
            final(self)@ == apres_nouveau(old(self)@, defaut),
            bien_forme(final(self)@),
    {
        proof {
            use_type_invariant(&*self);
        }
        self.corde_selectionnee = 0;
        self.config = defaut;
        self.fichier = None;
        self.modifie = true;
        self.message = Some(String::from_str("Nouvelle configuration créée."));
    }

    /// Déplace le panneau de réglages à gauche ou à droite ; renvoie sa
    /// nouvelle position (vrai pour la gauche).
    pub fn basculer_panneau(&mut self) -> (gauche: bool)
        ensures
            final(self)@ == apres_action(old(self)@, ActionMenu::BasculerPanneau),
            gauche == final(self)@.panneau_gauche,
    {
        proof {
            use_type_invariant(&*self);
        }
        self.panneau_gauche = !self.panneau_gauche;
        self.panneau_gauche
    }

    /// Change le thème visuel.
    pub fn definir_theme(&mut self, theme: Theme)
        ensures
            final(self)@ == apres_action(old(self)@, ActionMenu::Theme(theme)),
    {
        proof {
            use_type_invariant(&*self);
        }
        self.theme = theme;
    }

    /// Applique une action de menu à l'état et renvoie ce que l'appelant
    /// doit faire ensuite : « Enregistrer » vise le fichier courant (avec
    /// l'extension `.harpcfg`) s'il y en a un, sinon demande un chemin.
    pub fn appliquer_action(&mut self, action: ActionMenu) -> (e: Effet)
        ensures
            vue_effet(e) == effet_spec(old(self)@, action),
            final(self)@ == apres_action(old(self)@, action),
    {
        proof {
            use_type_invariant(&*self);
        }
        match action {
            ActionMenu::Nouveau => Effet::NouvelleConfiguration,
            ActionMenu::Ouvrir => Effet::ChoisirFichierAOuvrir,
            ActionMenu::Enregistrer => match &self.fichier {
                Some(c) => Effet::EnregistrerVers(avec_extension(c.as_str())),
                None => Effet::ChoisirFichierOuEnregistrer,
            },
            ActionMenu::EnregistrerSous => Effet::ChoisirFichierOuEnregistrer,
            ActionMenu::BasculerPanneau => Effet::MettreAJourPanneau(self.basculer_panneau()),
            ActionMenu::Theme(t) => {
                self.definir_theme(t);
                Effet::AppliquerTheme(t)
            },
            ActionMenu::Quitter => Effet::Fermer,
        }
    }

    /// Après l'ouverture du fichier `chemin` dont la lecture a donné `lu` :
    /// une configuration acceptée par `charger` devient courante, sinon
    /// l'erreur est annoncée.
    pub fn apres_ouverture(&mut self, chemin: String, lu: Result<HarpeConfig, String>)
        ensures
            final(self)@ == apres_ouverture_spec(old(self)@, chemin@, vue_lecture(lu)),
            bien_forme(final(self)@),
    {
        proof {
            use_type_invariant(&*self);
        }
        match charger(lu) {
            Ok(cfg) => {
                let n = cfg.cordes.len();
                let message = concatener("Configuration ouverte : ", chemin.as_str());
                if self.corde_selectionnee >= n - 1 {
                    self.corde_selectionnee = n - 1;
                }
                self.config = cfg;
                self.fichier = Some(chemin);
                self.modifie = false;
                self.message = Some(message);
            },
            Err(e) => {
                self.message = Some(concatener("Erreur à l'ouverture : ", e.as_str()));
            },
        }
    }

    /// Après l'enregistrement dans `chemin` : en cas de succès ce fichier
    /// devient le fichier courant et la harpe n'est plus modifiée ; sinon
    /// l'erreur est annoncée.
    pub fn apres_enregistrement(&mut self, chemin: String, resultat: Result<(), String>)
        ensures
            final(self)@ == apres_enregistrement_spec(old(self)@, chemin@, erreur_de(resultat)),
    {
        proof {
            use_type_invariant(&*self);
        }
        match resultat {
            Ok(()) => {
                self.message = Some(concatener("Configuration enregistrée : ", chemin.as_str()));
                self.fichier = Some(chemin);
                self.modifie = false;
            },
            Err(e) => {
                self.message = Some(concatener("Erreur à l'enregistrement : ", e.as_str()));
            },
        }
    }

    /// Sélectionne la corde `index`.
    pub fn selectionner(&mut self, index: usize)
        requires
            index < old(self)@.cordes.len(),
        ensures
            final(self)@ == (VueHarpe { selection: index as int, ..old(self)@ }),
            bien_forme(final(self)@),
    {
        proof {
            use_type_invariant(&*self);
        }
        self.corde_selectionnee = index;
    }

    /// Vrai si la corde `index` existe et est active : c'est alors qu'elle
    /// joue quand on la clique.
    pub fn corde_jouable(&self, index: usize) -> (j: bool)
        ensures
            j == (index < self@.cordes.len() && self@.cordes[index as int].active),
    {
        index < self.config.cordes.len() && self.config.cordes[index].active
    }

    /// Remplace la corde `index` par `c` et marque la harpe modifiée.
    fn remplacer_corde(&mut self, index: usize, c: Corde)
        requires
            index < old(self)@.cordes.len(),
        ensures
            final(self)@ == avec_corde(old(self)@, index as int, c),
    {
        proof {
            use_type_invariant(&*self);
        }
        self.config = HarpeConfig { cordes: self.config.cordes_avec(index, c) };
        self.modifie = true;
    }

    /// Active ou désactive la corde `index`.
    pub fn basculer_active(&mut self, index: usize)
        requires
            index < old(self)@.cordes.len(),
        ensures
            final(self)@ == avec_corde(
                old(self)@,
                index as int,
                Corde { active: !old(self)@.cordes[index as int].active, ..old(self)@.cordes[index as int] },
            ),
            bien_forme(final(self)@),
    {
        proof {
            use_type_invariant(&*self);
        }
        let mut c = self.config.cordes[index].copie();
        c.active = !c.active;
        self.remplacer_corde(index, c);
    }
}

impl EtatHarpe {
    /// Règle la fréquence de la corde sélectionnée ; `note` est le nom de la
    /// note la plus proche de cette fréquence, qui devient celui de la corde.
    pub fn definir_frequence(&mut self, frequence: Reel32, note: String)
        ensures
            final(self)@ == avec_corde(
                old(self)@,
                old(self)@.selection,
                Corde { frequence, note, ..old(self)@.cordes[old(self)@.selection] },
            ),
            bien_forme(final(self)@),
    {
        proof {
            use_type_invariant(&*self);
        }
        let i = self.corde_selectionnee;
        let mut c = self.config.cordes[i].copie();
        c.frequence = frequence;
        c.note = note;
        self.remplacer_corde(i, c);
    }

    /// Change la forme d'onde de la corde sélectionnée. Ce choix, bien qu'il
    /// soit enregistré avec la configuration, ne pose pas la marque
    /// « modifié ».
    pub fn definir_forme_onde(&mut self, forme: FormeOnde)
        ensures
            final(self)@ == (VueHarpe {
                cordes: old(self)@.cordes.update(
                    old(self)@.selection,
                    avec_reglage(
                        old(self)@.cordes[old(self)@.selection],
                        ReglageSon { forme_onde: forme, ..old(self)@.cordes[old(self)@.selection].reglage },
                    ),
                ),
                ..old(self)@
            }),
            bien_forme(final(self)@),
    {
        proof {
            use_type_invariant(&*self);
        }
        let i = self.corde_selectionnee;
        let mut c = self.config.cordes[i].copie();
        c.reglage.forme_onde = forme;
        self.config = HarpeConfig { cordes: self.config.cordes_avec(i, c) };
    }

    /// Active ou désactive la corde sélectionnée.
    pub fn definir_active(&mut self, active: bool)
        ensures
            final(self)@ == avec_corde(
                old(self)@,
                old(self)@.selection,
                Corde { active, ..old(self)@.cordes[old(self)@.selection] },
            ),
            bien_forme(final(self)@),
    {
        proof {
            use_type_invariant(&*self);
        }
        let i = self.corde_selectionnee;
        let mut c = self.config.cordes[i].copie();
        c.active = active;
        self.remplacer_corde(i, c);
    }

    /// Règle l'enveloppe (volume, attaque, relâche) de la corde sélectionnée ;
    /// sa forme d'onde reste la sienne.
    pub fn definir_enveloppe(&mut self, volume: Reel32, attaque_ms: Reel32, relache_ms: Reel32)
        ensures
            final(self)@ == avec_corde(
                old(self)@,
                old(self)@.selection,
                avec_reglage(
                    old(self)@.cordes[old(self)@.selection],
                    ReglageSon { volume, attaque_ms, relache_ms, ..old(self)@.cordes[old(self)@.selection].reglage },
                ),
            ),
            bien_forme(final(self)@),
    {
        proof {
            use_type_invariant(&*self);
        }
        let i = self.corde_selectionnee;
        let mut c = self.config.cordes[i].copie();
        c.reglage.volume = volume;
        c.reglage.attaque_ms = attaque_ms;
        c.reglage.relache_ms = relache_ms;
        self.remplacer_corde(i, c);
    }

    /// Règle le volume de la corde `index` (depuis la vue d'ensemble).
    pub fn definir_volume(&mut self, index: usize, volume: Reel32)
        requires
            index < old(self)@.cordes.len(),
        ensures
            final(self)@ == avec_corde(
                old(self)@,
                index as int,
                avec_reglage(
                    old(self)@.cordes[index as int],
                    ReglageSon { volume, ..old(self)@.cordes[index as int].reglage },
                ),
            ),
            bien_forme(final(self)@),
    {
        proof {
            use_type_invariant(&*self);
        }
        let mut c = self.config.cordes[index].copie();
        c.reglage.volume = volume;
        self.remplacer_corde(index, c);
    }

    /// Donne à la corde sélectionnée la couleur `rgb` (sélecteur, palette ou
    /// pipette).
    pub fn definir_couleur(&mut self, rgb: [u8; 3])
        ensures
            final(self)@ == avec_corde(
                old(self)@,
                old(self)@.selection,
                Corde { couleur: Some(rgb), ..old(self)@.cordes[old(self)@.selection] },
            ),
            bien_forme(final(self)@),
    {
        proof {
            use_type_invariant(&*self);
        }
        let i = self.corde_selectionnee;
        let mut c = self.config.cordes[i].copie();
        c.couleur = Some(rgb);
        self.remplacer_corde(i, c);
    }

    /// Réinitialise la corde sélectionnée : `nouvelle` (la corde par défaut à
    /// cet indice) prend sa place.
    pub fn reinitialiser_selection(&mut self, nouvelle: Corde)
        ensures
            final(self)@ == avec_corde(old(self)@, old(self)@.selection, nouvelle),
            bien_forme(final(self)@),
    {
        proof {
            use_type_invariant(&*self);
        }
        let i = self.corde_selectionnee;
        self.remplacer_corde(i, nouvelle);
    }

    /// Lie ou délie les volumes : liés, régler le volume d'une corde applique
    /// le même changement à toutes.
    pub fn basculer_volumes_lies(&mut self)
        ensures
            final(self)@ == (VueHarpe { volumes_lies: !old(self)@.volumes_lies, ..old(self)@ }),
    {
        proof {
            use_type_invariant(&*self);
        }
        self.volumes_lies = !self.volumes_lies;
    }

    /// Agrandit ou réduit le sélecteur de couleur.
    pub fn basculer_picker(&mut self)
        ensures
            final(self)@ == (VueHarpe { picker_agrandi: !old(self)@.picker_agrandi, ..old(self)@ }),
    {
        proof {
            use_type_invariant(&*self);
        }
        self.picker_agrandi = !self.picker_agrandi;
    }
}

/// Loi de cohérence : toute transition de l'état garde la harpe non vide et
/// la corde sélectionnée parmi ses cordes.
pub proof fn loi_coherence(v: VueHarpe, a: ActionMenu, defaut: HarpeConfig, chemin: Seq<char>,
    lu: Result<HarpeConfig, Seq<char>>, erreur: Option<Seq<char>>, i: int, c: Corde)
    requires
        bien_forme(v),
        defaut.cordes@.len() > 0,
        0 <= i < v.cordes.len(),
    ensures
        bien_forme(apres_action(v, a)),
        bien_forme(apres_nouveau(v, defaut)),
        bien_forme(apres_ouverture_spec(v, chemin, lu)),
        bien_forme(apres_enregistrement_spec(v, chemin, erreur)),
        bien_forme(avec_corde(v, i, c)),
{
}

/// Loi du fichier courant : après un enregistrement réussi dans `chemin`,
/// la harpe n'est plus modifiée et « Enregistrer » vise de nouveau ce
/// fichier (avec l'extension `.harpcfg`) sans rien demander ; un
/// enregistrement ou une ouverture qui échoue ne change que le message.
pub proof fn loi_fichier_courant(v: VueHarpe, chemin: Seq<char>, e: Seq<char>)
    ensures
        !apres_enregistrement_spec(v, chemin, None).modifie,
        apres_enregistrement_spec(v, chemin, None).fichier == Some(chemin),
        effet_spec(apres_enregistrement_spec(v, chemin, None), ActionMenu::Enregistrer)
            == VueEffet::EnregistrerVers(avec_extension_spec(chemin)),
        apres_enregistrement_spec(v, chemin, Some(e)) == (VueHarpe { message: Some("Erreur à l'enregistrement : "@ + e), ..v }),
        apres_ouverture_spec(v, chemin, Err(e)) == (VueHarpe { message: Some("Erreur à l'ouverture : "@ + e), ..v }),
{
}

/// Loi de l'ouverture : une configuration lue avec au moins une corde
/// devient courante, non modifiée, liée au fichier ouvert ; une
/// configuration sans corde est refusée et laisse la harpe telle quelle.
pub proof fn loi_ouverture(v: VueHarpe, chemin: Seq<char>, c: HarpeConfig)
    ensures
        c.cordes@.len() > 0 ==> {
            let w = apres_ouverture_spec(v, chemin, Ok(c));
            &&& w.cordes == c.cordes@
            &&& !w.modifie
            &&& w.fichier == Some(chemin)
        },
        c.cordes@.len() == 0 ==> apres_ouverture_spec(v, chemin, Ok(c)) == (VueHarpe {
            message: Some("Erreur à l'ouverture : "@ + "La configuration ne contient aucune corde."@),
            ..v
        }),
{
}

/// Loi des modifications : « Nouveau » et toute modification d'une corde
/// marquent la harpe modifiée.
pub proof fn loi_modifications(v: VueHarpe, defaut: HarpeConfig, i: int, c: Corde)
    ensures
        apres_nouveau(v, defaut).modifie,
        avec_corde(v, i, c).modifie,
{
}

/// Loi des bascules : basculer deux fois le panneau le remet où il était ;
/// choisir un thème le rend courant.
pub proof fn loi_bascules(v: VueHarpe, t: Theme)
    ensures
        apres_action(apres_action(v, ActionMenu::BasculerPanneau), ActionMenu::BasculerPanneau) == v,
        apres_action(v, ActionMenu::Theme(t)).theme == t,
{
}

/// Loi de « Nouveau » : le bouton de la barre d'outils (`nouveau` avec la
/// configuration par défaut) et l'action de menu (`appliquer_action`, qui
/// demande `NouvelleConfiguration` sans rien changer, puis `nouveau`)
/// mènent au même état.
pub proof fn loi_nouveau_barre_et_menu(v: VueHarpe, defaut: HarpeConfig)
    ensures
        effet_spec(v, ActionMenu::Nouveau) == VueEffet::NouvelleConfiguration,
        apres_nouveau(apres_action(v, ActionMenu::Nouveau), defaut) == apres_nouveau(v, defaut),
{
}
/// Loi de « Nouveau » : quel que soit l'état, il ne reste ensuite aucun
/// fichier courant (un « Enregistrer » qui suit demande donc un chemin), les
/// cordes sont celles de la configuration par défaut, la première est
/// sélectionnée et la harpe est marquée modifiée ; le thème et la
/// disposition ne changent pas.
pub proof fn loi_nouveau_sans_fichier(v: VueHarpe, defaut: HarpeConfig)
    ensures
        apres_nouveau(v, defaut).fichier == None::<Seq<char>>,
        effet_spec(apres_nouveau(v, defaut), ActionMenu::Enregistrer) == VueEffet::ChoisirFichierOuEnregistrer,
        apres_nouveau(v, defaut).cordes == defaut.cordes@,
        apres_nouveau(v, defaut).selection == 0,
        apres_nouveau(v, defaut).modifie,
        apres_nouveau(v, defaut).theme == v.theme,
        apres_nouveau(v, defaut).panneau_gauche == v.panneau_gauche,
{
}

/// Loi des actions de menu : aucune action ne touche aux cordes, à la
/// sélection, au fichier courant, au message ni à la marque « modifié »
/// (seuls un enregistrement ou une ouverture réussis l'ôtent) ; seules la
/// bascule du panneau et le choix du thème changent l'état, et
/// « Enregistrer », « Enregistrer sous », « Ouvrir », « Nouveau » et
/// « Quitter » le laissent tel quel.
pub proof fn loi_actions_sans_effet_sur_la_harpe(v: VueHarpe, a: ActionMenu)
    ensures
        apres_action(v, a).modifie == v.modifie,
        apres_action(v, a).cordes == v.cordes,
        apres_action(v, a).selection == v.selection,
        apres_action(v, a).fichier == v.fichier,
        apres_action(v, a).message == v.message,
        apres_action(v, a).volumes_lies == v.volumes_lies,
        apres_action(v, a).picker_agrandi == v.picker_agrandi,
        a != ActionMenu::BasculerPanneau ==> apres_action(v, a).panneau_gauche == v.panneau_gauche,
        (forall|t: Theme| a != ActionMenu::Theme(t)) ==> apres_action(v, a).theme == v.theme,
        a == ActionMenu::Enregistrer ==> apres_action(v, a) == v,
        a == ActionMenu::EnregistrerSous ==> apres_action(v, a) == v,
        a == ActionMenu::Ouvrir ==> apres_action(v, a) == v,
        a == ActionMenu::Nouveau ==> apres_action(v, a) == v,
        a == ActionMenu::Quitter ==> apres_action(v, a) == v,
{
}

/// Loi de la sélection à l'ouverture : après l'ouverture réussie d'une
/// configuration de `n` cordes, la corde sélectionnée reste la même si elle
/// existe encore (indice inférieur à `n`), sinon c'est la dernière (`n - 1`) ;
/// autrement dit c'est `min(sélection, n - 1)`.
pub proof fn loi_selection_a_l_ouverture(v: VueHarpe, chemin: Seq<char>, c: HarpeConfig)
    requires
        c.cordes@.len() > 0,
        v.selection >= 0,
    ensures
        v.selection < c.cordes@.len() ==> apres_ouverture_spec(v, chemin, Ok(c)).selection == v.selection,
        v.selection >= c.cordes@.len() ==> apres_ouverture_spec(v, chemin, Ok(c)).selection == c.cordes@.len() - 1,
        apres_ouverture_spec(v, chemin, Ok(c)).selection <= v.selection,
        0 <= apres_ouverture_spec(v, chemin, Ok(c)).selection < c.cordes@.len(),
{
}
/// Loi de localité des réglages : modifier la corde `i` donne cette corde à
/// l'indice `i`, laisse toutes les autres cordes, leur nombre, la sélection,
/// le fichier et le message tels quels, et marque la harpe modifiée.
pub proof fn loi_reglage_local(v: VueHarpe, i: int, c: Corde, j: int)
    requires
        0 <= i < v.cordes.len(),
        0 <= j < v.cordes.len(),
        j != i,
    ensures
        avec_corde(v, i, c).cordes.len() == v.cordes.len(),
        avec_corde(v, i, c).cordes[i] == c,
        avec_corde(v, i, c).cordes[j] == v.cordes[j],
        avec_corde(v, i, c).selection == v.selection,
        avec_corde(v, i, c).fichier == v.fichier,
        avec_corde(v, i, c).message == v.message,
        avec_corde(v, i, c).modifie,
{
}
} // verus!
