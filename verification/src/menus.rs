//! Le menu de l'application : les actions qu'il demande, leur file
//! d'attente, la description de la barre de menus native et la décision
//! prise à chaque clic.
use vstd::prelude::*;
use crate::theme::Theme;

verus! {

/// Une action demandée par l'utilisateur via le menu, mise en file pour
/// être traitée par l'application à l'image suivante.
#[derive(Debug, Clone, Copy, PartialEq, Eq, Structural)]
pub enum ActionMenu {
    Nouveau,
    Ouvrir,
    Enregistrer,
    EnregistrerSous,
    BasculerPanneau,
    Theme(Theme),
    Quitter,
}

/// File des actions de menu en attente de traitement par l'application,
/// dans l'ordre où elles ont été demandées.
pub struct FileActions {
    actions: Vec<ActionMenu>,
}

impl View for FileActions {
    type V = Seq<ActionMenu>;

    closed spec fn view(&self) -> Seq<ActionMenu> {
        self.actions@
    }
}

impl FileActions {
    /// Une file vide.
    pub fn new() -> (f: FileActions)
        ensures
            f@ == Seq::<ActionMenu>::empty(),
    {
        FileActions { actions: Vec::new() }
    }

    /// Met une action en fin de file.
    pub fn pousser(&mut self, action: ActionMenu)
        ensures
            final(self)@ == file_apres_poussee(old(self)@, action),
    {
        self.actions.push(action);
    }

    /// Vide la file et renvoie toutes les actions en attente, dans l'ordre
    /// de leur demande.
    pub fn tirer_actions(&mut self) -> (r: Vec<ActionMenu>)
        ensures
            (r@, final(self)@) == tirage(old(self)@),
    {
        let mut r: Vec<ActionMenu> = Vec::new();
        std::mem::swap(&mut r, &mut self.actions);
        r
    }
}

/// La file après qu'on y a poussé `a`.
pub open spec fn file_apres_poussee(f: Seq<ActionMenu>, a: ActionMenu) -> Seq<ActionMenu> {
    f.push(a)
}

/// Ce que rend une tirée sur la file `f`, et la file qu'elle laisse.
pub open spec fn tirage(f: Seq<ActionMenu>) -> (Seq<ActionMenu>, Seq<ActionMenu>) {
    (f, Seq::empty())
}

/// Loi de la file : ce qu'on tire après avoir poussé `a` puis `b` sur une
/// file `f` est `f` suivie de `a` puis de `b` ; la file est alors vide, et
/// une seconde tirée ne rend plus rien.
pub proof fn loi_file_premier_arrive(f: Seq<ActionMenu>, a: ActionMenu, b: ActionMenu)
    ensures
        tirage(file_apres_poussee(file_apres_poussee(f, a), b)).0 == f + seq![a, b],
        tirage(file_apres_poussee(file_apres_poussee(f, a), b)).1.len() == 0,
        tirage(tirage(file_apres_poussee(f, a)).1).0.len() == 0,
{
    assert(f.push(a).push(b) =~= f + seq![a, b]);
}

/// `tag` de l'élément « Panneau » du menu natif.
pub const TAG_PANNEAU: isize = 100;
/// `tag` de l'élément « Thème : Sombre ».
pub const TAG_THEME_SOMBRE: isize = 101;
/// `tag` de l'élément « Thème : Clair ».
pub const TAG_THEME_CLAIR: isize = 102;
/// `tag` de l'élément « Thème : Contraste ».
pub const TAG_THEME_CONTRASTE: isize = 103;
/// `tag` de l'élément « Nouveau ».
pub const TAG_NOUVEAU: isize = 200;
/// `tag` de l'élément « Ouvrir… ».
pub const TAG_OUVRIR: isize = 201;
/// `tag` de l'élément « Enregistrer ».
pub const TAG_ENREGISTRER: isize = 202;
/// `tag` de l'élément « Enregistrer sous… ».
pub const TAG_ENREGISTRER_SOUS: isize = 203;
/// `tag` de l'élément « Quitter ».
pub const TAG_QUITTER: isize = 204;
/// `tag` de l'élément « Réduire ».
pub const TAG_REDUIRE: isize = 300;
/// `tag` de l'élément « Agrandir ».
pub const TAG_AGRANDIR: isize = 301;
/// `tag` de l'élément « Plein écran ».
pub const TAG_PLEIN_ECRAN: isize = 302;
/// `tag` de l'élément « Fermer la fenêtre ».
pub const TAG_FERMER_FENETRE: isize = 303;

/// Une commande de fenêtre demandée par le menu.
#[derive(Debug, Clone, Copy, PartialEq, Eq, Structural)]
pub enum CommandeFenetre {
    Reduire,
    Agrandir,
    /// Passe en plein écran, ou en sort si la fenêtre y est déjà.
    BasculerPleinEcran,
    Fermer,
}

/// Ce que demande un élément de menu.
#[derive(Debug, Clone, Copy, PartialEq, Eq, Structural)]
pub enum CommandeMenu {
    /// Une action à mettre en file pour l'application.
    Action(ActionMenu),
    /// Une commande à appliquer directement à la fenêtre.
    Fenetre(CommandeFenetre),
    /// Rien (`tag` inconnu).
    Aucune,
}

/// La commande associée à chaque `tag` d'élément de menu.
pub open spec fn commande_spec(tag: isize) -> CommandeMenu {
    if tag == TAG_PANNEAU {
        CommandeMenu::Action(ActionMenu::BasculerPanneau)
    } else if tag == TAG_THEME_SOMBRE {
        CommandeMenu::Action(ActionMenu::Theme(Theme::Sombre))
    } else if tag == TAG_THEME_CLAIR {
        CommandeMenu::Action(ActionMenu::Theme(Theme::Clair))
    } else if tag == TAG_THEME_CONTRASTE {
        CommandeMenu::Action(ActionMenu::Theme(Theme::Contraste))
    } else if tag == TAG_NOUVEAU {
        CommandeMenu::Action(ActionMenu::Nouveau)
    } else if tag == TAG_OUVRIR {
        CommandeMenu::Action(ActionMenu::Ouvrir)
    } else if tag == TAG_ENREGISTRER {
        CommandeMenu::Action(ActionMenu::Enregistrer)
    } else if tag == TAG_ENREGISTRER_SOUS {
        CommandeMenu::Action(ActionMenu::EnregistrerSous)
    } else if tag == TAG_QUITTER {
        CommandeMenu::Action(ActionMenu::Quitter)
    } else if tag == TAG_REDUIRE {
        CommandeMenu::Fenetre(CommandeFenetre::Reduire)
    } else if tag == TAG_AGRANDIR {
        CommandeMenu::Fenetre(CommandeFenetre::Agrandir)
    } else if tag == TAG_PLEIN_ECRAN {
        CommandeMenu::Fenetre(CommandeFenetre::BasculerPleinEcran)
    } else if tag == TAG_FERMER_FENETRE {
        CommandeMenu::Fenetre(CommandeFenetre::Fermer)
    } else {
        CommandeMenu::Aucune
    }
}

/// Identifie l'élément cliqué par son `tag` et renvoie la commande qu'il
/// demande.
pub fn commande_pour_tag(tag: isize) -> (c: CommandeMenu)
    ensures
        c == commande_spec(tag),
{
    if tag == TAG_PANNEAU {
        CommandeMenu::Action(ActionMenu::BasculerPanneau)
    } else if tag == TAG_THEME_SOMBRE {
        CommandeMenu::Action(ActionMenu::Theme(Theme::Sombre))
    } else if tag == TAG_THEME_CLAIR {
        CommandeMenu::Action(ActionMenu::Theme(Theme::Clair))
    } else if tag == TAG_THEME_CONTRASTE {
        CommandeMenu::Action(ActionMenu::Theme(Theme::Contraste))
    } else if tag == TAG_NOUVEAU {
        CommandeMenu::Action(ActionMenu::Nouveau)
    } else if tag == TAG_OUVRIR {
        CommandeMenu::Action(ActionMenu::Ouvrir)
    } else if tag == TAG_ENREGISTRER {
        CommandeMenu::Action(ActionMenu::Enregistrer)
    } else if tag == TAG_ENREGISTRER_SOUS {
        CommandeMenu::Action(ActionMenu::EnregistrerSous)
    } else if tag == TAG_QUITTER {
        CommandeMenu::Action(ActionMenu::Quitter)
    } else if tag == TAG_REDUIRE {
        CommandeMenu::Fenetre(CommandeFenetre::Reduire)
    } else if tag == TAG_AGRANDIR {
        CommandeMenu::Fenetre(CommandeFenetre::Agrandir)
    } else if tag == TAG_PLEIN_ECRAN {
        CommandeMenu::Fenetre(CommandeFenetre::BasculerPleinEcran)
    } else if tag == TAG_FERMER_FENETRE {
        CommandeMenu::Fenetre(CommandeFenetre::Fermer)
    } else {
        CommandeMenu::Aucune
    }
}

/// Libellé de l'élément « Panneau » selon la position du panneau.
pub open spec fn libelle_panneau_spec(gauche: bool) -> Seq<char> {
    if gauche {
        "Panneau à gauche"@
    } else {
        "Panneau à droite"@
    }
}

/// Libellé qui annonce la position du panneau de réglages.
pub fn libelle_panneau(gauche: bool) -> (r: &'static str)
    ensures
        r@ == libelle_panneau_spec(gauche),
{
    if gauche {
        "Panneau à gauche"
    } else {
        "Panneau à droite"
    }
}

/// Coches des éléments de thème (Sombre, Clair, Contraste) : seule celle du
/// thème actif est cochée.
pub open spec fn coches_spec(theme: Theme) -> Seq<bool> {
    seq![theme == Theme::Sombre, theme == Theme::Clair, theme == Theme::Contraste]
}

/// L'état affiché des éléments du menu natif qui suivent l'état de
/// l'application : le libellé de l'élément « Panneau » et les coches des
/// thèmes.
pub struct MenuNatif {
    pub titre_panneau: &'static str,
    pub coches_theme: [bool; 3],
}

impl MenuNatif {
    /// L'état du menu juste installé : panneau annoncé à droite, aucun thème
    /// coché.
    pub fn installer() -> (m: MenuNatif)
        ensures
            m.titre_panneau@ == libelle_panneau_spec(false),
            m.coches_theme@ == seq![false, false, false],
    {
        MenuNatif { titre_panneau: libelle_panneau(false), coches_theme: [false, false, false] }
    }

    /// Change le libellé de l'élément « Panneau » en fonction de la position.
    pub fn mettre_a_jour_panneau(&mut self, gauche: bool)
        ensures
            final(self).titre_panneau@ == libelle_panneau_spec(gauche),
            final(self).coches_theme == old(self).coches_theme,
    {
        self.titre_panneau = libelle_panneau(gauche);
    }

    /// Coche uniquement l'élément de menu du thème actif.
    pub fn mettre_a_jour_theme(&mut self, theme: Theme)
        ensures
            final(self).coches_theme@ == coches_spec(theme),
            final(self).titre_panneau == old(self).titre_panneau,
    {
        self.coches_theme = [theme == Theme::Sombre, theme == Theme::Clair, theme == Theme::Contraste];
    }

    /// Reçoit le clic sur l'élément de `tag` donné : met en file l'action
    /// qu'il demande (en cochant d'abord le thème choisi s'il s'agit d'un
    /// thème) ou renvoie la commande de fenêtre à appliquer.
    pub fn traiter_clic(&mut self, tag: isize, file: &mut FileActions) -> (r: Option<CommandeFenetre>)
        ensures
            match commande_spec(tag) {
                CommandeMenu::Action(a) => {
                    &&& r is None
                    &&& final(file)@ == file_apres_poussee(old(file)@, a)
                    &&& final(self).titre_panneau == old(self).titre_panneau
                    &&& match a {
                        ActionMenu::Theme(t) => final(self).coches_theme@ == coches_spec(t),
                        _ => final(self).coches_theme == old(self).coches_theme,
                    }
                },
                CommandeMenu::Fenetre(f) => {
                    &&& r == Some(f)
                    &&& final(file)@ == old(file)@
                    &&& *final(self) == *old(self)
                },
                CommandeMenu::Aucune => {
                    &&& r is None
                    &&& final(file)@ == old(file)@
                    &&& *final(self) == *old(self)
                },
            },
    {
        match commande_pour_tag(tag) {
            CommandeMenu::Action(a) => {
                if let ActionMenu::Theme(t) = a {
                    self.mettre_a_jour_theme(t);
                }
                file.pousser(a);
                None
            },
            CommandeMenu::Fenetre(f) => Some(f),
            CommandeMenu::Aucune => None,
        }
    }
}

/// Touches de modification d'un raccourci clavier.
#[derive(Debug, Clone, Copy, PartialEq, Eq, Structural)]
pub enum Modificateurs {
    Aucun,
    Commande,
    CommandeMajuscule,
    CommandeControle,
}

/// Un élément de menu d'action ou à cocher.
#[derive(Debug, Clone, Copy, PartialEq, Eq)]
pub struct ElementMenu {
    pub titre: &'static str,
    /// Touche du raccourci clavier, s'il y en a un.
    pub touche: Option<char>,
    /// Touches de modification du raccourci (sans objet sans touche).
    pub modificateurs: Modificateurs,
    /// Identifie l'élément quand il est cliqué.
    pub tag: isize,
    /// Vrai pour un élément qui porte une coche (panneau, thèmes).
    pub a_cocher: bool,
}

/// Une entrée d'un menu déroulant.
#[derive(Debug, Clone, Copy, PartialEq, Eq)]
pub enum EntreeMenu {
    Element(ElementMenu),
    Separateur,
}

/// Un titre de la barre de menus et son menu déroulant.
pub struct MenuBarre {
    pub titre: &'static str,
    pub entrees: Vec<EntreeMenu>,
}

/// Élément d'action avec raccourci.
pub open spec fn action(titre: &'static str, touche: Option<char>, m: Modificateurs, tag: isize) -> EntreeMenu {
    EntreeMenu::Element(ElementMenu { titre, touche, modificateurs: m, tag, a_cocher: false })
}

/// Élément à cocher, sans raccourci.
pub open spec fn case(titre: &'static str, tag: isize) -> EntreeMenu {
    EntreeMenu::Element(ElementMenu { titre, touche: None, modificateurs: Modificateurs::Aucun, tag, a_cocher: true })
}

/// La barre de menus complète (application, Fichier, Affichage, Fenêtre).
pub open spec fn structure_spec() -> Seq<(&'static str, Seq<EntreeMenu>)> {
    seq![
        ("Harpe sans corde", seq![
            action("Quitter Harpe sans corde", Some('q'), Modificateurs::Commande, TAG_QUITTER),
        ]),
        ("Fichier", seq![
            action("Nouveau", Some('n'), Modificateurs::Commande, TAG_NOUVEAU),
            action("Ouvrir…", Some('o'), Modificateurs::Commande, TAG_OUVRIR),
            action("Enregistrer", Some('s'), Modificateurs::Commande, TAG_ENREGISTRER),
            action("Enregistrer sous…", Some('s'), Modificateurs::CommandeMajuscule, TAG_ENREGISTRER_SOUS),
        ]),
        ("Affichage", seq![
            case("Panneau à droite", TAG_PANNEAU),
            EntreeMenu::Separateur,
            case("Thème : Sombre", TAG_THEME_SOMBRE),
            case("Thème : Clair", TAG_THEME_CLAIR),
            case("Thème : Contraste", TAG_THEME_CONTRASTE),
        ]),
        ("Fenêtre", seq![
            action("Réduire", Some('m'), Modificateurs::Commande, TAG_REDUIRE),
            action("Agrandir", None, Modificateurs::Aucun, TAG_AGRANDIR),
            action("Plein écran", Some('f'), Modificateurs::CommandeControle, TAG_PLEIN_ECRAN),
            EntreeMenu::Separateur,
            action("Fermer la fenêtre", Some('w'), Modificateurs::Commande, TAG_FERMER_FENETRE),
        ]),
    ]
}

fn element_action(titre: &'static str, touche: Option<char>, m: Modificateurs, tag: isize) -> (e: EntreeMenu)
    ensures
        e == action(titre, touche, m, tag),
{
    EntreeMenu::Element(ElementMenu { titre, touche, modificateurs: m, tag, a_cocher: false })
}

fn element_case(titre: &'static str, tag: isize) -> (e: EntreeMenu)
    ensures
        e == case(titre, tag),
{
    EntreeMenu::Element(ElementMenu { titre, touche: None, modificateurs: Modificateurs::Aucun, tag, a_cocher: true })
}

/// Décrit la barre de menus native : chaque menu, ses éléments avec leur
/// raccourci et leur `tag`, et les séparateurs.
pub fn structure_menus() -> (r: Vec<MenuBarre>)
    ensures
        r@.len() == structure_spec().len(),
        forall|i: int|
            0 <= i < r@.len() ==> (#[trigger] r@[i]).titre == structure_spec()[i].0
                && r@[i].entrees@ == structure_spec()[i].1,
{
    let mut application: Vec<EntreeMenu> = Vec::new();
    application.push(element_action("Quitter Harpe sans corde", Some('q'), Modificateurs::Commande, TAG_QUITTER));
    let mut fichier: Vec<EntreeMenu> = Vec::new();
    fichier.push(element_action("Nouveau", Some('n'), Modificateurs::Commande, TAG_NOUVEAU));
    fichier.push(element_action("Ouvrir…", Some('o'), Modificateurs::Commande, TAG_OUVRIR));
    fichier.push(element_action("Enregistrer", Some('s'), Modificateurs::Commande, TAG_ENREGISTRER));
    fichier.push(element_action("Enregistrer sous…", Some('s'), Modificateurs::CommandeMajuscule, TAG_ENREGISTRER_SOUS));
    let mut affichage: Vec<EntreeMenu> = Vec::new();
    affichage.push(element_case("Panneau à droite", TAG_PANNEAU));
    affichage.push(EntreeMenu::Separateur);
    affichage.push(element_case("Thème : Sombre", TAG_THEME_SOMBRE));
    affichage.push(element_case("Thème : Clair", TAG_THEME_CLAIR));
    affichage.push(element_case("Thème : Contraste", TAG_THEME_CONTRASTE));
    let mut fenetre: Vec<EntreeMenu> = Vec::new();
    fenetre.push(element_action("Réduire", Some('m'), Modificateurs::Commande, TAG_REDUIRE));
    fenetre.push(element_action("Agrandir", None, Modificateurs::Aucun, TAG_AGRANDIR));
    fenetre.push(element_action("Plein écran", Some('f'), Modificateurs::CommandeControle, TAG_PLEIN_ECRAN));
    fenetre.push(EntreeMenu::Separateur);
    fenetre.push(element_action("Fermer la fenêtre", Some('w'), Modificateurs::Commande, TAG_FERMER_FENETRE));
    assert(application@ =~= structure_spec()[0].1);
    assert(fichier@ =~= structure_spec()[1].1);
    assert(affichage@ =~= structure_spec()[2].1);
    assert(fenetre@ =~= structure_spec()[3].1);
    let mut r: Vec<MenuBarre> = Vec::new();
    r.push(MenuBarre { titre: "Harpe sans corde", entrees: application });
    r.push(MenuBarre { titre: "Fichier", entrees: fichier });
    r.push(MenuBarre { titre: "Affichage", entrees: affichage });
    r.push(MenuBarre { titre: "Fenêtre", entrees: fenetre });
    r
}

/// La commande déclenchée par chaque raccourci clavier.
pub open spec fn raccourci_spec(touche: char, m: Modificateurs) -> CommandeMenu {
    match m {
        Modificateurs::Commande => if touche == 'q' {
            CommandeMenu::Action(ActionMenu::Quitter)
        } else if touche == 'n' {
            CommandeMenu::Action(ActionMenu::Nouveau)
        } else if touche == 'o' {
            CommandeMenu::Action(ActionMenu::Ouvrir)
        } else if touche == 's' {
            CommandeMenu::Action(ActionMenu::Enregistrer)
        } else if touche == 'm' {
            CommandeMenu::Fenetre(CommandeFenetre::Reduire)
        } else if touche == 'w' {
            CommandeMenu::Fenetre(CommandeFenetre::Fermer)
        } else {
            CommandeMenu::Aucune
        },
        Modificateurs::CommandeMajuscule => if touche == 's' {
            CommandeMenu::Action(ActionMenu::EnregistrerSous)
        } else {
            CommandeMenu::Aucune
        },
        Modificateurs::CommandeControle => if touche == 'f' {
            CommandeMenu::Fenetre(CommandeFenetre::BasculerPleinEcran)
        } else {
            CommandeMenu::Aucune
        },
        Modificateurs::Aucun => CommandeMenu::Aucune,
    }
}

/// La commande que déclenche le raccourci clavier `touche` tenu avec les
/// modificateurs `m`, celle de l'élément de menu qui porte ce raccourci.
pub fn commande_pour_raccourci(touche: char, m: Modificateurs) -> (c: CommandeMenu)
    ensures
        c == raccourci_spec(touche, m),
{
    match m {
        Modificateurs::Commande => if touche == 'q' {
            CommandeMenu::Action(ActionMenu::Quitter)
        } else if touche == 'n' {
            CommandeMenu::Action(ActionMenu::Nouveau)
        } else if touche == 'o' {
            CommandeMenu::Action(ActionMenu::Ouvrir)
        } else if touche == 's' {
            CommandeMenu::Action(ActionMenu::Enregistrer)
        } else if touche == 'm' {
            CommandeMenu::Fenetre(CommandeFenetre::Reduire)
        } else if touche == 'w' {
            CommandeMenu::Fenetre(CommandeFenetre::Fermer)
        } else {
            CommandeMenu::Aucune
        },
        Modificateurs::CommandeMajuscule => if touche == 's' {
            CommandeMenu::Action(ActionMenu::EnregistrerSous)
        } else {
            CommandeMenu::Aucune
        },
        Modificateurs::CommandeControle => if touche == 'f' {
            CommandeMenu::Fenetre(CommandeFenetre::BasculerPleinEcran)
        } else {
            CommandeMenu::Aucune
        },
        Modificateurs::Aucun => CommandeMenu::Aucune,
    }
}

/// L'élément `j` du menu `i` de la barre, s'il s'agit d'un élément.
pub open spec fn est_element(i: int, j: int, e: ElementMenu) -> bool {
    &&& 0 <= i < structure_spec().len()
    &&& 0 <= j < structure_spec()[i].1.len()
    &&& structure_spec()[i].1[j] == EntreeMenu::Element(e)
}

/// Loi du menu : chaque élément de la barre porte un `tag` que le
/// gestionnaire de clics reconnaît ; deux éléments distincts ont des `tag`
/// distincts ; seuls le panneau et les thèmes portent une coche ; et chaque
/// raccourci affiché déclenche la commande de l'élément qui l'affiche.
pub proof fn loi_elements_de_menu(i: int, j: int, e: ElementMenu, i2: int, j2: int, e2: ElementMenu)
    requires
        est_element(i, j, e),
        est_element(i2, j2, e2),
    ensures
        commande_spec(e.tag) != CommandeMenu::Aucune,
        e.tag == e2.tag ==> i == i2 && j == j2,
        e.a_cocher <==> (commande_spec(e.tag) == CommandeMenu::Action(ActionMenu::BasculerPanneau)
            || exists|t: Theme| commande_spec(e.tag) == CommandeMenu::Action(ActionMenu::Theme(t))),
        e.touche matches Some(k) ==> raccourci_spec(k, e.modificateurs) == commande_spec(e.tag),
{
    let s = structure_spec();
    assert(s[0].1.len() == 1);
    assert(s[1].1.len() == 4);
    assert(s[2].1.len() == 5);
    assert(s[3].1.len() == 5);
    assert(commande_spec(TAG_THEME_SOMBRE) == CommandeMenu::Action(ActionMenu::Theme(Theme::Sombre)));
    assert(commande_spec(TAG_THEME_CLAIR) == CommandeMenu::Action(ActionMenu::Theme(Theme::Clair)));
    assert(commande_spec(TAG_THEME_CONTRASTE) == CommandeMenu::Action(ActionMenu::Theme(Theme::Contraste)));
}

/// Loi des raccourcis : tout raccourci qui déclenche une commande est
/// affiché par un élément de la barre de menus.
pub proof fn loi_raccourcis_affiches(touche: char, m: Modificateurs)
    requires
        raccourci_spec(touche, m) != CommandeMenu::Aucune,
    ensures
        exists|i: int, j: int, e: ElementMenu|
            #[trigger] est_element(i, j, e) && e.touche == Some(touche) && e.modificateurs == m,
{
    let s = structure_spec();
    assert(s[0].1.len() == 1);
    assert(s[1].1.len() == 4);
    assert(s[3].1.len() == 5);
    if m == Modificateurs::Commande {
        if touche == 'q' {
            assert(est_element(0, 0, ElementMenu { titre: "Quitter Harpe sans corde", touche: Some('q'), modificateurs: m, tag: TAG_QUITTER, a_cocher: false }));
        } else if touche == 'n' {
            assert(est_element(1, 0, ElementMenu { titre: "Nouveau", touche: Some('n'), modificateurs: m, tag: TAG_NOUVEAU, a_cocher: false }));
        } else if touche == 'o' {
            assert(est_element(1, 1, ElementMenu { titre: "Ouvrir…", touche: Some('o'), modificateurs: m, tag: TAG_OUVRIR, a_cocher: false }));
        } else if touche == 's' {
            assert(est_element(1, 2, ElementMenu { titre: "Enregistrer", touche: Some('s'), modificateurs: m, tag: TAG_ENREGISTRER, a_cocher: false }));
        } else if touche == 'm' {
            assert(est_element(3, 0, ElementMenu { titre: "Réduire", touche: Some('m'), modificateurs: m, tag: TAG_REDUIRE, a_cocher: false }));
        } else {
            assert(est_element(3, 4, ElementMenu { titre: "Fermer la fenêtre", touche: Some('w'), modificateurs: m, tag: TAG_FERMER_FENETRE, a_cocher: false }));
        }
    } else if m == Modificateurs::CommandeMajuscule {
        assert(est_element(1, 3, ElementMenu { titre: "Enregistrer sous…", touche: Some('s'), modificateurs: m, tag: TAG_ENREGISTRER_SOUS, a_cocher: false }));
    } else {
        assert(est_element(3, 2, ElementMenu { titre: "Plein écran", touche: Some('f'), modificateurs: m, tag: TAG_PLEIN_ECRAN, a_cocher: false }));
    }
}

/// Loi des coches : après la mise à jour du thème, exactement une coche est
/// mise, celle du thème actif dans l'ordre Sombre, Clair, Contraste.
pub proof fn loi_une_seule_coche(t: Theme)
    ensures
        coches_spec(t).len() == 3,
        forall|i: int, j: int|
            0 <= i < 3 && 0 <= j < 3 && #[trigger] coches_spec(t)[i] && #[trigger] coches_spec(t)[j] ==> i == j,
        exists|i: int| 0 <= i < 3 && #[trigger] coches_spec(t)[i],
        coches_spec(t)[0] <==> t == Theme::Sombre,
        coches_spec(t)[1] <==> t == Theme::Clair,
        coches_spec(t)[2] <==> t == Theme::Contraste,
{
    let c = coches_spec(t);
    if t == Theme::Sombre {
        assert(c[0]);
    } else if t == Theme::Clair {
        assert(c[1]);
    } else {
        assert(c[2]);
    }
}

/// Le titre qu'affiche, dans la barre de menus, l'élément qui déclenche la
/// commande `c`.
pub open spec fn titre_de_commande(c: CommandeMenu) -> &'static str {
    match c {
        CommandeMenu::Action(ActionMenu::Quitter) => "Quitter Harpe sans corde",
        CommandeMenu::Action(ActionMenu::Nouveau) => "Nouveau",
        CommandeMenu::Action(ActionMenu::Ouvrir) => "Ouvrir…",
        CommandeMenu::Action(ActionMenu::Enregistrer) => "Enregistrer",
        CommandeMenu::Action(ActionMenu::EnregistrerSous) => "Enregistrer sous…",
        CommandeMenu::Action(ActionMenu::BasculerPanneau) => "Panneau à droite",
        CommandeMenu::Action(ActionMenu::Theme(Theme::Sombre)) => "Thème : Sombre",
        CommandeMenu::Action(ActionMenu::Theme(Theme::Clair)) => "Thème : Clair",
        CommandeMenu::Action(ActionMenu::Theme(Theme::Contraste)) => "Thème : Contraste",
        CommandeMenu::Fenetre(CommandeFenetre::Reduire) => "Réduire",
        CommandeMenu::Fenetre(CommandeFenetre::Agrandir) => "Agrandir",
        CommandeMenu::Fenetre(CommandeFenetre::BasculerPleinEcran) => "Plein écran",
        CommandeMenu::Fenetre(CommandeFenetre::Fermer) => "Fermer la fenêtre",
        CommandeMenu::Aucune => "",
    }
}

/// Loi des titres : chaque élément de la barre de menus déclenche la
/// commande que son titre annonce (« Thème : Sombre » applique le thème
/// sombre, « Enregistrer sous… » demande un chemin, etc.), et chaque clic
/// traité met en file l'action de ce titre.
pub proof fn loi_titres_de_menu(i: int, j: int, e: ElementMenu)
    requires
        est_element(i, j, e),
    ensures
        e.titre == titre_de_commande(commande_spec(e.tag)),
        e.titre == "Thème : Sombre" ==> commande_spec(e.tag) == CommandeMenu::Action(ActionMenu::Theme(Theme::Sombre)),
        e.titre == "Thème : Clair" ==> commande_spec(e.tag) == CommandeMenu::Action(ActionMenu::Theme(Theme::Clair)),
        e.titre == "Thème : Contraste" ==> commande_spec(e.tag) == CommandeMenu::Action(ActionMenu::Theme(Theme::Contraste)),
{
    let s = structure_spec();
    assert(s[0].1.len() == 1);
    assert(s[1].1.len() == 4);
    assert(s[2].1.len() == 5);
    assert(s[3].1.len() == 5);
}
} // verus!
