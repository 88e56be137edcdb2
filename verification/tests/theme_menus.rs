use harpe::menus::{
    commande_pour_raccourci, commande_pour_tag, libelle_panneau, structure_menus, ActionMenu,
    CommandeFenetre, CommandeMenu, EntreeMenu, FileActions, MenuNatif, Modificateurs,
    TAG_AGRANDIR, TAG_ENREGISTRER, TAG_ENREGISTRER_SOUS, TAG_FERMER_FENETRE, TAG_NOUVEAU,
    TAG_OUVRIR, TAG_PANNEAU, TAG_PLEIN_ECRAN, TAG_QUITTER, TAG_REDUIRE, TAG_THEME_CLAIR,
    TAG_THEME_CONTRASTE, TAG_THEME_SOMBRE,
};
use harpe::pipette::CouleurPiochee;
use harpe::theme::{accent, fond_apercu, grille_apercu, palette, Couleur, Theme};

fn c(r: u8, g: u8, b: u8, a: u8) -> Couleur {
    Couleur { r, g, b, a }
}

#[test]
fn labels_des_themes() {
    assert_eq!(Theme::Sombre.label(), "Sombre");
    assert_eq!(Theme::Clair.label(), "Clair");
    assert_eq!(Theme::Contraste.label(), "Contraste");
    assert_eq!(Theme::TOUTES, [Theme::Sombre, Theme::Clair, Theme::Contraste]);
}

#[test]
fn couleurs_d_accent() {
    assert_eq!(accent(Theme::Sombre), c(217, 119, 87, 255));
    assert_eq!(accent(Theme::Clair), c(180, 95, 65, 255));
    assert_eq!(accent(Theme::Contraste), c(230, 135, 100, 255));
}

#[test]
fn fonds_d_apercu() {
    assert_eq!(fond_apercu(Theme::Sombre), c(25, 25, 23, 255));
    assert_eq!(fond_apercu(Theme::Clair), c(240, 238, 230, 255));
    assert_eq!(fond_apercu(Theme::Contraste), c(20, 20, 19, 255));
}

#[test]
fn grilles_d_apercu_premultipliees() {
    assert_eq!(grille_apercu(Theme::Sombre), c(25, 24, 24, 25));
    assert_eq!(grille_apercu(Theme::Contraste), c(25, 24, 24, 25));
    assert_eq!(grille_apercu(Theme::Clair), c(2, 2, 1, 20));
}

#[test]
fn palettes() {
    let p = palette(Theme::Sombre);
    assert!(p.base_sombre);
    assert_eq!(p.fond_panneau, c(30, 30, 28, 255));
    assert_eq!(p.fond_fenetre, c(20, 20, 19, 255));
    assert_eq!(p.texte, c(176, 174, 165, 255));
    assert_eq!(p.bordure, c(94, 93, 89, 255));
    let p = palette(Theme::Clair);
    assert!(!p.base_sombre);
    assert_eq!(p.fond_panneau, c(250, 249, 245, 255));
    assert_eq!(p.fond_fenetre, c(240, 238, 230, 255));
    assert_eq!(p.texte, c(61, 61, 58, 255));
    assert_eq!(p.bordure, c(232, 230, 220, 255));
    let p = palette(Theme::Contraste);
    assert!(p.base_sombre);
    assert_eq!(p.fond_panneau, c(20, 20, 19, 255));
    assert_eq!(p.fond_fenetre, c(30, 30, 28, 255));
    assert_eq!(p.texte, c(250, 249, 245, 255));
    assert_eq!(p.bordure, c(94, 93, 89, 255));
}

#[test]
fn file_des_actions_dans_l_ordre() {
    let mut f = FileActions::new();
    assert!(f.tirer_actions().is_empty());
    f.pousser(ActionMenu::Ouvrir);
    f.pousser(ActionMenu::Theme(Theme::Clair));
    f.pousser(ActionMenu::Quitter);
    assert_eq!(
        f.tirer_actions(),
        vec![ActionMenu::Ouvrir, ActionMenu::Theme(Theme::Clair), ActionMenu::Quitter]
    );
    assert!(f.tirer_actions().is_empty());
}

#[test]
fn commandes_par_tag() {
    assert_eq!(commande_pour_tag(TAG_PANNEAU), CommandeMenu::Action(ActionMenu::BasculerPanneau));
    assert_eq!(commande_pour_tag(TAG_THEME_SOMBRE), CommandeMenu::Action(ActionMenu::Theme(Theme::Sombre)));
    assert_eq!(commande_pour_tag(TAG_THEME_CLAIR), CommandeMenu::Action(ActionMenu::Theme(Theme::Clair)));
    assert_eq!(commande_pour_tag(TAG_THEME_CONTRASTE), CommandeMenu::Action(ActionMenu::Theme(Theme::Contraste)));
    assert_eq!(commande_pour_tag(TAG_NOUVEAU), CommandeMenu::Action(ActionMenu::Nouveau));
    assert_eq!(commande_pour_tag(TAG_OUVRIR), CommandeMenu::Action(ActionMenu::Ouvrir));
    assert_eq!(commande_pour_tag(TAG_ENREGISTRER), CommandeMenu::Action(ActionMenu::Enregistrer));
    assert_eq!(commande_pour_tag(TAG_ENREGISTRER_SOUS), CommandeMenu::Action(ActionMenu::EnregistrerSous));
    assert_eq!(commande_pour_tag(TAG_QUITTER), CommandeMenu::Action(ActionMenu::Quitter));
    assert_eq!(commande_pour_tag(TAG_REDUIRE), CommandeMenu::Fenetre(CommandeFenetre::Reduire));
    assert_eq!(commande_pour_tag(TAG_AGRANDIR), CommandeMenu::Fenetre(CommandeFenetre::Agrandir));
    assert_eq!(commande_pour_tag(TAG_PLEIN_ECRAN), CommandeMenu::Fenetre(CommandeFenetre::BasculerPleinEcran));
    assert_eq!(commande_pour_tag(TAG_FERMER_FENETRE), CommandeMenu::Fenetre(CommandeFenetre::Fermer));
    assert_eq!(commande_pour_tag(0), CommandeMenu::Aucune);
    assert_eq!(commande_pour_tag(-100), CommandeMenu::Aucune);
}

#[test]
fn libelles_du_panneau() {
    assert_eq!(libelle_panneau(true), "Panneau à gauche");
    assert_eq!(libelle_panneau(false), "Panneau à droite");
}

#[test]
fn menu_natif_suit_l_etat() {
    let mut m = MenuNatif::installer();
    assert_eq!(m.titre_panneau, "Panneau à droite");
    assert_eq!(m.coches_theme, [false, false, false]);
    m.mettre_a_jour_panneau(true);
    assert_eq!(m.titre_panneau, "Panneau à gauche");
    m.mettre_a_jour_theme(Theme::Contraste);
    assert_eq!(m.coches_theme, [false, false, true]);
    m.mettre_a_jour_theme(Theme::Sombre);
    assert_eq!(m.coches_theme, [true, false, false]);
    assert_eq!(m.titre_panneau, "Panneau à gauche");
}

#[test]
fn clics_dans_le_menu() {
    let mut m = MenuNatif::installer();
    let mut f = FileActions::new();
    assert_eq!(m.traiter_clic(TAG_THEME_CLAIR, &mut f), None);
    assert_eq!(m.coches_theme, [false, true, false]);
    assert_eq!(m.traiter_clic(TAG_NOUVEAU, &mut f), None);
    assert_eq!(m.traiter_clic(TAG_PLEIN_ECRAN, &mut f), Some(CommandeFenetre::BasculerPleinEcran));
    assert_eq!(m.traiter_clic(999, &mut f), None);
    assert_eq!(m.traiter_clic(TAG_PANNEAU, &mut f), None);
    assert_eq!(m.coches_theme, [false, true, false]);
    assert_eq!(
        f.tirer_actions(),
        vec![ActionMenu::Theme(Theme::Clair), ActionMenu::Nouveau, ActionMenu::BasculerPanneau]
    );
}

#[test]
fn barre_de_menus() {
    let menus = structure_menus();
    let titres: Vec<&str> = menus.iter().map(|m| m.titre).collect();
    assert_eq!(titres, vec!["Harpe sans corde", "Fichier", "Affichage", "Fenêtre"]);
    let mut tags = Vec::new();
    for m in &menus {
        for e in &m.entrees {
            if let EntreeMenu::Element(e) = e {
                assert_ne!(commande_pour_tag(e.tag), CommandeMenu::Aucune);
                if let Some(k) = e.touche {
                    assert_eq!(commande_pour_raccourci(k, e.modificateurs), commande_pour_tag(e.tag));
                }
                tags.push(e.tag);
            }
        }
    }
    assert_eq!(tags.len(), 13);
    let mut tries = tags.clone();
    tries.sort();
    tries.dedup();
    assert_eq!(tries.len(), 13);
    let fichier: Vec<(&str, Option<char>)> = menus[1]
        .entrees
        .iter()
        .filter_map(|e| match e {
            EntreeMenu::Element(e) => Some((e.titre, e.touche)),
            EntreeMenu::Separateur => None,
        })
        .collect();
    assert_eq!(
        fichier,
        vec![("Nouveau", Some('n')), ("Ouvrir…", Some('o')), ("Enregistrer", Some('s')), ("Enregistrer sous…", Some('s'))]
    );
    assert_eq!(menus[2].entrees[1], EntreeMenu::Separateur);
    assert_eq!(menus[3].entrees.len(), 5);
}

#[test]
fn raccourcis_clavier() {
    assert_eq!(commande_pour_raccourci('s', Modificateurs::Commande), CommandeMenu::Action(ActionMenu::Enregistrer));
    assert_eq!(commande_pour_raccourci('s', Modificateurs::CommandeMajuscule), CommandeMenu::Action(ActionMenu::EnregistrerSous));
    assert_eq!(commande_pour_raccourci('f', Modificateurs::CommandeControle), CommandeMenu::Fenetre(CommandeFenetre::BasculerPleinEcran));
    assert_eq!(commande_pour_raccourci('f', Modificateurs::Commande), CommandeMenu::Aucune);
    assert_eq!(commande_pour_raccourci('q', Modificateurs::Aucun), CommandeMenu::Aucune);
}

#[test]
fn pipette_rend_la_couleur_une_fois() {
    let mut p = CouleurPiochee::new();
    assert_eq!(p.couleur_piochee(), None);
    p.deposer([1, 2, 3]);
    p.deposer([10, 20, 30]);
    assert_eq!(p.couleur_piochee(), Some([10, 20, 30]));
    assert_eq!(p.couleur_piochee(), None);
}
