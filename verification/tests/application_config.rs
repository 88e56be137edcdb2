use harpe::application::{Effet, EtatHarpe};
use harpe::audio::notes_arpege;
use harpe::config::{avec_extension, charger, nom_affiche, EXTENSION};
use harpe::menus::ActionMenu;
use harpe::modele::{Corde, FormeOnde, HarpeConfig, Reel32, ReglageSon};
use harpe::theme::Theme;

fn r(x: f32) -> Reel32 {
    Reel32 { bits: x.to_bits() }
}

fn corde(note: &str, frequence: f32, active: bool) -> Corde {
    Corde {
        note: note.to_string(),
        frequence: r(frequence),
        reglage: ReglageSon {
            forme_onde: FormeOnde::Sinus,
            volume: r(0.8),
            attaque_ms: r(8.0),
            relache_ms: r(180.0),
        },
        active,
        couleur: None,
    }
}

fn config(n: usize) -> HarpeConfig {
    HarpeConfig { cordes: (0..n).map(|i| corde(&format!("N{i}"), 100.0 + i as f32, true)).collect() }
}

#[test]
fn extension_ajoutee_ou_gardee() {
    assert_eq!(EXTENSION, "harpcfg");
    assert_eq!(avec_extension("a/b.json"), "a/b.harpcfg");
    assert_eq!(avec_extension("a/b"), "a/b.harpcfg");
    assert_eq!(avec_extension("a/b.harpcfg"), "a/b.harpcfg");
    assert_eq!(avec_extension("a/b.HarpCfg"), "a/b.HarpCfg");
    assert_eq!(avec_extension("a.d/b"), "a.d/b.harpcfg");
    assert_eq!(avec_extension("config.tar.gz"), "config.tar.harpcfg");
}

#[test]
fn nom_de_fichier_affiche() {
    assert_eq!(nom_affiche(None), "non enregistré");
    assert_eq!(nom_affiche(Some("/tmp/harpe/ma_harpe.harpcfg")), "ma_harpe.harpcfg");
    assert_eq!(nom_affiche(Some("/")), "non enregistré");
}

#[test]
fn chargement_refuse_une_configuration_vide() {
    assert_eq!(
        charger(Ok(HarpeConfig { cordes: vec![] })),
        Err("La configuration ne contient aucune corde.".to_string())
    );
    assert_eq!(charger(Err("illisible".to_string())), Err("illisible".to_string()));
    assert_eq!(charger(Ok(config(3))), Ok(config(3)));
}

#[test]
fn arpege_des_cordes_actives() {
    let cordes = vec![corde("Do3", 130.0, true), corde("Do#3", 138.0, false), corde("Ré3", 146.0, true)];
    let notes = notes_arpege(&cordes);
    assert_eq!(notes.len(), 2);
    assert_eq!(notes[0].0, r(130.0));
    assert_eq!(notes[1].0, r(146.0));
    assert_eq!(notes[1].1, cordes[2].reglage);
    assert!(notes_arpege(&vec![]).is_empty());
}

#[test]
fn etat_initial() {
    let e = EtatHarpe::new(config(22));
    assert_eq!(e.config().cordes.len(), 22);
    assert_eq!(e.corde_selectionnee(), 0);
    assert_eq!(e.fichier(), None);
    assert!(!e.modifie());
    assert_eq!(e.message(), None);
    assert_eq!(e.theme(), Theme::Sombre);
    assert!(!e.panneau_gauche());
    assert!(!e.volumes_lies());
    assert!(!e.picker_agrandi());
}

#[test]
fn nouvelle_configuration() {
    let mut e = EtatHarpe::new(config(5));
    e.selectionner(3);
    assert_eq!(e.appliquer_action(ActionMenu::Nouveau), Effet::NouvelleConfiguration);
    e.nouveau(config(22));
    assert_eq!(e.corde_selectionnee(), 0);
    assert_eq!(e.config().cordes.len(), 22);
    assert!(e.modifie());
    assert_eq!(e.fichier(), None);
    assert_eq!(e.message(), Some("Nouvelle configuration créée."));
}

#[test]
fn actions_de_menu() {
    let mut e = EtatHarpe::new(config(2));
    assert_eq!(e.appliquer_action(ActionMenu::Ouvrir), Effet::ChoisirFichierAOuvrir);
    assert_eq!(e.appliquer_action(ActionMenu::Enregistrer), Effet::ChoisirFichierOuEnregistrer);
    assert_eq!(e.appliquer_action(ActionMenu::EnregistrerSous), Effet::ChoisirFichierOuEnregistrer);
    assert_eq!(e.appliquer_action(ActionMenu::BasculerPanneau), Effet::MettreAJourPanneau(true));
    assert!(e.panneau_gauche());
    assert_eq!(e.appliquer_action(ActionMenu::BasculerPanneau), Effet::MettreAJourPanneau(false));
    assert!(!e.panneau_gauche());
    assert_eq!(e.appliquer_action(ActionMenu::Theme(Theme::Clair)), Effet::AppliquerTheme(Theme::Clair));
    assert_eq!(e.theme(), Theme::Clair);
    assert_eq!(e.appliquer_action(ActionMenu::Quitter), Effet::Fermer);
    assert!(!e.modifie());
}

#[test]
fn enregistrement_puis_enregistrer() {
    let mut e = EtatHarpe::new(config(2));
    e.basculer_active(1);
    assert!(e.modifie());
    e.apres_enregistrement("/tmp/h.harpcfg".to_string(), Err("disque plein".to_string()));
    assert!(e.modifie());
    assert_eq!(e.fichier(), None);
    assert_eq!(e.message(), Some("Erreur à l'enregistrement : disque plein"));
    e.apres_enregistrement("/tmp/h.harpcfg".to_string(), Ok(()));
    assert!(!e.modifie());
    assert_eq!(e.fichier(), Some("/tmp/h.harpcfg"));
    assert_eq!(e.message(), Some("Configuration enregistrée : /tmp/h.harpcfg"));
    assert_eq!(
        e.appliquer_action(ActionMenu::Enregistrer),
        Effet::EnregistrerVers("/tmp/h.harpcfg".to_string())
    );
}

#[test]
fn ouverture_reussie_ramene_la_selection() {
    let mut e = EtatHarpe::new(config(10));
    e.selectionner(8);
    e.basculer_active(2);
    e.apres_ouverture("/tmp/petite.json".to_string(), Ok(config(3)));
    assert_eq!(e.config().cordes.len(), 3);
    assert_eq!(e.corde_selectionnee(), 2);
    assert!(!e.modifie());
    assert_eq!(e.fichier(), Some("/tmp/petite.json"));
    assert_eq!(e.message(), Some("Configuration ouverte : /tmp/petite.json"));
    assert_eq!(
        e.appliquer_action(ActionMenu::Enregistrer),
        Effet::EnregistrerVers("/tmp/petite.harpcfg".to_string())
    );
    e.selectionner(1);
    e.apres_ouverture("/tmp/grande.harpcfg".to_string(), Ok(config(6)));
    assert_eq!(e.corde_selectionnee(), 1);
}

#[test]
fn ouverture_refusee_ou_en_erreur() {
    let mut e = EtatHarpe::new(config(4));
    e.selectionner(3);
    e.apres_ouverture("/tmp/vide.harpcfg".to_string(), Ok(HarpeConfig { cordes: vec![] }));
    assert_eq!(e.config().cordes.len(), 4);
    assert_eq!(e.corde_selectionnee(), 3);
    assert_eq!(e.fichier(), None);
    assert_eq!(
        e.message(),
        Some("Erreur à l'ouverture : La configuration ne contient aucune corde.")
    );
    e.apres_ouverture("/tmp/x".to_string(), Err("introuvable".to_string()));
    assert_eq!(e.message(), Some("Erreur à l'ouverture : introuvable"));
    assert_eq!(e.config().cordes.len(), 4);
}

#[test]
fn cordes_jouables() {
    let mut e = EtatHarpe::new(config(3));
    assert!(e.corde_jouable(0));
    assert!(!e.corde_jouable(3));
    e.basculer_active(0);
    assert!(!e.corde_jouable(0));
    assert!(!e.config().cordes[0].active);
    e.basculer_active(0);
    assert!(e.corde_jouable(0));
}

#[test]
fn reglages_de_la_corde_selectionnee() {
    let mut e = EtatHarpe::new(config(3));
    e.selectionner(1);
    e.definir_forme_onde(FormeOnde::Triangle);
    assert!(!e.modifie());
    assert_eq!(e.corde_selection().reglage.forme_onde, FormeOnde::Triangle);
    e.definir_frequence(r(440.0), "La4".to_string());
    assert!(e.modifie());
    assert_eq!(e.corde_selection().note, "La4");
    assert_eq!(e.corde_selection().frequence, r(440.0));
    e.definir_enveloppe(r(0.5), r(20.0), r(300.0));
    let c = e.corde_selection();
    assert_eq!(c.reglage.volume, r(0.5));
    assert_eq!(c.reglage.attaque_ms, r(20.0));
    assert_eq!(c.reglage.relache_ms, r(300.0));
    assert_eq!(c.reglage.forme_onde, FormeOnde::Triangle);
    e.definir_active(false);
    assert!(!e.corde_selection().active);
    e.definir_couleur([1, 2, 3]);
    assert_eq!(e.corde_selection().couleur, Some([1, 2, 3]));
    e.definir_volume(2, r(0.1));
    assert_eq!(e.config().cordes[2].reglage.volume, r(0.1));
    e.reinitialiser_selection(corde("Do#3", 138.59, true));
    assert_eq!(e.corde_selection(), &corde("Do#3", 138.59, true));
    assert_eq!(e.config().cordes[0], config(3).cordes[0]);
}

#[test]
fn bascules_d_affichage() {
    let mut e = EtatHarpe::new(config(1));
    e.basculer_volumes_lies();
    assert!(e.volumes_lies());
    e.basculer_picker();
    assert!(e.picker_agrandi());
    e.basculer_picker();
    assert!(!e.picker_agrandi());
    assert!(!e.modifie());
    e.definir_theme(Theme::Contraste);
    assert_eq!(e.theme(), Theme::Contraste);
    assert!(e.basculer_panneau());
}

#[test]
fn extension_idempotente() {
    for chemin in ["a/b.json", "a/b", "a/b.HARPCFG", "/", "a/..", "a/b.", ".bashrc", "x/y/", ""] {
        let une = avec_extension(chemin);
        assert_eq!(avec_extension(&une), une);
    }
    assert_eq!(avec_extension("/"), "/");
    assert_eq!(avec_extension(".bashrc"), ".bashrc.harpcfg");
    assert_eq!(avec_extension("a/b."), "a/b.harpcfg");
}

#[test]
fn nouveau_par_la_barre_ou_par_le_menu() {
    let mut par_barre = EtatHarpe::new(config(4));
    let mut par_menu = EtatHarpe::new(config(4));
    for e in [&mut par_barre, &mut par_menu] {
        e.selectionner(2);
        e.basculer_active(1);
        e.definir_theme(Theme::Clair);
    }
    par_barre.nouveau(config(22));
    assert_eq!(par_menu.appliquer_action(ActionMenu::Nouveau), Effet::NouvelleConfiguration);
    par_menu.nouveau(config(22));
    assert_eq!(par_barre.config(), par_menu.config());
    assert_eq!(par_barre.corde_selectionnee(), 0);
    assert_eq!(par_menu.corde_selectionnee(), 0);
    assert_eq!(par_barre.fichier(), par_menu.fichier());
    assert_eq!(par_barre.modifie(), par_menu.modifie());
    assert_eq!(par_barre.message(), par_menu.message());
    assert_eq!(par_menu.theme(), Theme::Clair);
    assert_eq!(par_barre.theme(), par_menu.theme());
    assert_eq!(par_barre.panneau_gauche(), par_menu.panneau_gauche());
}
