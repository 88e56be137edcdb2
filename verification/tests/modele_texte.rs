use harpe::modele::{nom_de_note, nom_note_demi_tons, FormeOnde, NOMBRE_CORDES};
use harpe::texte::{concatener, ecrire_entier, egal_sans_casse_ascii};

#[test]
fn labels_des_formes_d_onde() {
    assert_eq!(FormeOnde::Sinus.label(), "Sinus");
    assert_eq!(FormeOnde::Carre.label(), "Carré");
    assert_eq!(FormeOnde::DentDeScie.label(), "Dent de scie");
    assert_eq!(FormeOnde::Triangle.label(), "Triangle");
}

#[test]
fn toutes_les_formes_dans_l_ordre() {
    assert_eq!(
        FormeOnde::toutes(),
        [FormeOnde::Sinus, FormeOnde::Carre, FormeOnde::DentDeScie, FormeOnde::Triangle]
    );
}

#[test]
fn forme_par_defaut_sinus() {
    assert_eq!(FormeOnde::default(), FormeOnde::Sinus);
}

#[test]
fn nombre_de_cordes() {
    assert_eq!(NOMBRE_CORDES, 22);
}

#[test]
fn noms_de_notes_dans_l_octave() {
    let attendus = ["Do", "Do#", "Ré", "Ré#", "Mi", "Fa", "Fa#", "Sol", "Sol#", "La", "La#", "Si"];
    for (i, nom) in attendus.iter().enumerate() {
        assert_eq!(nom_de_note(i), *nom);
    }
}

#[test]
fn nom_note_exemples_de_la_documentation() {
    assert_eq!(nom_note_demi_tons(9), "La4");
    assert_eq!(nom_note_demi_tons(-6), "Fa#3");
}

#[test]
fn nom_note_autour_de_do4() {
    assert_eq!(nom_note_demi_tons(0), "Do4");
    assert_eq!(nom_note_demi_tons(-1), "Si3");
    assert_eq!(nom_note_demi_tons(-12), "Do3");
    assert_eq!(nom_note_demi_tons(-13), "Si2");
    assert_eq!(nom_note_demi_tons(11), "Si4");
    assert_eq!(nom_note_demi_tons(14), "Ré5");
}

#[test]
fn nom_note_octave_suivante() {
    for d in -40..40 {
        let a = nom_note_demi_tons(d);
        let b = nom_note_demi_tons(d + 12);
        let nom_a: String = a.chars().filter(|c| !c.is_ascii_digit() && *c != '-').collect();
        let nom_b: String = b.chars().filter(|c| !c.is_ascii_digit() && *c != '-').collect();
        assert_eq!(nom_a, nom_b);
        let oct_a: i32 = a[nom_a.len()..].parse().unwrap();
        let oct_b: i32 = b[nom_b.len()..].parse().unwrap();
        assert_eq!(oct_b, oct_a + 1);
    }
}

#[test]
fn nom_note_octaves_negatives_et_extremes() {
    assert_eq!(nom_note_demi_tons(-60), "Do-1");
    assert_eq!(nom_note_demi_tons(i32::MIN), format!("{}{}", ["Do", "Do#", "Ré", "Ré#", "Mi", "Fa", "Fa#", "Sol", "Sol#", "La", "La#", "Si"][i32::MIN.rem_euclid(12) as usize], 4 + i32::MIN.div_euclid(12)));
    assert_eq!(nom_note_demi_tons(i32::MAX), format!("{}{}", ["Do", "Do#", "Ré", "Ré#", "Mi", "Fa", "Fa#", "Sol", "Sol#", "La", "La#", "Si"][i32::MAX.rem_euclid(12) as usize], 4 + i32::MAX.div_euclid(12)));
}

#[test]
fn ecriture_decimale() {
    assert_eq!(ecrire_entier(0), "0");
    assert_eq!(ecrire_entier(7), "7");
    assert_eq!(ecrire_entier(10), "10");
    assert_eq!(ecrire_entier(-123), "-123");
    assert_eq!(ecrire_entier(i32::MAX), "2147483647");
    assert_eq!(ecrire_entier(i32::MIN), "-2147483648");
    for n in -1000..1000 {
        assert_eq!(ecrire_entier(n), n.to_string());
    }
}

#[test]
fn egalite_sans_casse() {
    assert!(egal_sans_casse_ascii("HarpCFG", "harpcfg"));
    assert!(egal_sans_casse_ascii("", ""));
    assert!(!egal_sans_casse_ascii("harpcfg", "harpcf"));
    assert!(!egal_sans_casse_ascii("json", "harp"));
    assert!(!egal_sans_casse_ascii("é", "É"));
    assert!(egal_sans_casse_ascii("ÉTé", "Été"));
    assert!(!egal_sans_casse_ascii("Été", "été"));
    for (a, b) in [("aB", "Ab"), ("@[", "`{"), ("Z", "z"), ("é", "É")] {
        assert_eq!(egal_sans_casse_ascii(a, b), a.eq_ignore_ascii_case(b));
    }
}

#[test]
fn concatenation() {
    assert_eq!(concatener("Do", "4"), "Do4");
    assert_eq!(concatener("", ""), "");
}
