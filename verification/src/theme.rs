//! Les thèmes visuels et leurs couleurs.
use vstd::prelude::*;

verus! {

/// Les thèmes visuels proposés par l'application.
#[derive(Debug, Clone, Copy, PartialEq, Eq, Structural)]
pub enum Theme {
    Sombre,
    Clair,
    Contraste,
}

/// Nom affiché d'un thème.
pub open spec fn libelle_theme(t: Theme) -> Seq<char> {
    match t {
        Theme::Sombre => "Sombre"@,
        Theme::Clair => "Clair"@,
        Theme::Contraste => "Contraste"@,
    }
}

impl Theme {
    /// Tous les thèmes, dans l'ordre d'affichage du sélecteur et du menu.
    pub const TOUTES: [Theme; 3] = [Theme::Sombre, Theme::Clair, Theme::Contraste];

    /// Nom affiché du thème.
    pub fn label(&self) -> (r: &'static str)
        ensures
            r@ == libelle_theme(*self),
    {
        match self {
            Theme::Sombre => "Sombre",
            Theme::Clair => "Clair",
            Theme::Contraste => "Contraste",
        }
    }
}

/// Une couleur sRGBA à alpha prémultiplié, comme `egui::Color32` la tient.
#[derive(Debug, Clone, Copy, PartialEq, Eq, Structural)]
pub struct Couleur {
    pub r: u8,
    pub g: u8,
    pub b: u8,
    pub a: u8,
}

/// Couleur opaque de composantes `r`, `g`, `b`.
pub open spec fn opaque(r: u8, g: u8, b: u8) -> Couleur {
    Couleur { r, g, b, a: 255 }
}

/// Produit arrondi `v * a / 255` en virgule fixe, celui qu'egui applique à
/// chaque composante pour prémultiplier l'alpha.
pub open spec fn multiplier_arrondi(v: u8, a: u8) -> u8 {
    let p: int = v * a + 128;
    ((p + p / 256) / 256) as u8
}

/// Couleur d'alpha séparé `(r, g, b, a)` ramenée à l'alpha prémultiplié.
pub open spec fn premultipliee(r: u8, g: u8, b: u8, a: u8) -> Couleur {
    if a == 0 {
        Couleur { r: 0, g: 0, b: 0, a: 0 }
    } else if a == 255 {
        opaque(r, g, b)
    } else {
        Couleur {
            r: multiplier_arrondi(r, a),
            g: multiplier_arrondi(g, a),
            b: multiplier_arrondi(b, a),
            a,
        }
    }
}

impl Couleur {
    /// Couleur opaque, comme `egui::Color32::from_rgb`.
    pub fn rgb(r: u8, g: u8, b: u8) -> (c: Couleur)
        ensures
            c == opaque(r, g, b),
    {
        Couleur { r, g, b, a: 255 }
    }
}

/// Appelle `egui::Color32::from_rgba_unmultiplied` puis `to_array` : la
/// couleur d'alpha séparé `(r, g, b, a)` est prémultipliée. Le contrat
/// reprend le code d'ecolor : transparent pour `a == 0`, opaque pour
/// `a == 255`, sinon chaque composante passe par `mul_frac_round`.
#[verifier::external_body]
fn couleur_non_multipliee(r: u8, g: u8, b: u8, a: u8) -> (c: Couleur)
    ensures
        c == premultipliee(r, g, b, a),
{
    let t = eframe::egui::Color32::from_rgba_unmultiplied(r, g, b, a).to_array();
    Couleur { r: t[0], g: t[1], b: t[2], a: t[3] }
}

/// Couleur d'accent (terracotta) de chaque thème.
pub open spec fn accent_spec(t: Theme) -> Couleur {
    match t {
        Theme::Sombre => opaque(217, 119, 87),
        Theme::Clair => opaque(180, 95, 65),
        Theme::Contraste => opaque(230, 135, 100),
    }
}

/// Couleur d'accent adaptée au thème.
pub fn accent(theme: Theme) -> (c: Couleur)
    ensures
        c == accent_spec(theme),
{
    match theme {
        Theme::Sombre => Couleur::rgb(217, 119, 87),
        Theme::Clair => Couleur::rgb(180, 95, 65),
        Theme::Contraste => Couleur::rgb(230, 135, 100),
    }
}

/// Couleur de fond de l'aperçu d'onde de chaque thème.
pub open spec fn fond_apercu_spec(t: Theme) -> Couleur {
    match t {
        Theme::Sombre => opaque(25, 25, 23),
        Theme::Clair => opaque(240, 238, 230),
        Theme::Contraste => opaque(20, 20, 19),
    }
}

/// Couleur de fond de l'aperçu d'onde, adaptée au thème.
pub fn fond_apercu(theme: Theme) -> (c: Couleur)
    ensures
        c == fond_apercu_spec(theme),
{
    match theme {
        Theme::Sombre => Couleur::rgb(25, 25, 23),
        Theme::Clair => Couleur::rgb(240, 238, 230),
        Theme::Contraste => Couleur::rgb(20, 20, 19),
    }
}

/// Couleur de grille de l'aperçu d'onde de chaque thème (semi-transparente).
pub open spec fn grille_apercu_spec(t: Theme) -> Couleur {
    match t {
        Theme::Sombre | Theme::Contraste => premultipliee(250, 249, 245, 25),
        Theme::Clair => premultipliee(20, 20, 19, 20),
    }
}

/// Couleur de grille pour l'aperçu d'onde (semi-transparente).
pub fn grille_apercu(theme: Theme) -> (c: Couleur)
    ensures
        c == grille_apercu_spec(theme),
{
    match theme {
        Theme::Sombre | Theme::Contraste => couleur_non_multipliee(250, 249, 245, 25),
        Theme::Clair => couleur_non_multipliee(20, 20, 19, 20),
    }
}

/// Les couleurs de fond et de texte qu'un thème donne à l'interface.
#[derive(Debug, Clone, Copy, PartialEq, Eq, Structural)]
pub struct Palette {
    /// Vrai si le thème part des visuels sombres d'egui, faux s'il part
    /// des visuels clairs.
    pub base_sombre: bool,
    pub fond_panneau: Couleur,
    pub fond_fenetre: Couleur,
    /// Couleur du texte des éléments non interactifs.
    pub texte: Couleur,
    /// Couleur des bordures des éléments non interactifs.
    pub bordure: Couleur,
}

/// La palette de chaque thème.
pub open spec fn palette_spec(t: Theme) -> Palette {
    match t {
        Theme::Sombre => Palette {
            base_sombre: true,
            fond_panneau: opaque(30, 30, 28),
            fond_fenetre: opaque(20, 20, 19),
            texte: opaque(176, 174, 165),
            bordure: opaque(94, 93, 89),
        },
        Theme::Clair => Palette {
            base_sombre: false,
            fond_panneau: opaque(250, 249, 245),
            fond_fenetre: opaque(240, 238, 230),
            texte: opaque(61, 61, 58),
            bordure: opaque(232, 230, 220),
        },
        Theme::Contraste => Palette {
            base_sombre: true,
            fond_panneau: opaque(20, 20, 19),
            fond_fenetre: opaque(30, 30, 28),
            texte: opaque(250, 249, 245),
            bordure: opaque(94, 93, 89),
        },
    }
}

/// Les couleurs de fond et de texte que le thème applique à l'interface.
pub fn palette(theme: Theme) -> (p: Palette)
    ensures
        p == palette_spec(theme),
{
    match theme {
        Theme::Sombre => Palette {
            base_sombre: true,
            fond_panneau: Couleur::rgb(30, 30, 28),
            fond_fenetre: Couleur::rgb(20, 20, 19),
            texte: Couleur::rgb(176, 174, 165),
            bordure: Couleur::rgb(94, 93, 89),
        },
        Theme::Clair => Palette {
            base_sombre: false,
            fond_panneau: Couleur::rgb(250, 249, 245),
            fond_fenetre: Couleur::rgb(240, 238, 230),
            texte: Couleur::rgb(61, 61, 58),
            bordure: Couleur::rgb(232, 230, 220),
        },
        Theme::Contraste => Palette {
            base_sombre: true,
            fond_panneau: Couleur::rgb(20, 20, 19),
            fond_fenetre: Couleur::rgb(30, 30, 28),
            texte: Couleur::rgb(250, 249, 245),
            bordure: Couleur::rgb(94, 93, 89),
        },
    }
}

} // verus!
