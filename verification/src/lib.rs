//! Harpe sans corde : le modèle et les règles de l'application de réglage
//! des cordes, vérifiés.
pub mod application;
pub mod audio;
pub mod config;
pub mod menus;
pub mod modele;
pub mod pipette;
pub mod texte;
pub mod theme;
