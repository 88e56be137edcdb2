# Harpe sans corde

Application de réglage des cordes d'une harpe laser : chaque corde a une note,
une fréquence, un timbre, une enveloppe, une couleur et peut être activée ou
non ; la configuration s'enregistre en JSON (`.harpcfg`).

- `src/` — la bibliothèque `harpe`, vérifiée avec Verus :
  - `modele` : formes d'onde, réglages, cordes, configuration, nom des notes ;
  - `application` : l'état de l'application et ses transitions (sélection,
    réglages, fichier courant, marque « modifié », messages, thème,
    disposition), avec les effets que l'appelant exécute ;
  - `menus` : actions de menu, leur file d'attente, description de la barre
    de menus native, décision à chaque clic et raccourcis ;
  - `config` : extension des fichiers et acceptation d'une configuration lue ;
  - `theme` : couleurs des thèmes ; `pipette` : couleur prélevée en attente ;
  - `audio` : choix des notes d'un arpège ; `texte` : outils de texte.
- `app/` — le programme egui : dessin, dialogues de fichiers, lecture et
  écriture JSON, synthèse sonore (rodio), menus natifs macOS, et tous les
  calculs en virgule flottante (fréquences, timbres, couleurs automatiques).
- `tests/` — tests de la bibliothèque.

Les réels simple précision (fréquence, volume, attaque, relâche) traversent la
bibliothèque sous forme de motif binaire (`Reel32`) : elle ne calcule pas
dessus.
