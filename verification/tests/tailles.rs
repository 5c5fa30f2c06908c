use macgyver::utilitaires::fichiers::formater_taille_fichier;

/// The same text, computed in double precision.
fn en_virgule_flottante(taille_bytes: u64) -> String {
    let unites = ["B", "KB", "MB", "GB", "TB"];
    if taille_bytes == 0 {
        return "0 B".to_string();
    }
    let mut taille = taille_bytes as f64;
    let mut indice = 0;
    while taille >= 1024.0 && indice < unites.len() - 1 {
        taille /= 1024.0;
        indice += 1;
    }
    if indice == 0 {
        format!("{} {}", taille_bytes, unites[indice])
    } else {
        format!("{:.1} {}", taille, unites[indice])
    }
}

#[test]
fn tailles_en_octets() {
    assert_eq!(formater_taille_fichier(0), "0 B");
    assert_eq!(formater_taille_fichier(1), "1 B");
    assert_eq!(formater_taille_fichier(1023), "1023 B");
}

#[test]
fn tailles_avec_une_decimale() {
    assert_eq!(formater_taille_fichier(1024), "1.0 KB");
    assert_eq!(formater_taille_fichier(1536), "1.5 KB");
    assert_eq!(formater_taille_fichier(1024 * 1024), "1.0 MB");
    assert_eq!(formater_taille_fichier(5 * 1024 * 1024 + 512 * 1024), "5.5 MB");
    assert_eq!(formater_taille_fichier(1024 * 1024 * 1024), "1.0 GB");
    assert_eq!(formater_taille_fichier(1024u64.pow(4)), "1.0 TB");
    assert_eq!(formater_taille_fichier(1024u64.pow(5)), "1024.0 TB");
    assert_eq!(formater_taille_fichier(u64::MAX), "16777216.0 TB");
}

#[test]
fn tailles_juste_sous_une_unite() {
    assert_eq!(formater_taille_fichier(1024 * 1024 - 1), "1024.0 KB");
    assert_eq!(formater_taille_fichier(1024 * 1024 * 1024 - 1), "1024.0 MB");
}

#[test]
fn tailles_a_mi_chemin() {
    // 1280 octets font 1.25 KB : le dixième pair l'emporte.
    assert_eq!(formater_taille_fichier(1280), "1.2 KB");
    // 1382.4 n'est pas entier ; 1408 octets font 1.375 KB.
    assert_eq!(formater_taille_fichier(1408), "1.4 KB");
    // 1792 octets font 1.75 KB.
    assert_eq!(formater_taille_fichier(1792), "1.8 KB");
}

#[test]
fn tailles_comme_en_virgule_flottante() {
    let mut taille: u64 = 0;
    let mut pas: u64 = 1;
    let mut essais = 0;
    while essais < 200_000 {
        assert_eq!(formater_taille_fichier(taille), en_virgule_flottante(taille), "{}", taille);
        let suivante = taille.wrapping_add(pas);
        if suivante < taille {
            break;
        }
        taille = suivante;
        pas = pas + pas / 7 + 1;
        essais += 1;
    }
}

#[test]
fn tailles_aux_bornes_comme_en_virgule_flottante() {
    let mut bornes: Vec<u64> = Vec::new();
    for exposant in 0..64u32 {
        let puissance = 1u64 << exposant;
        for ecart in 0..40u64 {
            bornes.push(puissance.wrapping_add(ecart));
            bornes.push(puissance.wrapping_sub(ecart));
            bornes.push(puissance.wrapping_add(ecart * 1021));
            bornes.push((puissance / 10).wrapping_mul(ecart + 1));
        }
    }
    for ecart in 0..5000u64 {
        bornes.push(u64::MAX - ecart);
        bornes.push((1u64 << 53) + ecart);
        bornes.push((1u64 << 53) - ecart);
        bornes.push(1280 + 1024 * ecart);
        bornes.push((1u64 << 60) + 127 * ecart);
    }
    for taille in bornes {
        assert_eq!(formater_taille_fichier(taille), en_virgule_flottante(taille), "{}", taille);
    }
}
