use sistema_pos::modelos::Usuario;
use sistema_pos::ruta::{default_database_path, SistemaOperativo};

#[test]
fn ruta_en_linux() {
    let r = default_database_path(SistemaOperativo::Otro, None, None, Some("/home/ana".to_string()));
    assert_eq!(r, vec!["/home/ana", ".local", "share", "sistema-pos-ropa", "tienda.db"]);
    let r = default_database_path(SistemaOperativo::Otro, None, None, None);
    assert_eq!(r, vec![".", ".local", "share", "sistema-pos-ropa", "tienda.db"]);
}

#[test]
fn ruta_en_windows() {
    let r = default_database_path(SistemaOperativo::Windows, Some("C:\\AD".to_string()), Some("C:\\U".to_string()), None);
    assert_eq!(r, vec!["C:\\AD", "Sistema POS Ropa", "tienda.db"]);
    let r = default_database_path(SistemaOperativo::Windows, None, Some("C:\\U".to_string()), None);
    assert_eq!(r, vec!["C:\\U", "AppData", "Roaming", "Sistema POS Ropa", "tienda.db"]);
}

#[test]
fn ruta_en_macos() {
    let r = default_database_path(SistemaOperativo::MacOs, None, None, Some("/Users/b".to_string()));
    assert_eq!(r, vec!["/Users/b", "Library", "Application Support", "Sistema POS Ropa", "tienda.db"]);
}

#[test]
fn usuario_nuevo() {
    let u = Usuario::new(3, "ana".to_string(), "Ana Pérez".to_string(), None, 2, true);
    assert_eq!(u.id, 3);
    assert_eq!(u.username, "ana");
    assert_eq!(u.nombre_completo, "Ana Pérez");
    assert_eq!(u.rol_id, 2);
    assert!(u.activo);
}
