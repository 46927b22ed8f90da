//! Dónde vive el archivo de la base de datos en cada sistema operativo.
use vstd::prelude::*;
use crate::texto::vistas;

verus! {

/// El sistema operativo para el que se arma la ruta.
#[derive(Clone, Copy, Debug, PartialEq, Eq, Structural)]
pub enum SistemaOperativo {
    Windows,
    MacOs,
    /// Linux y los demás.
    Otro,
}

/// El directorio dado, o el actual si no lo hay.
pub open spec fn o_actual(d: Option<String>) -> Seq<char> {
    match d {
        Some(s) => s@,
        None => "."@,
    }
}

/// Los componentes de la ruta del archivo de la base de datos, del directorio
/// base al nombre del archivo.
pub open spec fn componentes_ruta(
    so: SistemaOperativo,
    appdata: Option<String>,
    userprofile: Option<String>,
    home: Option<String>,
) -> Seq<Seq<char>> {
    match so {
        SistemaOperativo::Windows => match appdata {
            Some(a) => seq![a@, "Sistema POS Ropa"@, "tienda.db"@],
            None => seq![
                o_actual(userprofile),
                "AppData"@,
                "Roaming"@,
                "Sistema POS Ropa"@,
                "tienda.db"@,
            ],
        },
        SistemaOperativo::MacOs => seq![
            o_actual(home),
            "Library"@,
            "Application Support"@,
            "Sistema POS Ropa"@,
            "tienda.db"@,
        ],
        SistemaOperativo::Otro => seq![
            o_actual(home),
            ".local"@,
            "share"@,
            "sistema-pos-ropa"@,
            "tienda.db"@,
        ],
    }
}

fn texto(s: &str) -> (r: String)
    ensures
        r@ == s@,
{
    String::from_str(s)
}

fn o_directorio_actual(d: Option<String>) -> (r: String)
    ensures
        r@ == o_actual(d),
{
    match d {
        Some(s) => s,
        None => texto("."),
    }
}

/// La ruta del archivo de la base de datos, componente por componente: en
/// Windows bajo `APPDATA` (o `USERPROFILE\\AppData\\Roaming`), en macOS bajo
/// `HOME/Library/Application Support`, y en los demás bajo
/// `HOME/.local/share`; sin la variable, desde el directorio actual.
pub fn default_database_path(
    so: SistemaOperativo,
    appdata: Option<String>,
    userprofile: Option<String>,
    home: Option<String>,
) -> (r: Vec<String>)
    ensures
        vistas(r@) == componentes_ruta(so, appdata, userprofile, home),
{
    let ghost esperado = componentes_ruta(so, appdata, userprofile, home);
    let mut r: Vec<String> = Vec::new();
    match so {
        SistemaOperativo::Windows => match appdata {
            Some(a) => {
                r.push(a);
                r.push(texto("Sistema POS Ropa"));
            },
            None => {
                r.push(o_directorio_actual(userprofile));
                r.push(texto("AppData"));
                r.push(texto("Roaming"));
                r.push(texto("Sistema POS Ropa"));
            },
        },
        SistemaOperativo::MacOs => {
            r.push(o_directorio_actual(home));
            r.push(texto("Library"));
            r.push(texto("Application Support"));
            r.push(texto("Sistema POS Ropa"));
        },
        SistemaOperativo::Otro => {
            r.push(o_directorio_actual(home));
            r.push(texto(".local"));
            r.push(texto("share"));
            r.push(texto("sistema-pos-ropa"));
        },
    }
    r.push(texto("tienda.db"));
    assert(vistas(r@) =~= esperado);
    r
}

} // verus!
