//! Usuarios del punto de venta, tal como los ve quien inicia sesión.
use vstd::prelude::*;

verus! {

/// Un usuario del sistema.
#[derive(Clone, Debug, PartialEq, Eq)]
pub struct Usuario {
    pub id: i32,
    pub username: String,
    pub nombre_completo: String,
    pub email: Option<String>,
    pub rol_id: i32,
    pub activo: bool,
}

/// Las credenciales con que se inicia sesión.
#[derive(Clone, Debug, PartialEq, Eq)]
pub struct UsuarioLogin {
    pub username: String,
    pub password: String,
}

/// La respuesta a un inicio de sesión.
#[derive(Clone, Debug, PartialEq, Eq)]
pub struct UsuarioResponse {
    pub success: bool,
    pub message: String,
    pub usuario: Option<Usuario>,
}

impl Usuario {
    pub fn new(
        id: i32,
        username: String,
        nombre_completo: String,
        email: Option<String>,
        rol_id: i32,
        activo: bool,
    ) -> (r: Usuario)
        ensures
            r == (Usuario { id, username, nombre_completo, email, rol_id, activo }),
    {
        Usuario { id, username, nombre_completo, email, rol_id, activo }
    }
}

} // verus!
