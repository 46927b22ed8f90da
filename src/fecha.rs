//! Fechas de calendario y su forma compacta `AAAAMMDD`.
use vstd::prelude::*;
use crate::texto::{anexar_decimal_con_ceros, decimal_con_ceros};

verus! {

/// Un día del calendario.
#[derive(Clone, Copy, Debug, PartialEq, Eq, Structural)]
pub struct Fecha {
    pub anio: u16,
    pub mes: u8,
    pub dia: u8,
}

/// La forma compacta de la fecha: año en cuatro cifras, mes y día en dos.
pub open spec fn fecha_compacta(f: Fecha) -> Seq<char> {
    decimal_con_ceros(f.anio as nat, 4) + decimal_con_ceros(f.mes as nat, 2) + decimal_con_ceros(
        f.dia as nat,
        2,
    )
}

impl Fecha {
    /// Añade a `s` la forma compacta `AAAAMMDD` de la fecha.
    pub fn anexar_compacta(&self, s: &mut String)
        ensures
            final(s)@ == old(s)@ + fecha_compacta(*self),
    {
        let ghost inicio = s@;
        anexar_decimal_con_ceros(s, self.anio as u64, 4);
        anexar_decimal_con_ceros(s, self.mes as u64, 2);
        anexar_decimal_con_ceros(s, self.dia as u64, 2);
        assert(s@ =~= inicio + fecha_compacta(*self));
    }

    /// La forma compacta `AAAAMMDD` de la fecha.
    pub fn compacta(&self) -> (r: String)
        ensures
            r@ == fecha_compacta(*self),
    {
        let mut s = String::new();
        self.anexar_compacta(&mut s);
        assert(s@ =~= fecha_compacta(*self));
        s
    }
}

} // verus!
