//! Numeración de documentos: folios `V-AAAAMMDD-NNNN` de venta y
//! `DEV-AAAAMMDD-NNNN` de devolución, una serie por tipo y por día.
use vstd::prelude::*;
use crate::fecha::{Fecha, fecha_compacta};
use crate::texto::{
    anexar_decimal_con_ceros, decimal_con_ceros, es_digito, lema_decimal_con_ceros, solo_digitos,
    valor_decimal, vistas,
};

verus! {

/// El tipo de documento al que se le asigna folio.
#[derive(Clone, Copy, Debug, PartialEq, Eq, Structural)]
pub enum TipoDocumento {
    Venta,
    Devolucion,
}

/// Las letras con que empieza el folio de cada tipo.
pub open spec fn letras_tipo(t: TipoDocumento) -> Seq<char> {
    match t {
        TipoDocumento::Venta => seq!['V'],
        TipoDocumento::Devolucion => seq!['D', 'E', 'V'],
    }
}

/// Lo que comparten todos los folios de un tipo en un día: `V-AAAAMMDD-`.
pub open spec fn prefijo_del_dia(t: TipoDocumento, f: Fecha) -> Seq<char> {
    letras_tipo(t) + seq!['-'] + fecha_compacta(f) + seq!['-']
}

/// El folio número `n` de la serie que empieza con `pre`: al menos cuatro cifras.
pub open spec fn folio_numero(pre: Seq<char>, n: nat) -> Seq<char> {
    pre + decimal_con_ceros(n, 4)
}

/// El número que lleva el folio `f` en la serie de `pre`, si pertenece a ella:
/// `f` empieza con `pre` y sigue con una o más cifras y nada más.
pub open spec fn valor_sufijo(f: Seq<char>, pre: Seq<char>) -> Option<nat> {
    if pre.len() < f.len() && f.subrange(0, pre.len() as int) == pre && solo_digitos(
        f.subrange(pre.len() as int, f.len() as int),
    ) {
        Some(valor_decimal(f.subrange(pre.len() as int, f.len() as int)))
    } else {
        None
    }
}

/// El mayor número de la serie `pre` entre los folios `fs`; cero si no hay ninguno.
pub open spec fn maximo_sufijo(fs: Seq<Seq<char>>, pre: Seq<char>) -> nat
    decreases fs.len(),
{
    if fs.len() == 0 {
        0
    } else {
        let m = maximo_sufijo(fs.drop_last(), pre);
        match valor_sufijo(fs.last(), pre) {
            Some(v) => if v > m {
                v
            } else {
                m
            },
            None => m,
        }
    }
}

/// Si ninguna cadena de `fs` se repite.
pub open spec fn sin_repetidos(fs: Seq<Seq<char>>) -> bool {
    forall|i: int, j: int| 0 <= i < j < fs.len() ==> fs[i] != fs[j]
}

/// Lo que se lee al final de un folio.
#[derive(Clone, Copy, Debug, PartialEq, Eq, Structural)]
pub enum Sufijo {
    /// El folio no es de la serie.
    Ajeno,
    /// El folio es de la serie y lleva este número.
    Numero(u64),
    /// El folio es de la serie y su número no cabe en `u64`.
    Excesivo,
}

/// Las letras del tipo, como cadena.
fn letras(t: TipoDocumento) -> (r: &'static str)
    ensures
        r@ == letras_tipo(t),
{
    proof {
        reveal_strlit("V");
        reveal_strlit("DEV");
    }
    match t {
        TipoDocumento::Venta => "V",
        TipoDocumento::Devolucion => "DEV",
    }
}

/// El prefijo común de los folios de un tipo en un día, `V-AAAAMMDD-`.
pub fn prefijo_folio(tipo: TipoDocumento, fecha: &Fecha) -> (r: String)
    ensures
        r@ == prefijo_del_dia(tipo, *fecha),
{
    proof {
        reveal_strlit("-");
    }
    let mut s = String::from_str(letras(tipo));
    s.append("-");
    fecha.anexar_compacta(&mut s);
    s.append("-");
    assert(s@ =~= prefijo_del_dia(tipo, *fecha));
    s
}

/// Lee el número de `folio` en la serie que empieza con `prefijo`.
pub fn leer_sufijo(folio: &String, prefijo: &String) -> (r: Sufijo)
    ensures
        valor_sufijo(folio@, prefijo@) is None <==> r == Sufijo::Ajeno,
        r matches Sufijo::Numero(v) ==> valor_sufijo(folio@, prefijo@) == Some(v as nat),
        r == Sufijo::Excesivo ==> (valor_sufijo(folio@, prefijo@) is Some && valor_sufijo(
            folio@,
            prefijo@,
        )->0 > u64::MAX),
        (valor_sufijo(folio@, prefijo@) is Some && valor_sufijo(folio@, prefijo@)->0 <= u64::MAX)
            ==> r == Sufijo::Numero(valor_sufijo(folio@, prefijo@)->0 as u64),
{
    let f = folio.as_str();
    let p = prefijo.as_str();
    let lf = f.unicode_len();
    let lp = p.unicode_len();
    if lp >= lf {
        return Sufijo::Ajeno;
    }
    let mut i: usize = 0;
    while i < lp
        invariant
            lp < lf,
            lf == folio@.len(),
            lp == prefijo@.len(),
            f@ == folio@,
            p@ == prefijo@,
            i <= lp,
            folio@.subrange(0, i as int) == prefijo@.subrange(0, i as int),
        decreases lp - i,
    {
        if f.get_char(i) != p.get_char(i) {
            assert(folio@.subrange(0, lp as int)[i as int] != prefijo@[i as int]);
            return Sufijo::Ajeno;
        }
        assert(folio@.subrange(0, i + 1) =~= folio@.subrange(0, i as int).push(folio@[i as int]));
        assert(prefijo@.subrange(0, i + 1) =~= prefijo@.subrange(0, i as int).push(
            prefijo@[i as int],
        ));
        i = i + 1;
    }
    assert(prefijo@.subrange(0, lp as int) =~= prefijo@);
    let ghost resto = folio@.subrange(lp as int, lf as int);
    let mut valor: u64 = 0;
    let mut excede = false;
    let mut j: usize = lp;
    while j < lf
        invariant
            lp < lf,
            lf == folio@.len(),
            lp == prefijo@.len(),
            f@ == folio@,
            folio@.subrange(0, lp as int) == prefijo@,
            resto == folio@.subrange(lp as int, lf as int),
            lp <= j <= lf,
            solo_digitos(resto.subrange(0, j - lp)),
            !excede ==> valor as nat == valor_decimal(resto.subrange(0, j - lp)),
            excede ==> valor_decimal(resto.subrange(0, j - lp)) > u64::MAX,
        decreases lf - j,
    {
        let c = f.get_char(j);
        let ghost antes = resto.subrange(0, j - lp);
        let ghost ahora = resto.subrange(0, j + 1 - lp);
        assert(ahora.drop_last() =~= antes);
        assert(ahora.last() == c);
        if !('0' <= c && c <= '9') {
            assert(!solo_digitos(resto)) by {
                assert(resto[j - lp] == c);
            }
            return Sufijo::Ajeno;
        }
        let d = (c as u32 - '0' as u32) as u64;
        assert(valor_decimal(ahora) == valor_decimal(antes) * 10 + d);
        if !excede {
            if valor > (u64::MAX - d) / 10 {
                excede = true;
                assert(valor * 10 + d > u64::MAX) by (nonlinear_arith)
                    requires
                        valor > (u64::MAX - d) / 10,
                        d < 10,
                ;
            } else {
                assert(valor * 10 + d <= u64::MAX) by (nonlinear_arith)
                    requires
                        valor <= (u64::MAX - d) / 10,
                        d < 10,
                ;
                valor = valor * 10 + d;
            }
        }
        assert forall|k: int| 0 <= k < ahora.len() implies es_digito(#[trigger] ahora[k]) by {
            if k < antes.len() {
                assert(ahora[k] == antes[k]);
            }
        }
        j = j + 1;
    }
    assert(resto.subrange(0, lf - lp) =~= resto);
    if excede {
        Sufijo::Excesivo
    } else {
        Sufijo::Numero(valor)
    }
}

/// El folio que sigue en la serie `pre` después de los folios `fs`;
/// `None` cuando su número no cabe en `u64`.
pub open spec fn folio_siguiente(fs: Seq<Seq<char>>, pre: Seq<char>) -> Option<Seq<char>> {
    if maximo_sufijo(fs, pre) < u64::MAX {
        Some(folio_numero(pre, maximo_sufijo(fs, pre) + 1))
    } else {
        None
    }
}

/// Los folios tras asignar `n` folios más de la serie `pre`, uno tras otro,
/// cada uno calculado sobre los que ya existen.
pub open spec fn folios_tras(fs: Seq<Seq<char>>, pre: Seq<char>, n: nat) -> Seq<Seq<char>>
    decreases n,
{
    if n == 0 {
        fs
    } else {
        let antes = folios_tras(fs, pre, (n - 1) as nat);
        match folio_siguiente(antes, pre) {
            Some(f) => antes.push(f),
            None => antes,
        }
    }
}

/// El máximo de la serie no es menor que el número de ningún folio de ella.
proof fn lema_maximo_cota(fs: Seq<Seq<char>>, pre: Seq<char>, k: int)
    requires
        0 <= k < fs.len(),
        valor_sufijo(fs[k], pre) is Some,
    ensures
        valor_sufijo(fs[k], pre)->0 <= maximo_sufijo(fs, pre),
    decreases fs.len(),
{
    if k < fs.len() - 1 {
        lema_maximo_cota(fs.drop_last(), pre, k);
    }
}

/// El folio número `n` de la serie lleva el número `n`.
proof fn lema_sufijo_de_folio(pre: Seq<char>, n: nat)
    ensures
        valor_sufijo(folio_numero(pre, n), pre) == Some(n),
{
    let f = folio_numero(pre, n);
    lema_decimal_con_ceros(n, 4);
    assert(f.subrange(0, pre.len() as int) =~= pre);
    assert(f.subrange(pre.len() as int, f.len() as int) =~= decimal_con_ceros(n, 4));
}

/// Un folio asignado es distinto de todos los que ya existían.
pub proof fn ley_folio_nuevo_distinto(fs: Seq<Seq<char>>, pre: Seq<char>)
    requires
        folio_siguiente(fs, pre) is Some,
    ensures
        forall|j: int| 0 <= j < fs.len() ==> fs[j] != folio_siguiente(fs, pre)->0,
{
    let n = maximo_sufijo(fs, pre) + 1;
    lema_sufijo_de_folio(pre, n);
    assert forall|j: int| 0 <= j < fs.len() implies fs[j] != folio_siguiente(fs, pre)->0 by {
        if fs[j] == folio_numero(pre, n) {
            lema_maximo_cota(fs, pre, j);
        }
    }
}

/// Asignar folios uno tras otro, por muchos que sean, nunca repite uno:
/// si los folios existentes no se repiten, tampoco los de después.
pub proof fn ley_folios_sin_repetidos(fs: Seq<Seq<char>>, pre: Seq<char>, n: nat)
    requires
        sin_repetidos(fs),
    ensures
        sin_repetidos(folios_tras(fs, pre, n)),
        folios_tras(fs, pre, n).len() <= fs.len() + n,
    decreases n,
{
    if n > 0 {
        let antes = folios_tras(fs, pre, (n - 1) as nat);
        ley_folios_sin_repetidos(fs, pre, (n - 1) as nat);
        if folio_siguiente(antes, pre) is Some {
            ley_folio_nuevo_distinto(antes, pre);
            let despues = antes.push(folio_siguiente(antes, pre)->0);
            assert forall|i: int, j: int| 0 <= i < j < despues.len() implies despues[i]
                != despues[j] by {
                if j == despues.len() - 1 {
                    assert(despues[i] == antes[i]);
                } else {
                    assert(despues[i] == antes[i] && despues[j] == antes[j]);
                }
            }
        }
    }
}

/// El número que sigue en la serie `prefijo`: uno más que el mayor número de
/// los folios `existentes` de esa serie, o 1 si no hay ninguno.
/// `None` cuando ese número no cabe en `u64`.
pub fn siguiente_numero(existentes: &Vec<String>, prefijo: &String) -> (r: Option<u64>)
    ensures
        maximo_sufijo(vistas(existentes@), prefijo@) < u64::MAX ==> r == Some(
            (maximo_sufijo(vistas(existentes@), prefijo@) + 1) as u64,
        ),
        maximo_sufijo(vistas(existentes@), prefijo@) >= u64::MAX ==> r is None,
{
    let mut maximo: u64 = 0;
    let mut i: usize = 0;
    while i < existentes.len()
        invariant
            i <= existentes.len(),
            maximo as nat == maximo_sufijo(vistas(existentes@.subrange(0, i as int)), prefijo@),
        decreases existentes.len() - i,
    {
        let ghost previas = vistas(existentes@.subrange(0, i as int));
        let ghost con_esta = vistas(existentes@.subrange(0, i + 1));
        assert(con_esta.drop_last() =~= previas);
        assert(con_esta.last() == existentes@[i as int]@);
        match leer_sufijo(&existentes[i], prefijo) {
            Sufijo::Ajeno => {},
            Sufijo::Numero(v) => {
                if v > maximo {
                    maximo = v;
                }
            },
            Sufijo::Excesivo => {
                proof {
                    let todas = vistas(existentes@);
                    assert(todas[i as int] == existentes@[i as int]@);
                    lema_maximo_cota(todas, prefijo@, i as int);
                }
                return None;
            },
        }
        i = i + 1;
    }
    assert(existentes@.subrange(0, existentes@.len() as int) =~= existentes@);
    if maximo == u64::MAX {
        None
    } else {
        Some(maximo + 1)
    }
}

/// El folio siguiente de `tipo` en el día `fecha`, a la vista de los folios
/// `existentes`: `V-AAAAMMDD-NNNN` con el número que sigue al mayor de ese día,
/// en al menos cuatro cifras. `None` cuando ese número no cabe en `u64`.
pub fn siguiente_folio(tipo: TipoDocumento, fecha: &Fecha, existentes: &Vec<String>) -> (r:
    Option<String>)
    ensures
        r is Some == folio_siguiente(vistas(existentes@), prefijo_del_dia(tipo, *fecha)) is Some,
        r is Some ==> r->0@ == folio_siguiente(vistas(existentes@), prefijo_del_dia(tipo, *fecha))->0,
{
    let mut s = prefijo_folio(tipo, fecha);
    match siguiente_numero(existentes, &s) {
        None => None,
        Some(n) => {
            anexar_decimal_con_ceros(&mut s, n, 4);
            Some(s)
        },
    }
}

} // verus!
