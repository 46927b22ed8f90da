//! Dígitos decimales: su lectura y su escritura en cadenas.
use vstd::prelude::*;

verus! {

/// Las cadenas de una lista.
pub open spec fn vistas(v: Seq<String>) -> Seq<Seq<char>> {
    v.map_values(|s: String| s@)
}

/// El carácter del dígito decimal `d`.
pub open spec fn digito(d: int) -> char {
    seq!['0', '1', '2', '3', '4', '5', '6', '7', '8', '9'][d]
}

/// Si `c` es un dígito decimal ASCII.
pub open spec fn es_digito(c: char) -> bool {
    '0' <= c && c <= '9'
}

/// El valor de un dígito decimal ASCII.
pub open spec fn valor_digito(c: char) -> int {
    c as int - '0' as int
}

/// Si todos los caracteres de `s` son dígitos.
pub open spec fn solo_digitos(s: Seq<char>) -> bool {
    forall|i: int| 0 <= i < s.len() ==> es_digito(#[trigger] s[i])
}

/// El número que escriben los dígitos de `s`, en base diez.
pub open spec fn valor_decimal(s: Seq<char>) -> nat
    decreases s.len(),
{
    if s.len() == 0 {
        0
    } else {
        (valor_decimal(s.drop_last()) * 10 + valor_digito(s.last())) as nat
    }
}

/// La escritura decimal de `n`, sin ceros a la izquierda.
pub open spec fn decimal(n: nat) -> Seq<char>
    decreases n,
{
    if n < 10 {
        seq![digito(n as int)]
    } else {
        decimal(n / 10).push(digito((n % 10) as int))
    }
}

/// La escritura decimal de `n` con ceros a la izquierda hasta `ancho` caracteres.
pub open spec fn decimal_con_ceros(n: nat, ancho: nat) -> Seq<char> {
    let d = decimal(n);
    if d.len() < ancho {
        Seq::new((ancho - d.len()) as nat, |_i: int| '0') + d
    } else {
        d
    }
}

/// Diez elevado a `k`.
pub open spec fn potencia_diez(k: nat) -> nat
    decreases k,
{
    if k == 0 {
        1
    } else {
        10 * potencia_diez((k - 1) as nat)
    }
}

proof fn lema_largo_decimal(n: nat, k: nat)
    requires
        n < potencia_diez(k),
        k >= 1,
    ensures
        decimal(n).len() <= k,
    decreases k,
{
    reveal_with_fuel(potencia_diez, 21);
    if n >= 10 {
        assert(k >= 2) by {
            if k == 1 {
            } else if k == 0 {
            }
        }
        assert(n / 10 < potencia_diez((k - 1) as nat)) by (nonlinear_arith)
            requires
                n < 10 * potencia_diez((k - 1) as nat),
        ;
        lema_largo_decimal(n / 10, (k - 1) as nat);
        assert(decimal(n).len() == decimal(n / 10).len() + 1);
    } else if k == 0 {
    }
}

proof fn lema_u64_veinte_digitos(n: u64)
    ensures
        (n as nat) < potencia_diez(20),
{
    reveal_with_fuel(potencia_diez, 21);
}

proof fn lema_digito(d: int)
    requires
        0 <= d < 10,
    ensures
        es_digito(digito(d)),
        valor_digito(digito(d)) == d,
{
}

proof fn lema_decimal(n: nat)
    ensures
        decimal(n).len() >= 1,
        solo_digitos(decimal(n)),
        valor_decimal(decimal(n)) == n,
    decreases n,
{
    if n < 10 {
        lema_digito(n as int);
        assert(decimal(n).drop_last() =~= Seq::<char>::empty());
        assert(valor_decimal(decimal(n)) == valor_decimal(decimal(n).drop_last()) * 10
            + valor_digito(decimal(n).last()));
    } else {
        let d = decimal(n);
        lema_decimal(n / 10);
        lema_digito((n % 10) as int);
        assert(d.drop_last() =~= decimal(n / 10));
        assert(d.last() == digito((n % 10) as int));
        assert(valor_decimal(d) == valor_decimal(d.drop_last()) * 10 + valor_digito(d.last()));
        assert((n / 10) * 10 + n % 10 == n) by (nonlinear_arith);
        assert forall|i: int| 0 <= i < d.len() implies es_digito(#[trigger] d[i]) by {
            if i < d.len() - 1 {
                assert(d[i] == decimal(n / 10)[i]);
            }
        }
    }
}

proof fn lema_cero_delante(s: Seq<char>)
    ensures
        valor_decimal(seq!['0'] + s) == valor_decimal(s),
    decreases s.len(),
{
    let t = seq!['0'] + s;
    if s.len() == 0 {
        assert(t.drop_last() =~= Seq::<char>::empty());
        assert(valor_decimal(t) == valor_decimal(t.drop_last()) * 10 + valor_digito(t.last()));
    } else {
        lema_cero_delante(s.drop_last());
        assert(t.drop_last() =~= seq!['0'] + s.drop_last());
        assert(t.last() == s.last());
        assert(valor_decimal(t) == (valor_decimal(t.drop_last()) * 10 + valor_digito(
            t.last(),
        )) as nat);
        assert(valor_decimal(s) == (valor_decimal(s.drop_last()) * 10 + valor_digito(
            s.last(),
        )) as nat);
    }
}

proof fn lema_ceros_delante(k: nat, s: Seq<char>)
    ensures
        valor_decimal(Seq::new(k, |_i: int| '0') + s) == valor_decimal(s),
    decreases k,
{
    if k > 0 {
        let z = Seq::new(k, |_i: int| '0');
        let z1 = Seq::new((k - 1) as nat, |_i: int| '0');
        lema_ceros_delante((k - 1) as nat, s);
        lema_cero_delante(z1 + s);
        assert(z + s =~= seq!['0'] + (z1 + s));
    }
}

pub proof fn lema_decimal_con_ceros(n: nat, ancho: nat)
    ensures
        solo_digitos(decimal_con_ceros(n, ancho)),
        valor_decimal(decimal_con_ceros(n, ancho)) == n,
        decimal_con_ceros(n, ancho).len() >= ancho,
        decimal_con_ceros(n, ancho).len() >= 1,
{
    lema_decimal(n);
    let d = decimal(n);
    if d.len() < ancho {
        lema_ceros_delante((ancho - d.len()) as nat, d);
    }
}

/// La cadena de un solo carácter del dígito `d`.
fn cadena_digito(d: u64) -> (r: &'static str)
    requires
        d < 10,
    ensures
        r@ == seq![digito(d as int)],
{
    proof {
        reveal_strlit("0");
        reveal_strlit("1");
        reveal_strlit("2");
        reveal_strlit("3");
        reveal_strlit("4");
        reveal_strlit("5");
        reveal_strlit("6");
        reveal_strlit("7");
        reveal_strlit("8");
        reveal_strlit("9");
    }
    let r = if d == 0 {
        "0"
    } else if d == 1 {
        "1"
    } else if d == 2 {
        "2"
    } else if d == 3 {
        "3"
    } else if d == 4 {
        "4"
    } else if d == 5 {
        "5"
    } else if d == 6 {
        "6"
    } else if d == 7 {
        "7"
    } else if d == 8 {
        "8"
    } else {
        "9"
    };
    assert(r@ =~= seq![digito(d as int)]);
    r
}

/// Cuántos dígitos tiene la escritura decimal de `n`.
fn cantidad_digitos(n: u64) -> (r: usize)
    ensures
        r == decimal(n as nat).len(),
        r <= 20,
    decreases n,
{
    if n < 10 {
        1
    } else {
        let k = cantidad_digitos(n / 10);
        proof {
            lema_u64_veinte_digitos(n);
            lema_largo_decimal(n as nat, 20);
        }
        k + 1
    }
}

/// Añade a `s` la escritura decimal de `n`.
pub fn anexar_decimal(s: &mut String, n: u64)
    ensures
        final(s)@ == old(s)@ + decimal(n as nat),
    decreases n,
{
    if n >= 10 {
        anexar_decimal(s, n / 10);
    }
    s.append(cadena_digito(n % 10));
    assert(old(s)@ + decimal(n as nat) =~= final(s)@) by {
        if n >= 10 {
            assert(decimal(n as nat) == decimal((n / 10) as nat).push(digito((n % 10) as int)));
        }
    }
}

/// Añade a `s` la escritura decimal de `n` con ceros a la izquierda hasta `ancho` caracteres.
pub fn anexar_decimal_con_ceros(s: &mut String, n: u64, ancho: usize)
    ensures
        final(s)@ == old(s)@ + decimal_con_ceros(n as nat, ancho as nat),
{
    let k = cantidad_digitos(n);
    let ghost inicio = s@;
    if k < ancho {
        let faltan = ancho - k;
        let mut i: usize = 0;
        while i < faltan
            invariant
                i <= faltan,
                s@ == inicio + Seq::new(i as nat, |_j: int| '0'),
            decreases faltan - i,
        {
            proof {
                reveal_strlit("0");
            }
            s.append("0");
            assert(inicio + Seq::new((i + 1) as nat, |_j: int| '0') =~= inicio + Seq::new(
                i as nat,
                |_j: int| '0',
            ) + "0"@);
            i = i + 1;
        }
    }
    anexar_decimal(s, n);
    assert(s@ =~= inicio + decimal_con_ceros(n as nat, ancho as nat));
}

} // verus!
