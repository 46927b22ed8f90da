//! Códigos de activación de licencia (`POS-M-XXXX-XXXX-XXXX`) y estado de la
//! licencia según los días que le quedan.
use vstd::prelude::*;
use vstd::string::StringSliceAdditionalSpecFns;
use vstd::utf8::encode_utf8;
use vstd::wrapping::u32_specs;
use crate::texto::vistas;

verus! {

/// Si el carácter es alfabético o numérico en Unicode.
pub uninterp spec fn alfanumerico(c: char) -> bool;

/// El texto sin el espacio en blanco del principio y del final.
pub uninterp spec fn recorte(s: Seq<char>) -> Seq<char>;

/// El texto en mayúsculas según Unicode.
pub uninterp spec fn mayusculas(s: Seq<char>) -> Seq<char>;

/// Se apoya en `char::is_alphanumeric`: si el carácter es alfabético o
/// numérico en Unicode; la respuesta depende solo del carácter.
#[verifier::external_body]
fn es_alfanumerico(c: char) -> (r: bool)
    ensures
        r == alfanumerico(c),
{
    c.is_alphanumeric()
}

/// Se apoya en `str::trim`: el texto sin el espacio en blanco del principio y
/// del final; el resultado depende solo del texto.
#[verifier::external_body]
fn recortar<'a>(s: &'a str) -> (r: &'a str)
    ensures
        r@ == recorte(s@),
{
    s.trim()
}

/// Se apoya en `str::to_uppercase`: el texto en mayúsculas; el resultado
/// depende solo del texto.
#[verifier::external_body]
fn a_mayusculas(s: &str) -> (r: String)
    ensures
        r@ == mayusculas(s@),
{
    s.to_uppercase()
}

/// Los trozos de `s` entre guiones, en orden; sin guiones, `s` entero.
pub open spec fn partes(s: Seq<char>) -> Seq<Seq<char>>
    decreases s.len(),
{
    if s.len() == 0 {
        seq![Seq::empty()]
    } else {
        let p = partes(s.drop_last());
        if s.last() == '-' {
            p.push(Seq::empty())
        } else {
            p.update(p.len() - 1, p.last().push(s.last()))
        }
    }
}

/// El texto sin sus espacios.
pub open spec fn sin_espacios(s: Seq<char>) -> Seq<char>
    decreases s.len(),
{
    if s.len() == 0 {
        s
    } else if s.last() == ' ' {
        sin_espacios(s.drop_last())
    } else {
        sin_espacios(s.drop_last()).push(s.last())
    }
}

/// El código tal como se valida: sin espacios alrededor, en mayúsculas y sin
/// espacios dentro.
pub open spec fn codigo_limpio(s: Seq<char>) -> Seq<char> {
    sin_espacios(mayusculas(recorte(s)))
}

/// Un trozo de datos del código: cuatro bytes en UTF-8, todos alfanuméricos.
pub open spec fn bloque_valido(p: Seq<char>) -> bool {
    encode_utf8(p).len() as usize == 4 && forall|j: int| 0 <= j < p.len() ==> alfanumerico(#[trigger] p[j])
}

/// El formato `POS-T-XXXX-XXXX-XXXX`, con el tipo `T` igual a `M` o `A`.
pub open spec fn formato_valido(s: Seq<char>) -> bool {
    let p = partes(s);
    &&& p.len() == 5
    &&& p[0] == seq!['P', 'O', 'S']
    &&& (p[1] == seq!['M'] || p[1] == seq!['A'])
    &&& bloque_valido(p[2])
    &&& bloque_valido(p[3])
    &&& bloque_valido(p[4])
}

/// La suma, módulo 2^32, del código de cada carácter por su posición contada
/// desde uno.
pub open spec fn suma_ponderada(s: Seq<char>) -> u32
    decreases s.len(),
{
    if s.len() == 0 {
        0
    } else {
        u32_specs::wrapping_add(
            suma_ponderada(s.drop_last()),
            u32_specs::wrapping_mul(s.last() as u32, s.len() as u32),
        )
    }
}

/// Las cifras de la base 36, de `0` a `Z`.
pub open spec fn cifras36() -> Seq<char> {
    seq![
        '0', '1', '2', '3', '4', '5', '6', '7', '8', '9',
        'A', 'B', 'C', 'D', 'E', 'F', 'G', 'H', 'I', 'J',
        'K', 'L', 'M', 'N', 'O', 'P', 'Q', 'R', 'S', 'T',
        'U', 'V', 'W', 'X', 'Y', 'Z',
    ]
}

/// Las cuatro últimas cifras en base 36 de `v`, de la más alta a la más baja.
pub open spec fn base36(v: u32) -> Seq<char> {
    let v1 = v / 36;
    let v2 = v1 / 36;
    let v3 = v2 / 36;
    seq![
        cifras36()[(v3 % 36) as int],
        cifras36()[(v2 % 36) as int],
        cifras36()[(v1 % 36) as int],
        cifras36()[(v % 36) as int],
    ]
}

/// La suma de verificación de los datos de un código.
pub open spec fn checksum(s: Seq<char>) -> Seq<char> {
    base36(suma_ponderada(s))
}

/// El último trozo del código es la suma de verificación del tercero y el
/// cuarto, uno tras otro.
pub open spec fn checksum_valido(s: Seq<char>) -> bool {
    let p = partes(s);
    p.len() == 5 && p[4] == checksum(p[2] + p[3])
}

/// El tipo de licencia de un código.
pub open spec fn tipo_de_codigo(s: Seq<char>) -> Option<Seq<char>> {
    let p = partes(s);
    if p.len() < 2 {
        None
    } else if p[1] == seq!['M'] {
        Some("MENSUAL"@)
    } else if p[1] == seq!['A'] {
        Some("ANUAL"@)
    } else {
        None
    }
}

/// Por qué no se acepta un código de activación.
#[derive(Clone, Copy, Debug, PartialEq, Eq, Structural)]
pub enum FallaActivacion {
    /// No tiene la forma `POS-T-XXXX-XXXX-XXXX`.
    Formato,
    /// Su suma de verificación no cuadra.
    Verificacion,
    /// Su tipo de licencia no es ninguno de los conocidos.
    TipoDesconocido,
}

/// Lo que concede un código de activación aceptado.
#[derive(Clone, Debug, PartialEq, Eq)]
pub struct Activacion {
    pub tipo_licencia: String,
    pub dias: u32,
}

/// Los días que concede cada tipo de licencia.
pub open spec fn dias_del_tipo(t: Seq<char>) -> Option<u32> {
    if t == "MENSUAL"@ {
        Some(30)
    } else if t == "ANUAL"@ {
        Some(365)
    } else {
        None
    }
}

proof fn lema_partes_no_vacia(s: Seq<char>)
    ensures
        partes(s).len() >= 1,
    decreases s.len(),
{
    if s.len() > 0 {
        lema_partes_no_vacia(s.drop_last());
    }
}

/// Los trozos de `s` entre guiones.
pub fn partir(s: &str) -> (r: Vec<String>)
    ensures
        vistas(r@) == partes(s@),
{
    let n = s.unicode_len();
    let mut hechas: Vec<String> = Vec::new();
    let mut actual = String::new();
    let mut i: usize = 0;
    while i < n
        invariant
            n == s@.len(),
            0 <= i <= n,
            partes(s@.subrange(0, i as int)) == vistas(hechas@).push(actual@),
        decreases n - i,
    {
        let ghost antes = s@.subrange(0, i as int);
        let ghost ahora = s@.subrange(0, i + 1);
        assert(ahora.drop_last() =~= antes);
        let c = s.get_char(i);
        proof {
            lema_partes_no_vacia(antes);
        }
        if c == '-' {
            hechas.push(actual);
            actual = String::new();
            assert(vistas(hechas@).push(actual@) =~= partes(antes).push(Seq::empty()));
        } else {
            let ghost previo = actual@;
            assert(partes(antes) == vistas(hechas@).push(previo));
            assert(s@.subrange(i as int, i + 1) =~= seq![c]);
            actual.append(s.substring_char(i, i + 1));
            assert(actual@ =~= previo.push(c));
            assert(vistas(hechas@).push(actual@) =~= partes(antes).update(
                partes(antes).len() - 1,
                partes(antes).last().push(c),
            ));
        }
        i = i + 1;
    }
    assert(s@.subrange(0, n as int) =~= s@);
    hechas.push(actual);
    assert(vistas(hechas@) =~= partes(s@));
    hechas
}

/// Si la cadena es igual al literal.
fn es_texto(s: &String, literal: &str) -> (r: bool)
    ensures
        r == (s@ == literal@),
{
    *s == String::from_str(literal)
}

/// Si el código tiene la forma `POS-T-XXXX-XXXX-XXXX`: cinco trozos entre
/// guiones, el primero `POS`, el segundo `M` o `A`, y los otros tres de
/// cuatro bytes y solo caracteres alfanuméricos.
pub fn validar_formato_codigo(codigo: &str) -> (r: bool)
    ensures
        r == formato_valido(codigo@),
{
    let p = partir(codigo);
    proof {
        assert(vistas(p@).len() == p@.len());
    }
    if p.len() != 5 {
        return false;
    }
    assert(vistas(p@)[0] == p@[0]@ && vistas(p@)[1] == p@[1]@);
    proof {
        reveal_strlit("POS");
        reveal_strlit("M");
        reveal_strlit("A");
    }
    if !es_texto(&p[0], "POS") {
        assert("POS"@ =~= seq!['P', 'O', 'S']);
        return false;
    }
    assert("POS"@ =~= seq!['P', 'O', 'S']);
    assert("M"@ =~= seq!['M']);
    assert("A"@ =~= seq!['A']);
    if !es_texto(&p[1], "M") && !es_texto(&p[1], "A") {
        return false;
    }
    let mut i: usize = 2;
    while i < 5
        invariant
            2 <= i <= 5,
            p@.len() == 5,
            vistas(p@) == partes(codigo@),
            forall|k: int| 2 <= k < i ==> bloque_valido(#[trigger] partes(codigo@)[k]),
        decreases 5 - i,
    {
        let parte = p[i].as_str();
        assert(vistas(p@)[i as int] == p@[i as int]@);
        assert(parte@ == partes(codigo@)[i as int]);
        assert(parte.spec_bytes() == encode_utf8(parte@));
        if parte.len() != 4 {
            return false;
        }
        let m = parte.unicode_len();
        let mut j: usize = 0;
        while j < m
            invariant
                m == parte@.len(),
                parte@ == partes(codigo@)[i as int],
                encode_utf8(parte@).len() as usize == 4,
                2 <= i < 5,
                p@.len() == 5,
                vistas(p@) == partes(codigo@),
                forall|k: int| 2 <= k < i ==> bloque_valido(#[trigger] partes(codigo@)[k]),
                0 <= j <= m,
                forall|k: int| 0 <= k < j ==> alfanumerico(#[trigger] parte@[k]),
            decreases m - j,
        {
            if !es_alfanumerico(parte.get_char(j)) {
                return false;
            }
            j = j + 1;
        }
        i = i + 1;
    }
    true
}

/// La suma de verificación de `datos`: la suma, módulo 2^32, del código de
/// cada carácter por su posición desde uno, en sus cuatro últimas cifras en
/// base 36.
pub fn calcular_checksum_simple(datos: &str) -> (r: String)
    ensures
        r@ == checksum(datos@),
{
    let n = datos.unicode_len();
    let mut suma: u32 = 0;
    let mut i: usize = 0;
    while i < n
        invariant
            n == datos@.len(),
            0 <= i <= n,
            suma == suma_ponderada(datos@.subrange(0, i as int)),
        decreases n - i,
    {
        let ghost ahora = datos@.subrange(0, i + 1);
        assert(ahora.drop_last() =~= datos@.subrange(0, i as int));
        let c = datos.get_char(i);
        suma = suma.wrapping_add((c as u32).wrapping_mul((i + 1) as u32));
        i = i + 1;
    }
    assert(datos@.subrange(0, n as int) =~= datos@);
    let cifras = "0123456789ABCDEFGHIJKLMNOPQRSTUVWXYZ";
    proof {
        reveal_strlit("0123456789ABCDEFGHIJKLMNOPQRSTUVWXYZ");
    }
    assert(cifras@ =~= cifras36());
    let v1 = suma / 36;
    let v2 = v1 / 36;
    let v3 = v2 / 36;
    let mut r = String::new();
    r.append(cifras.substring_char((v3 % 36) as usize, (v3 % 36) as usize + 1));
    r.append(cifras.substring_char((v2 % 36) as usize, (v2 % 36) as usize + 1));
    r.append(cifras.substring_char((v1 % 36) as usize, (v1 % 36) as usize + 1));
    r.append(cifras.substring_char((suma % 36) as usize, (suma % 36) as usize + 1));
    assert(r@ =~= base36(suma));
    r
}

/// Si la suma de verificación del código cuadra: el quinto trozo es la suma de
/// verificación del tercero seguido del cuarto.
pub fn validar_checksum(codigo: &str) -> (r: bool)
    ensures
        r == checksum_valido(codigo@),
{
    let p = partir(codigo);
    proof {
        assert(vistas(p@).len() == p@.len());
    }
    if p.len() != 5 {
        return false;
    }
    assert(vistas(p@)[2] == p@[2]@ && vistas(p@)[3] == p@[3]@ && vistas(p@)[4] == p@[4]@);
    let mut datos = p[2].clone();
    datos.append(p[3].as_str());
    let calculado = calcular_checksum_simple(datos.as_str());
    p[4] == calculado
}

/// El tipo de licencia que indica el código en su segundo trozo: `MENSUAL`
/// para `M`, `ANUAL` para `A`; un error en otro caso.
pub fn extraer_tipo_licencia(codigo: &str) -> (r: Result<String, String>)
    ensures
        tipo_de_codigo(codigo@) matches Some(t) ==> (r matches Ok(s) && s@ == t),
        tipo_de_codigo(codigo@) is None ==> r is Err,
        partes(codigo@).len() < 2 ==> (r matches Err(e) && e@ == "Código inválido"@),
        partes(codigo@).len() >= 2 && tipo_de_codigo(codigo@) is None ==> (r matches Err(e) && e@
            == "Tipo de licencia no reconocido"@),
{
    let p = partir(codigo);
    proof {
        assert(vistas(p@).len() == p@.len());
        reveal_strlit("M");
        reveal_strlit("A");
    }
    if p.len() < 2 {
        return Err(String::from_str("Código inválido"));
    }
    assert(vistas(p@)[1] == p@[1]@);
    assert("M"@ =~= seq!['M']);
    assert("A"@ =~= seq!['A']);
    if es_texto(&p[1], "M") {
        Ok(String::from_str("MENSUAL"))
    } else if es_texto(&p[1], "A") {
        Ok(String::from_str("ANUAL"))
    } else {
        Err(String::from_str("Tipo de licencia no reconocido"))
    }
}

/// Los días que concede un tipo de licencia: 30 la mensual, 365 la anual.
pub fn dias_de_licencia(tipo: &String) -> (r: Option<u32>)
    ensures
        r == dias_del_tipo(tipo@),
{
    if es_texto(tipo, "MENSUAL") {
        Some(30)
    } else if es_texto(tipo, "ANUAL") {
        Some(365)
    } else {
        None
    }
}

/// El código sin espacio en blanco alrededor, en mayúsculas y sin espacios.
pub fn normalizar_codigo(codigo: &str) -> (r: String)
    ensures
        r@ == codigo_limpio(codigo@),
{
    let m = a_mayusculas(recortar(codigo));
    let s = m.as_str();
    let n = s.unicode_len();
    let mut r = String::new();
    let mut i: usize = 0;
    while i < n
        invariant
            n == s@.len(),
            s@ == mayusculas(recorte(codigo@)),
            0 <= i <= n,
            r@ == sin_espacios(s@.subrange(0, i as int)),
        decreases n - i,
    {
        let ghost ahora = s@.subrange(0, i + 1);
        assert(ahora.drop_last() =~= s@.subrange(0, i as int));
        let c = s.get_char(i);
        if c != ' ' {
            r.append(s.substring_char(i, i + 1));
            assert(s@.subrange(i as int, i + 1) =~= seq![c]);
        }
        i = i + 1;
    }
    assert(s@.subrange(0, n as int) =~= s@);
    r
}

/// Revisa un código ya normalizado: su forma, su suma de verificación y su
/// tipo, por ese orden; si se acepta, lo que concede.
pub fn revisar_codigo_activacion(codigo: &str) -> (r: Result<Activacion, FallaActivacion>)
    ensures
        !formato_valido(codigo@) ==> r == Err::<Activacion, FallaActivacion>(
            FallaActivacion::Formato,
        ),
        formato_valido(codigo@) && !checksum_valido(codigo@) ==> r == Err::<
            Activacion,
            FallaActivacion,
        >(FallaActivacion::Verificacion),
        formato_valido(codigo@) && checksum_valido(codigo@) ==> (r matches Ok(a)
            && tipo_de_codigo(codigo@) == Some(a.tipo_licencia@) && dias_del_tipo(
            a.tipo_licencia@,
        ) == Some(a.dias)),
{
    if !validar_formato_codigo(codigo) {
        return Err(FallaActivacion::Formato);
    }
    if !validar_checksum(codigo) {
        return Err(FallaActivacion::Verificacion);
    }
    let tipo = match extraer_tipo_licencia(codigo) {
        Ok(t) => t,
        Err(_) => {
            return Err(FallaActivacion::TipoDesconocido);
        },
    };
    match dias_de_licencia(&tipo) {
        Some(dias) => Ok(Activacion { tipo_licencia: tipo, dias }),
        None => {
            proof {
                reveal_strlit("MENSUAL");
                reveal_strlit("ANUAL");
            }
            Err(FallaActivacion::TipoDesconocido)
        },
    }
}

/// Si el código, una vez normalizado, tiene forma válida y su suma de
/// verificación cuadra.
pub fn validar_codigo_activacion(codigo: &str) -> (r: bool)
    ensures
        r == (formato_valido(codigo_limpio(codigo@)) && checksum_valido(codigo_limpio(codigo@))),
{
    let limpio = normalizar_codigo(codigo);
    if !validar_formato_codigo(limpio.as_str()) {
        return false;
    }
    validar_checksum(limpio.as_str())
}

/// El estado de la licencia tal como se muestra.
#[derive(Clone, Debug, PartialEq, Eq)]
pub struct EstadoLicencia {
    pub tipo_licencia: String,
    pub estado: String,
    pub fecha_instalacion: String,
    pub fecha_expiracion: String,
    pub dias_restantes: i32,
    pub puede_operar: bool,
    pub modo_solo_lectura: bool,
    pub codigo_activacion: Option<String>,
}

/// El resultado de intentar activar una licencia.
#[derive(Clone, Debug, PartialEq, Eq)]
pub struct ResultadoActivacion {
    pub success: bool,
    pub mensaje: String,
    pub nueva_fecha_expiracion: Option<String>,
    pub tipo_licencia: Option<String>,
}

/// Días de gracia tras la expiración en los que aún se puede operar.
pub const DIAS_DE_GRACIA: i32 = 3;

/// El estado que corresponde a los días que le quedan a la licencia: activa
/// mientras queden días, en gracia hasta tres días después de expirar, y
/// expirada después.
pub open spec fn estado_por_dias(dias: int) -> Seq<char> {
    if dias > 0 {
        "ACTIVO"@
    } else if dias >= -DIAS_DE_GRACIA {
        "GRACIA"@
    } else {
        "EXPIRADO"@
    }
}

/// Se puede operar con la licencia activa o en gracia.
pub open spec fn permite_operar(estado: Seq<char>) -> bool {
    estado == "ACTIVO"@ || estado == "GRACIA"@
}

/// El estado que corresponde a los días que le quedan a la licencia.
pub fn estado_segun_dias(dias_restantes: i32) -> (r: String)
    ensures
        r@ == estado_por_dias(dias_restantes as int),
{
    if dias_restantes > 0 {
        String::from_str("ACTIVO")
    } else if dias_restantes >= -DIAS_DE_GRACIA {
        String::from_str("GRACIA")
    } else {
        String::from_str("EXPIRADO")
    }
}

/// Si con la licencia en ese estado se puede operar.
pub fn puede_operar(estado: &String) -> (r: bool)
    ensures
        r == permite_operar(estado@),
{
    es_texto(estado, "ACTIVO") || es_texto(estado, "GRACIA")
}

/// El estado de la licencia guardada, con los días que le quedan: se puede
/// operar si está activa o en gracia, y solo consultar si expiró.
pub fn armar_estado_licencia(
    tipo_licencia: String,
    estado: String,
    fecha_instalacion: String,
    fecha_expiracion: String,
    dias_restantes: i32,
    codigo_activacion: Option<String>,
) -> (r: EstadoLicencia)
    ensures
        r.tipo_licencia == tipo_licencia,
        r.estado == estado,
        r.fecha_instalacion == fecha_instalacion,
        r.fecha_expiracion == fecha_expiracion,
        r.dias_restantes == dias_restantes,
        r.codigo_activacion == codigo_activacion,
        r.puede_operar == permite_operar(estado@),
        r.modo_solo_lectura == (estado@ == "EXPIRADO"@),
{
    let puede = puede_operar(&estado);
    let solo_lectura = es_texto(&estado, "EXPIRADO");
    EstadoLicencia {
        tipo_licencia,
        estado,
        fecha_instalacion,
        fecha_expiracion,
        dias_restantes,
        puede_operar: puede,
        modo_solo_lectura: solo_lectura,
        codigo_activacion,
    }
}

/// El aviso para un código rechazado.
pub open spec fn mensaje_de_falla(f: FallaActivacion) -> Seq<char> {
    match f {
        FallaActivacion::Formato => "Código inválido. Formato correcto: POS-M-XXXX-XXXX-XXXX"@,
        FallaActivacion::Verificacion => "Código inválido. Verificación falló."@,
        FallaActivacion::TipoDesconocido => "Tipo de licencia no reconocido en el código."@,
    }
}

impl ResultadoActivacion {
    /// Una activación rechazada, con su aviso.
    pub fn rechazada(mensaje: String) -> (r: ResultadoActivacion)
        ensures
            !r.success,
            r.mensaje == mensaje,
            r.nueva_fecha_expiracion is None,
            r.tipo_licencia is None,
    {
        ResultadoActivacion {
            success: false,
            mensaje,
            nueva_fecha_expiracion: None,
            tipo_licencia: None,
        }
    }

    /// Una activación rechazada porque el código no se acepta.
    pub fn por_falla(falla: FallaActivacion) -> (r: ResultadoActivacion)
        ensures
            !r.success,
            r.mensaje@ == mensaje_de_falla(falla),
            r.nueva_fecha_expiracion is None,
            r.tipo_licencia is None,
    {
        let mensaje = match falla {
            FallaActivacion::Formato => String::from_str(
                "Código inválido. Formato correcto: POS-M-XXXX-XXXX-XXXX",
            ),
            FallaActivacion::Verificacion => String::from_str("Código inválido. Verificación falló."),
            FallaActivacion::TipoDesconocido => String::from_str(
                "Tipo de licencia no reconocido en el código.",
            ),
        };
        ResultadoActivacion::rechazada(mensaje)
    }

    /// Una activación hecha: la licencia del tipo dado vale hasta la nueva fecha.
    pub fn exitosa(tipo_licencia: String, nueva_fecha_expiracion: String) -> (r:
        ResultadoActivacion)
        ensures
            r.success,
            r.mensaje@ == "¡Licencia "@ + tipo_licencia@ + " activada exitosamente!"@,
            r.nueva_fecha_expiracion == Some(nueva_fecha_expiracion),
            r.tipo_licencia == Some(tipo_licencia),
    {
        let mut mensaje = String::from_str("¡Licencia ");
        mensaje.append(tipo_licencia.as_str());
        mensaje.append(" activada exitosamente!");
        ResultadoActivacion {
            success: true,
            mensaje,
            nueva_fecha_expiracion: Some(nueva_fecha_expiracion),
            tipo_licencia: Some(tipo_licencia),
        }
    }
}

} // verus!
