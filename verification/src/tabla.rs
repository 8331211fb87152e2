use vstd::prelude::*;

verus! {

/// Una fila de la tabla intermedia de la base de datos: una variante de
/// etiqueta que el operador puede elegir.
#[derive(Debug, Clone, PartialEq, Eq)]
pub struct Etiquetas {
    /// Identificador estable de la fila.
    pub id: u8,
    /// Solo las filas habilitadas se muestran como botones clicables.
    pub enable: bool,
    /// Token opaco que se envia tal cual a la mutacion remota.
    pub etiqueta: String,
    /// Texto visible del boton.
    pub label: String,
    /// Color del boton en hexadecimal de 6 u 8 digitos.
    pub color: String,
}

/// Cuantas filas de la secuencia estan habilitadas.
pub open spec fn count_enabled(rows: Seq<Etiquetas>) -> int
    decreases rows.len(),
{
    if rows.len() == 0 {
        0
    } else {
        count_enabled(rows.drop_last()) + if rows.last().enable {
            1int
        } else {
            0int
        }
    }
}

/// Las filas habilitadas, conservando el orden original.
pub open spec fn enabled_rows(rows: Seq<Etiquetas>) -> Seq<Etiquetas>
    decreases rows.len(),
{
    if rows.len() == 0 {
        Seq::<Etiquetas>::empty()
    } else if rows.last().enable {
        enabled_rows(rows.drop_last()).push(rows.last())
    } else {
        enabled_rows(rows.drop_last())
    }
}

/// El contador nunca excede el largo de la secuencia.
pub proof fn lemma_count_le_len(rows: Seq<Etiquetas>)
    ensures
        0 <= count_enabled(rows) <= rows.len(),
    decreases rows.len(),
{
    if rows.len() > 0 {
        lemma_count_le_len(rows.drop_last());
    }
}

/// El contador de habilitadas es exactamente el largo de la proyeccion de
/// filas habilitadas: el numero que muestra la interfaz cuenta lo mismo que
/// la grilla dibuja.
pub proof fn lemma_count_is_enabled_len(rows: Seq<Etiquetas>)
    ensures
        count_enabled(rows) == enabled_rows(rows).len(),
    decreases rows.len(),
{
    if rows.len() > 0 {
        lemma_count_is_enabled_len(rows.drop_last());
    }
}

/// Paso de un prefijo al siguiente, para los bucles que recorren la tabla.
pub proof fn lemma_take_succ(rows: Seq<Etiquetas>, i: int)
    requires
        0 <= i < rows.len(),
    ensures
        count_enabled(rows.take(i + 1)) == count_enabled(rows.take(i)) + if rows[i].enable {
            1int
        } else {
            0int
        },
        enabled_rows(rows.take(i + 1)) == if rows[i].enable {
            enabled_rows(rows.take(i)).push(rows[i])
        } else {
            enabled_rows(rows.take(i))
        },
{
    assert(rows.take(i + 1).drop_last() =~= rows.take(i));
    assert(rows.take(i + 1).last() == rows[i]);
}

/// Cuenta las filas habilitadas de la tabla.
pub fn count_enabled_exec(rows: &Vec<Etiquetas>) -> (c: usize)
    ensures
        c as int == count_enabled(rows@),
{
    let n = rows.len();
    let mut c: usize = 0;
    let mut i: usize = 0;
    while i < n
        invariant
            i <= n,
            n == rows@.len(),
            c as int == count_enabled(rows@.take(i as int)),
        decreases n - i,
    {
        proof {
            lemma_take_succ(rows@, i as int);
            lemma_count_le_len(rows@.take(i as int));
        }
        if rows[i].enable {
            c = c + 1;
        }
        i = i + 1;
    }
    proof {
        assert(rows@.take(n as int) =~= rows@);
    }
    c
}

} // verus!
