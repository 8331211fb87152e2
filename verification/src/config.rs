use vstd::prelude::*;

verus! {

/// Configuracion persistida del programa: una sola bandera que elige entre
/// las dos variantes fisicas de etiqueta. La capa de E/S la carga al
/// arranque y la vuelve a guardar cada vez que el operador la alterna.
#[derive(Debug, Clone, Copy, PartialEq, Eq, Structural)]
pub struct Config {
    /// Indica si las etiquetas son de 300 dpi o no.
    pub is_dpi300: bool,
}

impl Default for Config {
    /// Valor usado cuando no hay configuracion guardada o esta corrupta.
    fn default() -> (c: Config)
        ensures
            c.is_dpi300,
    {
        Config { is_dpi300: true }
    }
}

} // verus!
