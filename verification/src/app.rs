use vstd::prelude::*;

use crate::color::{parse_color, spec_parse_color, Rgba};
use crate::config::Config;
use crate::estado::{
    next_status, outcome_event, refresh_after, AppStatus, QueryError, RemoteError, UiEvent,
    WARN_CODE,
};
use crate::tabla::{
    count_enabled, count_enabled_exec, enabled_rows, lemma_count_is_enabled_len, lemma_take_succ,
    Etiquetas,
};
use crate::texto::str_eq;

verus! {

/// Resultado de la puesta en marcha, entregado por la capa de E/S.
pub enum Startup {
    /// La conexion se establecio; se adjuntan las dos lecturas iniciales.
    Connected { table: Result<Vec<Etiquetas>, QueryError>, ids: Result<String, QueryError> },
    /// No se pudo conectar con el servicio remoto.
    Disconnected,
}

/// Orden de despachar la mutacion remota con estos argumentos, exactamente
/// una vez, en segundo plano.
pub struct DispatchCmd {
    /// Lista de mercaderia del lote, separada por comas.
    pub ids: String,
    /// Token de la variante de etiqueta elegida.
    pub etiqueta: String,
}

/// Un boton de la grilla, derivado de una fila habilitada.
pub struct GridButton {
    /// Token que se despacharia al pulsarlo.
    pub etiqueta: String,
    /// Texto visible.
    pub label: String,
    /// Color decodificado; `None` si la cadena estaba mal formada.
    pub color: Option<Rgba>,
    /// Si responde al clic: hace falta conexion, ninguna mutacion en curso
    /// y un color bien formado.
    pub activo: bool,
}

/// El controlador de la aplicacion: la instantanea de la tabla con su
/// contador, el estado visible, la bandera de tarea en curso y la
/// configuracion. La capa de E/S lo alimenta con valores planos y ejecuta
/// las ordenes que devuelven sus metodos.
pub struct App {
    /// Cantidad de botones habilitados, siempre derivada de `table`.
    pub enables_count: usize,
    /// Lista de mercaderia separada por comas, leida una vez al arranque.
    pub faena_ids: String,
    /// Estado visible de la aplicacion.
    pub status: AppStatus,
    /// Instantanea de la tabla intermedia; `None` es "sin datos", distinto
    /// de "cero filas habilitadas".
    pub table: Option<Vec<Etiquetas>>,
    /// Si la conexion inicial con el servidor se establecio.
    pub connected: bool,
    /// Si hay una mutacion remota en curso; refleja la unica tarea de fondo.
    pub pending: bool,
    /// Configuracion del programa.
    pub config: Config,
}

/// Las filas de la instantanea; sin datos, la secuencia vacia.
pub open spec fn rows_of(t: Option<Vec<Etiquetas>>) -> Seq<Etiquetas> {
    match t {
        Some(v) => v@,
        None => Seq::<Etiquetas>::empty(),
    }
}

/// Una fila puede pulsarse: esta habilitada y su color es valido.
pub open spec fn clickable(e: Etiquetas) -> bool {
    e.enable && spec_parse_color(e.color@) is Some
}

/// Hay alguna fila pulsable con este token.
pub open spec fn clickable_code(rows: Seq<Etiquetas>, code: Seq<char>) -> bool {
    exists|i: int| 0 <= i < rows.len() && clickable(#[trigger] rows[i]) && rows[i].etiqueta@ == code
}

/// La instantanea tras volcar el resultado de una relectura: en exito se
/// reemplaza entera; en fallo se conserva la anterior.
pub open spec fn refreshed(
    t: Option<Vec<Etiquetas>>,
    r: Result<Vec<Etiquetas>, QueryError>,
) -> Option<Vec<Etiquetas>> {
    match r {
        Result::Ok(rows) => Some(rows),
        Result::Err(_) => t,
    }
}

/// El boton corresponde a la fila: mismo token y texto, color decodificado
/// de su cadena, activo solo con la grilla interactiva y color valido.
pub open spec fn boton_de(b: GridButton, e: Etiquetas, interactiva: bool) -> bool {
    &&& b.etiqueta@ == e.etiqueta@
    &&& b.label@ == e.label@
    &&& b.color == spec_parse_color(e.color@)
    &&& b.activo == (interactiva && spec_parse_color(e.color@) is Some)
}

impl App {
    /// Invariante del controlador: el contador coincide siempre con la
    /// tabla de la que se derivo, hay tarea pendiente exactamente mientras
    /// el estado es `Loading`, y sin conexion no se despacha nada.
    pub open spec fn wf(self) -> bool {
        &&& self.enables_count as int == count_enabled(rows_of(self.table))
        &&& (self.pending <==> self.status is Loading)
        &&& (!self.connected ==> !self.pending)
    }

    /// La grilla responde al operador: hay conexion y ninguna mutacion en
    /// curso.
    pub open spec fn interactiva(self) -> bool {
        self.connected && !(self.status is Loading)
    }

    /// Construye la instantanea a partir de una lectura completa: en exito,
    /// las filas con su contador derivado en el mismo paso; en fallo, sin
    /// datos. Todo o nada: nunca una instantanea a medias.
    pub fn update_table(table: Result<Vec<Etiquetas>, QueryError>) -> (r: (
        Option<Vec<Etiquetas>>,
        usize,
    ))
        ensures
            match table {
                Result::Ok(rows) => r.0 == Some(rows) && r.1 as int == count_enabled(rows@),
                Result::Err(_) => r.0 is None && r.1 == 0,
            },
    {
        match table {
            Result::Ok(rows) => {
                let c = count_enabled_exec(&rows);
                (Some(rows), c)
            },
            Result::Err(_) => (None, 0),
        }
    }

    /// Estado inicial a partir de la configuracion cargada y de las
    /// lecturas de arranque que hizo la capa de E/S. Sin conexion, la
    /// aplicacion queda degradada: sin datos y con las affordances remotas
    /// inertes. Con conexion, el estado de reposo es `Idle`, o `Error` si
    /// la lectura de la tabla fallo.
    pub fn new(config: Config, startup: Startup) -> (app: App)
        ensures
            app.wf(),
            app.config == config,
            !app.pending,
            match startup {
                Startup::Disconnected => {
                    &&& !app.connected
                    &&& app.status == AppStatus::Error
                    &&& app.status == next_status(AppStatus::Loading, UiEvent::ConnectFailed)
                    &&& app.table is None
                    &&& app.enables_count == 0
                    &&& app.faena_ids@ == Seq::<char>::empty()
                },
                Startup::Connected { table, ids } => {
                    &&& app.connected
                    &&& match table {
                        Result::Ok(rows) => app.table == Some(rows) && app.status
                            == AppStatus::Idle && app.enables_count as int == count_enabled(rows@),
                        Result::Err(_) => app.table is None && app.status == AppStatus::Error
                            && app.enables_count == 0,
                    }
                    &&& match ids {
                        Result::Ok(s) => app.faena_ids == s,
                        Result::Err(_) => app.faena_ids@ == Seq::<char>::empty(),
                    }
                },
            },
    {
        match startup {
            Startup::Disconnected => App {
                enables_count: 0,
                faena_ids: String::new(),
                status: AppStatus::Error,
                table: None,
                connected: false,
                pending: false,
                config,
            },
            Startup::Connected { table, ids } => {
                let ok = match &table {
                    Result::Ok(_) => true,
                    Result::Err(_) => false,
                };
                let (t, c) = App::update_table(table);
                let faena_ids = match ids {
                    Result::Ok(s) => s,
                    Result::Err(_) => String::new(),
                };
                App {
                    enables_count: c,
                    faena_ids,
                    status: if ok {
                        AppStatus::Idle
                    } else {
                        AppStatus::Error
                    },
                    table: t,
                    connected: true,
                    pending: false,
                    config,
                }
            },
        }
    }

    /// Entrada por cuadro de la interfaz: consume, si lo hay, el desenlace
    /// de la mutacion en curso y devuelve si corresponde relanzar la
    /// lectura de la tabla. El desenlace se consume exactamente una vez;
    /// sin tarea en curso no cambia nada.
    pub fn update(&mut self, finished: Option<Result<(), RemoteError>>) -> (do_refresh: bool)
        requires
            old(self).wf(),
        ensures
            final(self).wf(),
            match finished {
                Some(rc) => if old(self).pending {
                    &&& !final(self).pending
                    &&& final(self).status == next_status(old(self).status, outcome_event(rc))
                    &&& do_refresh == refresh_after(rc)
                } else {
                    *final(self) == *old(self) && !do_refresh
                },
                None => *final(self) == *old(self) && !do_refresh,
            },
            final(self).table == old(self).table,
            final(self).enables_count == old(self).enables_count,
            final(self).faena_ids == old(self).faena_ids,
            final(self).config == old(self).config,
            final(self).connected == old(self).connected,
    {
        match finished {
            Some(rc) => {
                if self.pending {
                    self.pending = false;
                    match rc {
                        Result::Ok(_) => {
                            self.status = AppStatus::Okay;
                            true
                        },
                        Result::Err(e) => {
                            let warn = match e.code {
                                Some(c) => c == WARN_CODE,
                                None => false,
                            };
                            if warn {
                                self.status = AppStatus::Warn;
                                true
                            } else {
                                self.status = AppStatus::Error;
                                false
                            }
                        },
                    }
                } else {
                    false
                }
            },
            None => false,
        }
    }

    /// Clic del operador en un boton de la grilla, identificado por su
    /// token. Devuelve, si corresponde, la orden de despachar la mutacion.
    /// Un solo vuelo: con una tarea ya en curso es un no-op, y la bandera
    /// pendiente nunca se pisa sin haberse consumido antes.
    pub fn click_label(&mut self, code: &str) -> (cmd: Option<DispatchCmd>)
        requires
            old(self).wf(),
        ensures
            final(self).wf(),
            ({
                let puede = old(self).connected && !old(self).pending && clickable_code(
                    rows_of(old(self).table),
                    code@,
                );
                if puede {
                    &&& cmd is Some
                    &&& cmd->Some_0.ids == old(self).faena_ids
                    &&& cmd->Some_0.etiqueta@ == code@
                    &&& final(self).pending
                    &&& final(self).status == next_status(old(self).status, UiEvent::ClickLabel)
                    &&& final(self).table == old(self).table
                    &&& final(self).enables_count == old(self).enables_count
                    &&& final(self).faena_ids == old(self).faena_ids
                    &&& final(self).config == old(self).config
                    &&& final(self).connected == old(self).connected
                } else {
                    cmd is None && *final(self) == *old(self)
                }
            }),
    {
        if !self.connected || self.pending {
            return None;
        }
        match &self.table {
            None => None,
            Some(rows) => match App::find_clickable(rows, code) {
                None => None,
                Some(i) => {
                    let cmd = DispatchCmd {
                        ids: self.faena_ids.clone(),
                        etiqueta: rows[i].etiqueta.clone(),
                    };
                    self.status = AppStatus::Loading;
                    self.pending = true;
                    Some(cmd)
                },
            },
        }
    }

    /// Busca la primera fila pulsable con este token.
    fn find_clickable(rows: &Vec<Etiquetas>, code: &str) -> (r: Option<usize>)
        ensures
            match r {
                Some(i) => i < rows@.len() && clickable(rows@[i as int]) && rows@[i as int].etiqueta@
                    == code@,
                None => !clickable_code(rows@, code@),
            },
    {
        let n = rows.len();
        let mut i: usize = 0;
        while i < n
            invariant
                i <= n,
                n == rows@.len(),
                forall|j: int|
                    0 <= j < i ==> !(clickable(#[trigger] rows@[j]) && rows@[j].etiqueta@ == code@),
            decreases n - i,
        {
            let fila = &rows[i];
            if fila.enable && str_eq(fila.etiqueta.as_str(), code) {
                if parse_color(fila.color.as_str()).is_some() {
                    return Some(i);
                }
            }
            i = i + 1;
        }
        None
    }

    /// Vuelca el resultado de una relectura de la tabla: en exito se
    /// reemplaza la instantanea entera, con su contador, en el mismo paso;
    /// en fallo se conserva la anterior y el estado pasa a `Error` (salvo
    /// con una mutacion aun en curso, cuyo desenlace sigue mandando). Sin
    /// conexion no hubo relectura posible y no cambia nada.
    pub fn apply_refresh(&mut self, table: Result<Vec<Etiquetas>, QueryError>)
        requires
            old(self).wf(),
        ensures
            final(self).wf(),
            !old(self).connected ==> *final(self) == *old(self),
            old(self).connected ==> final(self).table == refreshed(old(self).table, table),
            old(self).connected ==> match table {
                Result::Ok(rows) => {
                    &&& final(self).enables_count as int == count_enabled(rows@)
                    &&& final(self).status == old(self).status
                },
                Result::Err(_) => {
                    &&& final(self).enables_count == old(self).enables_count
                    &&& final(self).status == if old(self).pending {
                        old(self).status
                    } else {
                        AppStatus::Error
                    }
                },
            },
            final(self).pending == old(self).pending,
            final(self).faena_ids == old(self).faena_ids,
            final(self).config == old(self).config,
            final(self).connected == old(self).connected,
    {
        if !self.connected {
            return ;
        }
        match table {
            Result::Ok(rows) => {
                let c = count_enabled_exec(&rows);
                self.table = Some(rows);
                self.enables_count = c;
            },
            Result::Err(_) => {
                if !self.pending {
                    self.status = AppStatus::Error;
                }
            },
        }
    }

    /// El boton de refresco manual: devuelve si la capa de E/S debe
    /// relanzar la lectura; sin conexion el intento muere en silencio.
    pub fn click_refresh(&self) -> (r: bool)
        ensures
            r == self.connected,
    {
        self.connected
    }

    /// Alterna la variante de etiquetas. La nueva configuracion debe
    /// persistirse siempre; la tabla se relee solo si hay conexion.
    pub fn toggle_mode(&mut self) -> (do_refresh: bool)
        requires
            old(self).wf(),
        ensures
            final(self).wf(),
            final(self).config.is_dpi300 == !old(self).config.is_dpi300,
            do_refresh == old(self).connected,
            final(self).table == old(self).table,
            final(self).enables_count == old(self).enables_count,
            final(self).faena_ids == old(self).faena_ids,
            final(self).status == old(self).status,
            final(self).pending == old(self).pending,
            final(self).connected == old(self).connected,
    {
        self.config.is_dpi300 = !self.config.is_dpi300;
        self.connected
    }

    /// El operador cierra el cartel de estado: el estado vuelve al reposo.
    /// Mientras hay una mutacion en curso no hay cartel que cerrar.
    pub fn dismiss(&mut self)
        requires
            old(self).wf(),
        ensures
            final(self).wf(),
            final(self).status == next_status(old(self).status, UiEvent::Dismiss),
            final(self).table == old(self).table,
            final(self).enables_count == old(self).enables_count,
            final(self).faena_ids == old(self).faena_ids,
            final(self).config == old(self).config,
            final(self).connected == old(self).connected,
            final(self).pending == old(self).pending,
    {
        if !self.pending {
            self.status = AppStatus::Idle;
        }
    }

    /// Proyeccion de la grilla: exactamente las filas habilitadas, en su
    /// orden original, cada una con su texto, su color decodificado y si
    /// responde al clic. Pura: se recalcula en cada cuadro y no guarda
    /// estado propio.
    pub fn grid_buttons(&self) -> (r: Vec<GridButton>)
        ensures
            r@.len() == enabled_rows(rows_of(self.table)).len(),
            forall|k: int|
                0 <= k < r@.len() ==> boton_de(
                    #[trigger] r@[k],
                    enabled_rows(rows_of(self.table))[k],
                    self.interactiva(),
                ),
    {
        let interactiva = self.connected && !matches!(self.status, AppStatus::Loading);
        let mut out: Vec<GridButton> = Vec::new();
        let rows = match &self.table {
            Some(rows) => rows,
            None => {
                return out;
            },
        };
        let n = rows.len();
        let mut i: usize = 0;
        while i < n
            invariant
                i <= n,
                n == rows@.len(),
                rows@ == rows_of(self.table),
                interactiva == self.interactiva(),
                out@.len() == enabled_rows(rows@.take(i as int)).len(),
                forall|k: int|
                    0 <= k < out@.len() ==> boton_de(
                        #[trigger] out@[k],
                        enabled_rows(rows@.take(i as int))[k],
                        self.interactiva(),
                    ),
            decreases n - i,
        {
            proof {
                lemma_take_succ(rows@, i as int);
            }
            let fila = &rows[i];
            if fila.enable {
                let color = parse_color(fila.color.as_str());
                let activo = interactiva && color.is_some();
                out.push(
                    GridButton {
                        etiqueta: fila.etiqueta.clone(),
                        label: fila.label.clone(),
                        color,
                        activo,
                    },
                );
            }
            i = i + 1;
        }
        proof {
            assert(rows@.take(n as int) =~= rows@);
        }
        out
    }
}

/// Para todo controlador bien formado, el contador de habilitadas es
/// exactamente la cantidad de filas habilitadas de su instantanea, es
/// decir, el largo de la proyeccion que dibuja la grilla.
pub proof fn lemma_contador_es_proyeccion(app: App)
    requires
        app.wf(),
    ensures
        app.enables_count as int == enabled_rows(rows_of(app.table)).len(),
{
    lemma_count_is_enabled_len(rows_of(app.table));
}

/// Refresco idempotente: dos relecturas consecutivas con el mismo
/// resultado remoto dejan la misma instantanea que una sola.
pub proof fn lemma_refresh_idempotente(
    t: Option<Vec<Etiquetas>>,
    r: Result<Vec<Etiquetas>, QueryError>,
)
    ensures
        refreshed(refreshed(t, r), r) == refreshed(t, r),
{
}

} // verus!
