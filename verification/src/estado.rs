use vstd::prelude::*;

verus! {

/// Codigo remoto que distingue el rechazo esperado de negocio
/// ("etiqueta no habilitada para produccion") de un fallo generico.
pub const WARN_CODE: u32 = 57450;

/// Estado visible de la aplicacion: decide el cartel que se muestra y que
/// controles responden.
///
/// El reposo es aqui un estado propio, `Idle`, distinto de `Error`:
/// colapsarlos (como hacia la pantalla original) vuelve indistinguible
/// "no paso nada" de "la ultima mutacion fallo".
#[derive(Debug, Clone, Copy, PartialEq, Eq, Structural)]
pub enum AppStatus {
    /// Hay una mutacion remota en curso; se muestra el indicador de espera.
    Loading,
    /// Reposo: no se muestra exito, aviso ni fallo.
    Idle,
    /// La ultima mutacion termino bien.
    Okay,
    /// La ultima mutacion fue rechazada por la regla de negocio esperada.
    Warn,
    /// Fallo duro: conexion caida, lectura fallida o mutacion rechazada
    /// por un motivo no reconocido.
    Error,
}

/// Fallo de la mutacion remota; `code` trae, si lo hay, el codigo con el
/// que el servidor distingue el rechazo esperado.
#[derive(Debug, Clone, PartialEq, Eq)]
pub struct RemoteError {
    pub code: Option<u32>,
}

/// Fallo de una lectura remota: conexion caida, tabla vacia o columna
/// ausente. El detalle solo sirve para el registro de errores.
#[derive(Debug, Clone, PartialEq, Eq)]
pub struct QueryError {
    pub detalle: String,
}

/// Los eventos de la tabla de transiciones del estado visible.
#[derive(Debug, Clone, Copy, PartialEq, Eq, Structural)]
pub enum UiEvent {
    /// El operador pulsa un boton habilitado.
    ClickLabel,
    /// La mutacion en curso termino bien.
    MutationOk,
    /// La mutacion en curso fue rechazada con el codigo esperado.
    MutationWarn,
    /// La mutacion en curso fallo por cualquier otro motivo.
    MutationFail,
    /// El operador cierra el cartel de estado.
    Dismiss,
    /// La conexion inicial con el servicio remoto fallo.
    ConnectFailed,
}

/// Funcion total de transicion del estado visible: para cada estado y cada
/// evento hay exactamente un estado siguiente.
pub open spec fn next_status(s: AppStatus, e: UiEvent) -> AppStatus {
    match e {
        UiEvent::ClickLabel => AppStatus::Loading,
        UiEvent::MutationOk => if s is Loading {
            AppStatus::Okay
        } else {
            s
        },
        UiEvent::MutationWarn => if s is Loading {
            AppStatus::Warn
        } else {
            s
        },
        UiEvent::MutationFail => if s is Loading {
            AppStatus::Error
        } else {
            s
        },
        UiEvent::Dismiss => if s is Loading {
            AppStatus::Loading
        } else {
            AppStatus::Idle
        },
        UiEvent::ConnectFailed => AppStatus::Error,
    }
}

/// Evento que produce el desenlace de una mutacion remota.
pub open spec fn outcome_event(rc: Result<(), RemoteError>) -> UiEvent {
    match rc {
        Result::Ok(_) => UiEvent::MutationOk,
        Result::Err(e) => if e.code == Some(WARN_CODE) {
            UiEvent::MutationWarn
        } else {
            UiEvent::MutationFail
        },
    }
}

/// Tras que desenlaces corresponde refrescar la tabla: tras el exito y tras
/// el rechazo esperado (el estado remoto pudo cambiar), nunca tras un fallo
/// duro de la mutacion (el estado remoto no cambio).
pub open spec fn refresh_after(rc: Result<(), RemoteError>) -> bool {
    outcome_event(rc) is MutationOk || outcome_event(rc) is MutationWarn
}

/// Clausura de la maquina de estados: desde cada estado, cada evento lleva a
/// exactamente un estado siguiente definido; ningun evento queda sin
/// respuesta. Las clausulas recorren la tabla de transiciones entera.
pub proof fn lemma_maquina_cerrada()
    ensures
        forall|s: AppStatus| #[trigger] next_status(s, UiEvent::ClickLabel) == AppStatus::Loading,
        next_status(AppStatus::Loading, UiEvent::MutationOk) == AppStatus::Okay,
        next_status(AppStatus::Loading, UiEvent::MutationWarn) == AppStatus::Warn,
        next_status(AppStatus::Loading, UiEvent::MutationFail) == AppStatus::Error,
        forall|s: AppStatus|
            s != AppStatus::Loading ==> #[trigger] next_status(s, UiEvent::Dismiss)
                == AppStatus::Idle,
        next_status(AppStatus::Loading, UiEvent::Dismiss) == AppStatus::Loading,
        forall|s: AppStatus| #[trigger] next_status(s, UiEvent::ConnectFailed) == AppStatus::Error,
        forall|s: AppStatus, e: UiEvent|
            !(s is Loading) && (e is MutationOk || e is MutationWarn || e is MutationFail)
                ==> #[trigger] next_status(s, e) == s,
{
}

/// Una mutacion que se informa como exitosa siempre va seguida de un intento
/// de refresco de la tabla (aunque ese refresco pueda fallar y se informe
/// por separado).
pub proof fn lemma_exito_refresca(rc: Result<(), RemoteError>)
    ensures
        rc is Ok ==> refresh_after(rc),
{
}

} // verus!
