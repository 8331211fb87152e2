//! Terminal de piso de faena: el operador elige una variante de etiqueta en
//! una grilla de botones y la aplicacion ejecuta una unica operacion remota
//! que reasigna las etiquetas del lote en produccion.
//!
//! Esta biblioteca contiene el nucleo verificado: el controlador con su
//! maquina de estados visibles, la logica de un-solo-vuelo para la mutacion
//! en segundo plano, la instantanea de la tabla con su contador derivado, la
//! proyeccion de la grilla y la decodificacion del color de cada fila. La
//! capa de E/S (ventana, servidor SQL, configuracion en disco) queda fuera y
//! solo entrega valores planos a estas funciones.

pub mod app;
pub mod color;
pub mod config;
pub mod estado;
pub mod tabla;
pub mod texto;
