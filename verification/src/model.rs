//! Records exchanged with the user interface and kept in the database.
use vstd::prelude::*;
use std::collections::HashMap;

verus! {

/// A user of the system with the role that decides what it may do.
#[derive(Debug, Clone)]
pub struct Usuario {
    pub id: String,
    pub email: String,
    pub nombre: String,
    pub role: String,
    pub sucursal_id: String,
}

/// A branch of the business.
#[derive(Debug, Clone)]
pub struct Sucursal {
    pub id: String,
    pub nombre: String,
    pub direccion: String,
    pub telefono: String,
    pub codigo_postal: String,
}

#[derive(Debug, Clone)]
pub struct Proveedor {
    pub id: String,
    pub nombre: String,
    pub contacto_nombre: String,
    pub telefono: String,
    pub email: String,
    pub direccion: String,
}

#[derive(Debug, Clone)]
pub struct Marca {
    pub id: String,
    pub nombre: String,
}

#[derive(Debug, Clone)]
pub struct Categoria {
    pub id: String,
    pub nombre: String,
}

#[derive(Debug, Clone)]
pub struct UnidadMedida {
    pub id: String,
    pub nombre: String,
    pub clave_sat: String,
}

#[derive(Debug, Clone)]
pub struct ImportarArticulosLegacyResult {
    pub total_leidos: usize,
    pub productos_upsertados: usize,
    pub inventario_upsertado: usize,
    pub catalogos_actualizados: usize,
}

#[derive(Debug, Clone)]
pub struct ImportarDatosUniversalResult {
    pub destino: String,
    pub total_leidos: usize,
    pub registros_upsertados: usize,
    pub omitidos: usize,
}

#[derive(Debug)]
pub struct ImportarCsvProductosMapeadoInput {
    pub file_path: String,
    pub sucursal_id: String,
    pub column_indexes: HashMap<String, usize>,
    pub delimiter: String,
    pub foreign_key_map: HashMap<String, HashMap<String, String>>,
}

#[derive(Debug)]
pub struct AnalizarCsvImportacionInput {
    pub file_path: String,
    pub column_indexes: HashMap<String, usize>,
    pub delimiter: String,
}

#[derive(Debug, Clone)]
pub struct CsvImportIssue {
    pub fila: usize,
    pub motivo: String,
    pub codigo: String,
    pub descripcion: String,
}

#[derive(Debug)]
pub struct AnalizarCsvImportacionResult {
    pub total_filas: usize,
    pub unique_values: HashMap<String, Vec<String>>,
    pub preview_rows: Vec<HashMap<String, String>>,
    pub warnings: Vec<String>,
}

#[derive(Debug)]
pub struct CsvArchivoSeleccionado {
    pub file_path: String,
    pub file_name: String,
    pub headers: Vec<String>,
    pub delimiter: String,
}

#[derive(Debug)]
pub struct ImportarCsvProductosMapeadoResult {
    pub total_leidos: usize,
    pub productos_upsertados: usize,
    pub inventario_upsertado: usize,
    pub filas_omitidas: usize,
    pub errores: Vec<CsvImportIssue>,
}

#[derive(Debug)]
pub struct RecibirTraspasoInput {
    pub traspaso_id: String,
    pub usuario_recibio_id: String,
    pub fecha_recepcion: String,
    pub observaciones_recepcion: Option<String>,
}

#[derive(Debug, Clone)]
pub struct HistorialTraspaso {
    pub id: String,
    pub sucursal_origen_id: String,
    pub sucursal_origen_nombre: String,
    pub sucursal_destino_id: String,
    pub sucursal_destino_nombre: String,
    pub usuario_id: String,
    pub usuario_nombre: String,
    pub fecha: String,
    pub estado: String,
    pub usuario_recibio_id: Option<String>,
    pub usuario_recibio_nombre: Option<String>,
    pub fecha_recepcion: Option<String>,
    pub observaciones_recepcion: Option<String>,
}

#[derive(Debug)]
pub struct HistorialVentasFiltro {
    pub fecha_inicio: Option<String>,
    pub fecha_fin: Option<String>,
    pub sucursal_id: Option<String>,
    pub usuario_id: Option<String>,
    pub folio: Option<String>,
    pub estado: Option<String>,
}

#[derive(Debug, Clone)]
pub struct PerifericosConfig {
    pub impresora_tickets: String,
    pub impresora_etiquetas: String,
    pub updated_at: String,
}

#[derive(Debug)]
pub struct PerifericosConfigInput {
    pub impresora_tickets: String,
    pub impresora_etiquetas: String,
}

#[derive(Debug)]
pub struct SilentPrintInput {
    pub printer_name: String,
    pub contenido: String,
}

#[derive(Debug)]
pub struct DashboardFiltroInput {
    pub sucursal_id: Option<String>,
    pub fecha_inicio: Option<String>,
    pub fecha_fin: Option<String>,
    pub marca: Option<String>,
    pub categoria: Option<String>,
    pub proveedor_id: Option<String>,
    pub metodo_pago: Option<String>,
    pub usuario_id: Option<String>,
}

/// The tax data of a customer.
#[derive(Debug, Clone)]
pub struct ClienteDatosFiscales {
    pub cliente_id: String,
    pub rfc: String,
    pub razon_social: String,
    pub regimen_fiscal: String,
    pub codigo_postal: String,
}

#[derive(Debug, Clone)]
pub struct CfdiEmisor {
    pub rfc: String,
    pub nombre: String,
    pub regimen_fiscal: String,
    pub lugar_expedicion: String,
}

#[derive(Debug, Clone)]
pub struct CfdiReceptor {
    pub cliente_id: String,
    pub rfc: String,
    pub nombre: String,
    pub regimen_fiscal: String,
    pub domicilio_fiscal_receptor: String,
    pub uso_cfdi: String,
}

#[derive(Debug)]
pub struct ActualizarEstadoFacturaInput {
    pub factura_id: String,
    pub uuid: String,
    pub pdf_path: Option<String>,
    pub xml_path: Option<String>,
}

/// The issuing company's tax data.
#[derive(Debug, Clone)]
pub struct EmpresaConfigFiscal {
    pub rfc: String,
    pub razon_social: String,
    pub regimen_fiscal: String,
    pub registro_patronal: Option<String>,
    pub actualizado_at: String,
}

/// Where the cloud copy of the data lives.
#[derive(Debug, Clone)]
pub struct SupabaseConfig {
    pub url: String,
    pub anon_key: String,
    pub is_connected: bool,
}

#[derive(Debug)]
pub struct SyncMigrationStatus {
    pub tablas: Vec<String>,
    pub tablas_con_uuid: Vec<String>,
}

#[derive(Debug)]
pub struct SyncUploadResult {
    pub total_registros: usize,
    pub por_tabla: HashMap<String, usize>,
}

#[derive(Debug)]
pub struct SyncTableStatus {
    pub tabla: String,
    pub pendientes: i64,
}

#[derive(Debug)]
pub struct SyncStatus {
    pub pendientes: i64,
    pub ventas_pendientes: i64,
    pub tablas_pendientes: Vec<SyncTableStatus>,
    pub ultimo_intento_at: Option<String>,
    pub ultimo_exito_at: Option<String>,
    pub ultimo_error_at: Option<String>,
    pub ultimo_error: Option<String>,
}

#[derive(Debug, Clone)]
pub struct Notificacion {
    pub id: String,
    pub categoria: String,
    pub severidad: String,
    pub titulo: String,
    pub mensaje: String,
    pub entidad_tipo: Option<String>,
    pub entidad_id: Option<String>,
    pub event_key: String,
    pub leida: bool,
    pub creada_at: String,
}

/// A change of one's own profile.
#[derive(Debug)]
pub struct PerfilUpdate {
    pub nombres: String,
    pub apellido_paterno: String,
    pub apellido_materno: String,
    pub email: String,
    pub password_actual: String,
    pub nueva_password: Option<String>,
}

} // verus!
