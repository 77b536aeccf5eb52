//! Verified core of a point-of-sale back office for hardware stores: text
//! normalisation and validation, permissions and the decisions of sales,
//! cash registers, transfers and invoices, the filters of what each user
//! may list, imports, ticket layout, and the exchange of rows with the
//! cloud copy and with backups.
pub mod text;
pub mod normalize;
pub mod error;
pub mod model;
pub mod auth;
pub mod validate;
pub mod password;
pub mod ticket;
pub mod sync;
pub mod ids;
pub mod fiscal;
pub mod detalles;
pub mod revision;
pub mod promo;
pub mod csvimport;
pub mod operaciones;
pub mod pull;
pub mod importacion;
pub mod legado;
pub mod alertas;
pub mod consultas;
pub mod cuentas;
pub mod catalogos;
pub mod respaldo;
