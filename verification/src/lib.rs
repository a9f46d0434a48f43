//! A verified core for a clinical-records system: identity-number and
//! license-number validation, a shared pagination policy, validate-on-construct
//! entity factories (doctors, patients, pharmacists, drugs, prescriptions),
//! and the engine that folds flat joined rows back into nested prescription
//! aggregates. Persistence sits behind repository traits whose contracts the
//! in-memory implementations prove.

pub mod clock;
pub mod doctors;
pub mod drugs;
pub mod ids;
pub mod pagination;
pub mod patients;
pub mod pharmacists;
pub mod prescriptions;
pub mod repo;
pub mod validation;
