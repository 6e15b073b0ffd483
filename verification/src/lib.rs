//! Regras de validação e de periodicidade das calculadoras financeiras.

pub mod periodicidade;
pub mod validacao;
