//! Periodicidade da capitalização nos juros compostos.
use vstd::prelude::*;

verus! {

/// Frequência com que os juros compostos são capitalizados ao longo de um ano.
#[derive(Clone, Copy, Debug, PartialEq, Eq, Structural)]
pub enum Periodicidade {
    Mensal,
    Anual,
    Semestral,
    Trimestral,
}

/// Quantos períodos de capitalização cabem em um ano; sem periodicidade informada,
/// vale a mensal.
pub open spec fn periodos_no_ano(p: Option<Periodicidade>) -> nat {
    match p {
        Some(Periodicidade::Mensal) => 12,
        Some(Periodicidade::Anual) => 1,
        Some(Periodicidade::Semestral) => 2,
        Some(Periodicidade::Trimestral) => 4,
        None => 12,
    }
}

/// Número de períodos por ano da periodicidade dada (mensal quando nenhuma é dada).
pub fn periodos_por_ano(p: Option<Periodicidade>) -> (n: u32)
    ensures
        n == periodos_no_ano(p),
        p is None ==> n == periodos_no_ano(Some(Periodicidade::Mensal)),
        1 <= n <= 12,
{
    match p {
        Some(Periodicidade::Mensal) => 12,
        Some(Periodicidade::Anual) => 1,
        Some(Periodicidade::Semestral) => 2,
        Some(Periodicidade::Trimestral) => 4,
        None => 12,
    }
}

} // verus!
