//! Recusas das calculadoras: qual verificação barra o pedido, em que ordem, e como ele é
//! respondido.
//!
//! As comparações dos valores em ponto flutuante ficam com quem chama; aqui chega o resultado
//! de cada uma, e a contagem de períodos ou de parcelas, que é inteira.
use vstd::prelude::*;

verus! {

/// Código HTTP com que toda recusa é respondida (requisição inválida).
pub const CODIGO_REQUISICAO_INVALIDA: u16 = 400;

/// Motivo pelo qual uma calculadora recusa um pedido.
#[derive(Clone, Copy, Debug, PartialEq, Eq, Structural)]
pub enum Erro {
    /// O capital não é maior que zero.
    CapitalNaoPositivo,
    /// A taxa de juros está fora do intervalo de 0 a 100.
    TaxaJurosForaDaFaixa,
    /// O tempo é zero.
    TempoZero,
    /// O aporte informado é negativo.
    AporteNegativo,
    /// O valor original não é maior que zero.
    ValorOriginalNaoPositivo,
    /// A taxa de desconto está fora do intervalo de 0 a 100.
    TaxaDescontoForaDaFaixa,
    /// O número de parcelas é zero.
    ParcelasZero,
    /// A taxa de juros do parcelamento está fora do intervalo de 0 a 100.
    TaxaJurosParceladoForaDaFaixa,
    /// O valor da parcela não é maior que zero.
    ValorParcelaNaoPositivo,
}

/// Texto com que cada recusa é explicada a quem pediu.
pub open spec fn texto_do_erro(e: Erro) -> Seq<char> {
    match e {
        Erro::CapitalNaoPositivo => "Capital deve ser maior que zero"@,
        Erro::TaxaJurosForaDaFaixa => "Taxa de juros deve estar entre 0 e 100"@,
        Erro::TempoZero => "Tempo deve ser maior que zero"@,
        Erro::AporteNegativo => "Aporte deve ser maior ou igual a zero"@,
        Erro::ValorOriginalNaoPositivo => "Valor original deve ser maior que zero"@,
        Erro::TaxaDescontoForaDaFaixa => "Taxa de desconto deve estar entre 0 e 100"@,
        Erro::ParcelasZero => "Número de parcelas deve ser maior que zero"@,
        Erro::TaxaJurosParceladoForaDaFaixa => "Taxa de juros para parcelamento deve estar entre 0 e 100"@,
        Erro::ValorParcelaNaoPositivo => "Valor da parcela deve ser maior que zero"@,
    }
}

impl Erro {
    /// A mensagem que acompanha a recusa.
    pub fn mensagem(&self) -> (m: &'static str)
        ensures
            m@ == texto_do_erro(*self),
    {
        match self {
            Erro::CapitalNaoPositivo => "Capital deve ser maior que zero",
            Erro::TaxaJurosForaDaFaixa => "Taxa de juros deve estar entre 0 e 100",
            Erro::TempoZero => "Tempo deve ser maior que zero",
            Erro::AporteNegativo => "Aporte deve ser maior ou igual a zero",
            Erro::ValorOriginalNaoPositivo => "Valor original deve ser maior que zero",
            Erro::TaxaDescontoForaDaFaixa => "Taxa de desconto deve estar entre 0 e 100",
            Erro::ParcelasZero => "Número de parcelas deve ser maior que zero",
            Erro::TaxaJurosParceladoForaDaFaixa => "Taxa de juros para parcelamento deve estar entre 0 e 100",
            Erro::ValorParcelaNaoPositivo => "Valor da parcela deve ser maior que zero",
        }
    }

    /// O código HTTP da resposta: toda recusa é uma requisição inválida.
    pub fn codigo_http(&self) -> (c: u16)
        ensures
            c == CODIGO_REQUISICAO_INVALIDA,
    {
        CODIGO_REQUISICAO_INVALIDA
    }
}

// ---------------------------------------------------------------------------------------------
// Juros simples: capital, taxa e tempo, nesta ordem.
// ---------------------------------------------------------------------------------------------

/// Resultado da validação de juros simples: a primeira verificação que falha decide a recusa.
pub open spec fn juros_simples_aceito(
    capital_nao_positivo: bool,
    taxa_fora_da_faixa: bool,
    tempo: u32,
) -> Result<(), Erro> {
    if capital_nao_positivo {
        Err(Erro::CapitalNaoPositivo)
    } else if taxa_fora_da_faixa {
        Err(Erro::TaxaJurosForaDaFaixa)
    } else if tempo == 0 {
        Err(Erro::TempoZero)
    } else {
        Ok(())
    }
}

/// Valida um pedido de juros simples.
///
/// `capital_nao_positivo` diz se o capital é menor ou igual a zero e `taxa_fora_da_faixa`
/// se a taxa é menor que 0 ou maior que 100.
pub fn validar_juros_simples(capital_nao_positivo: bool, taxa_fora_da_faixa: bool, tempo: u32) -> (r:
    Result<(), Erro>)
    ensures
        r == juros_simples_aceito(capital_nao_positivo, taxa_fora_da_faixa, tempo),
        r is Ok <==> !capital_nao_positivo && !taxa_fora_da_faixa && tempo > 0,
        capital_nao_positivo ==> r == Err::<(), Erro>(Erro::CapitalNaoPositivo),
        !capital_nao_positivo && taxa_fora_da_faixa ==> r == Err::<(), Erro>(
            Erro::TaxaJurosForaDaFaixa,
        ),
        !capital_nao_positivo && !taxa_fora_da_faixa && tempo == 0 ==> r == Err::<(), Erro>(
            Erro::TempoZero,
        ),
{
    if capital_nao_positivo {
        return Err(Erro::CapitalNaoPositivo);
    }
    if taxa_fora_da_faixa {
        return Err(Erro::TaxaJurosForaDaFaixa);
    }
    if tempo == 0 {
        return Err(Erro::TempoZero);
    }
    Ok(())
}

// ---------------------------------------------------------------------------------------------
// Juros compostos: capital, taxa, tempo e, por último, o aporte quando houver.
// ---------------------------------------------------------------------------------------------

/// Resultado da validação de juros compostos: a primeira verificação que falha decide a recusa.
pub open spec fn juros_compostos_aceito(
    capital_nao_positivo: bool,
    taxa_fora_da_faixa: bool,
    tempo: u32,
    aporte_negativo: bool,
) -> Result<(), Erro> {
    if capital_nao_positivo {
        Err(Erro::CapitalNaoPositivo)
    } else if taxa_fora_da_faixa {
        Err(Erro::TaxaJurosForaDaFaixa)
    } else if tempo == 0 {
        Err(Erro::TempoZero)
    } else if aporte_negativo {
        Err(Erro::AporteNegativo)
    } else {
        Ok(())
    }
}

/// Valida um pedido de juros compostos.
///
/// `capital_nao_positivo` diz se o capital é menor ou igual a zero, `taxa_fora_da_faixa` se a
/// taxa é menor que 0 ou maior que 100, e `aporte_negativo` se foi informado um aporte menor que
/// zero (sem aporte, é falso).
pub fn validar_juros_compostos(
    capital_nao_positivo: bool,
    taxa_fora_da_faixa: bool,
    tempo: u32,
    aporte_negativo: bool,
) -> (r: Result<(), Erro>)
    ensures
        r == juros_compostos_aceito(capital_nao_positivo, taxa_fora_da_faixa, tempo, aporte_negativo),
        r is Ok <==> !capital_nao_positivo && !taxa_fora_da_faixa && tempo > 0 && !aporte_negativo,
        capital_nao_positivo ==> r == Err::<(), Erro>(Erro::CapitalNaoPositivo),
        !capital_nao_positivo && taxa_fora_da_faixa ==> r == Err::<(), Erro>(
            Erro::TaxaJurosForaDaFaixa,
        ),
        !capital_nao_positivo && !taxa_fora_da_faixa && tempo == 0 ==> r == Err::<(), Erro>(
            Erro::TempoZero,
        ),
        !capital_nao_positivo && !taxa_fora_da_faixa && tempo > 0 && aporte_negativo ==> r
            == Err::<(), Erro>(Erro::AporteNegativo),
{
    match validar_juros_simples(capital_nao_positivo, taxa_fora_da_faixa, tempo) {
        Err(e) => Err(e),
        Ok(()) => {
            if aporte_negativo {
                Err(Erro::AporteNegativo)
            } else {
                Ok(())
            }
        },
    }
}

/// Os juros compostos recusam exatamente o que os juros simples recusam, com o mesmo motivo, e
/// além disso um aporte negativo, verificado por último.
pub proof fn lei_compostos_estendem_simples(
    capital_nao_positivo: bool,
    taxa_fora_da_faixa: bool,
    tempo: u32,
    aporte_negativo: bool,
)
    ensures
        juros_compostos_aceito(capital_nao_positivo, taxa_fora_da_faixa, tempo, aporte_negativo)
            == match juros_simples_aceito(capital_nao_positivo, taxa_fora_da_faixa, tempo) {
            Err(e) => Err(e),
            Ok(()) => if aporte_negativo {
                Err(Erro::AporteNegativo)
            } else {
                Ok(())
            },
        },
        !aporte_negativo ==> juros_compostos_aceito(
            capital_nao_positivo,
            taxa_fora_da_faixa,
            tempo,
            aporte_negativo,
        ) == juros_simples_aceito(capital_nao_positivo, taxa_fora_da_faixa, tempo),
{
}

// ---------------------------------------------------------------------------------------------
// Desconto simples: valor original, taxa de desconto, parcelas e taxa do parcelamento.
// ---------------------------------------------------------------------------------------------

/// Resultado da validação da comparação entre desconto à vista e parcelamento.
pub open spec fn desconto_simples_aceito(
    valor_original_nao_positivo: bool,
    taxa_desconto_fora_da_faixa: bool,
    parcelas: u32,
    taxa_juros_parcelado_fora_da_faixa: bool,
) -> Result<(), Erro> {
    if valor_original_nao_positivo {
        Err(Erro::ValorOriginalNaoPositivo)
    } else if taxa_desconto_fora_da_faixa {
        Err(Erro::TaxaDescontoForaDaFaixa)
    } else if parcelas == 0 {
        Err(Erro::ParcelasZero)
    } else if taxa_juros_parcelado_fora_da_faixa {
        Err(Erro::TaxaJurosParceladoForaDaFaixa)
    } else {
        Ok(())
    }
}

/// Valida um pedido de comparação entre pagamento à vista com desconto e pagamento parcelado.
///
/// `valor_original_nao_positivo` diz se o valor original é menor ou igual a zero; as duas
/// flags de taxa dizem se a taxa correspondente é menor que 0 ou maior que 100.
pub fn validar_desconto_simples(
    valor_original_nao_positivo: bool,
    taxa_desconto_fora_da_faixa: bool,
    parcelas: u32,
    taxa_juros_parcelado_fora_da_faixa: bool,
) -> (r: Result<(), Erro>)
    ensures
        r == desconto_simples_aceito(
            valor_original_nao_positivo,
            taxa_desconto_fora_da_faixa,
            parcelas,
            taxa_juros_parcelado_fora_da_faixa,
        ),
        r is Ok <==> !valor_original_nao_positivo && !taxa_desconto_fora_da_faixa && parcelas > 0
            && !taxa_juros_parcelado_fora_da_faixa,
        valor_original_nao_positivo ==> r == Err::<(), Erro>(Erro::ValorOriginalNaoPositivo),
        !valor_original_nao_positivo && taxa_desconto_fora_da_faixa ==> r == Err::<(), Erro>(
            Erro::TaxaDescontoForaDaFaixa,
        ),
        !valor_original_nao_positivo && !taxa_desconto_fora_da_faixa && parcelas == 0 ==> r
            == Err::<(), Erro>(Erro::ParcelasZero),
        !valor_original_nao_positivo && !taxa_desconto_fora_da_faixa && parcelas > 0
            && taxa_juros_parcelado_fora_da_faixa ==> r == Err::<(), Erro>(
            Erro::TaxaJurosParceladoForaDaFaixa,
        ),
{
    if valor_original_nao_positivo {
        return Err(Erro::ValorOriginalNaoPositivo);
    }
    if taxa_desconto_fora_da_faixa {
        return Err(Erro::TaxaDescontoForaDaFaixa);
    }
    if parcelas == 0 {
        return Err(Erro::ParcelasZero);
    }
    if taxa_juros_parcelado_fora_da_faixa {
        return Err(Erro::TaxaJurosParceladoForaDaFaixa);
    }
    Ok(())
}

// ---------------------------------------------------------------------------------------------
// Taxa de juros implícita: valor original, parcelas e valor da parcela.
// ---------------------------------------------------------------------------------------------

/// Resultado da validação do cálculo da taxa de juros implícita num parcelamento.
pub open spec fn taxa_implicita_aceito(
    valor_original_nao_positivo: bool,
    parcelas: u32,
    valor_parcela_nao_positivo: bool,
) -> Result<(), Erro> {
    if valor_original_nao_positivo {
        Err(Erro::ValorOriginalNaoPositivo)
    } else if parcelas == 0 {
        Err(Erro::ParcelasZero)
    } else if valor_parcela_nao_positivo {
        Err(Erro::ValorParcelaNaoPositivo)
    } else {
        Ok(())
    }
}

/// Valida um pedido de taxa de juros implícita.
///
/// `valor_original_nao_positivo` e `valor_parcela_nao_positivo` dizem se o valor
/// correspondente é menor ou igual a zero.
pub fn validar_taxa_implicita(
    valor_original_nao_positivo: bool,
    parcelas: u32,
    valor_parcela_nao_positivo: bool,
) -> (r: Result<(), Erro>)
    ensures
        r == taxa_implicita_aceito(valor_original_nao_positivo, parcelas, valor_parcela_nao_positivo),
        r is Ok <==> !valor_original_nao_positivo && parcelas > 0 && !valor_parcela_nao_positivo,
        valor_original_nao_positivo ==> r == Err::<(), Erro>(Erro::ValorOriginalNaoPositivo),
        !valor_original_nao_positivo && parcelas == 0 ==> r == Err::<(), Erro>(Erro::ParcelasZero),
        !valor_original_nao_positivo && parcelas > 0 && valor_parcela_nao_positivo ==> r == Err::<
            (),
            Erro,
        >(Erro::ValorParcelaNaoPositivo),
{
    if valor_original_nao_positivo {
        return Err(Erro::ValorOriginalNaoPositivo);
    }
    if parcelas == 0 {
        return Err(Erro::ParcelasZero);
    }
    if valor_parcela_nao_positivo {
        return Err(Erro::ValorParcelaNaoPositivo);
    }
    Ok(())
}

/// Um valor original que não é positivo é o primeiro motivo de recusa tanto na comparação de
/// desconto quanto na taxa implícita, seja qual for o resto do pedido.
pub proof fn lei_valor_original_recusado_primeiro(
    valor_original_nao_positivo: bool,
    taxa_desconto_fora_da_faixa: bool,
    parcelas: u32,
    taxa_juros_parcelado_fora_da_faixa: bool,
    valor_parcela_nao_positivo: bool,
)
    ensures
        valor_original_nao_positivo ==> desconto_simples_aceito(
            valor_original_nao_positivo,
            taxa_desconto_fora_da_faixa,
            parcelas,
            taxa_juros_parcelado_fora_da_faixa,
        ) == Err::<(), Erro>(Erro::ValorOriginalNaoPositivo),
        valor_original_nao_positivo ==> taxa_implicita_aceito(
            valor_original_nao_positivo,
            parcelas,
            valor_parcela_nao_positivo,
        ) == Err::<(), Erro>(Erro::ValorOriginalNaoPositivo),
{
}

// ---------------------------------------------------------------------------------------------
// Ordem das verificações: cada recusa em termos das próprias entradas.
// ---------------------------------------------------------------------------------------------

/// Juros simples: um capital que não é positivo é recusado antes de tudo; depois, uma taxa
/// fora de 0 a 100; depois, tempo zero; sem nenhuma dessas falhas, o pedido é aceito.
pub proof fn lei_ordem_juros_simples(capital_nao_positivo: bool, taxa_fora_da_faixa: bool, tempo: u32)
    ensures
        capital_nao_positivo ==> juros_simples_aceito(capital_nao_positivo, taxa_fora_da_faixa, tempo)
            == Err::<(), Erro>(Erro::CapitalNaoPositivo),
        !capital_nao_positivo && taxa_fora_da_faixa ==> juros_simples_aceito(
            capital_nao_positivo,
            taxa_fora_da_faixa,
            tempo,
        ) == Err::<(), Erro>(Erro::TaxaJurosForaDaFaixa),
        !capital_nao_positivo && !taxa_fora_da_faixa && tempo == 0 ==> juros_simples_aceito(
            capital_nao_positivo,
            taxa_fora_da_faixa,
            tempo,
        ) == Err::<(), Erro>(Erro::TempoZero),
        !capital_nao_positivo && !taxa_fora_da_faixa && tempo > 0 ==> juros_simples_aceito(
            capital_nao_positivo,
            taxa_fora_da_faixa,
            tempo,
        ) == Ok::<(), Erro>(()),
{
}

/// Juros compostos: capital, taxa e tempo são recusados na mesma ordem dos juros simples, seja
/// qual for o aporte; um aporte negativo só é recusado quando os três passam.
pub proof fn lei_ordem_juros_compostos(
    capital_nao_positivo: bool,
    taxa_fora_da_faixa: bool,
    tempo: u32,
    aporte_negativo: bool,
)
    ensures
        capital_nao_positivo ==> juros_compostos_aceito(
            capital_nao_positivo,
            taxa_fora_da_faixa,
            tempo,
            aporte_negativo,
        ) == Err::<(), Erro>(Erro::CapitalNaoPositivo),
        !capital_nao_positivo && taxa_fora_da_faixa ==> juros_compostos_aceito(
            capital_nao_positivo,
            taxa_fora_da_faixa,
            tempo,
            aporte_negativo,
        ) == Err::<(), Erro>(Erro::TaxaJurosForaDaFaixa),
        !capital_nao_positivo && !taxa_fora_da_faixa && tempo == 0 ==> juros_compostos_aceito(
            capital_nao_positivo,
            taxa_fora_da_faixa,
            tempo,
            aporte_negativo,
        ) == Err::<(), Erro>(Erro::TempoZero),
        !capital_nao_positivo && !taxa_fora_da_faixa && tempo > 0 && aporte_negativo
            ==> juros_compostos_aceito(capital_nao_positivo, taxa_fora_da_faixa, tempo, aporte_negativo)
            == Err::<(), Erro>(Erro::AporteNegativo),
        !capital_nao_positivo && !taxa_fora_da_faixa && tempo > 0 && !aporte_negativo
            ==> juros_compostos_aceito(capital_nao_positivo, taxa_fora_da_faixa, tempo, aporte_negativo)
            == Ok::<(), Erro>(()),
{
}

/// Desconto simples: valor original, taxa de desconto, parcelas e taxa do parcelamento são
/// verificados nesta ordem; a primeira falha decide, sejam quais forem as entradas seguintes.
pub proof fn lei_ordem_desconto_simples(
    valor_original_nao_positivo: bool,
    taxa_desconto_fora_da_faixa: bool,
    parcelas: u32,
    taxa_juros_parcelado_fora_da_faixa: bool,
)
    ensures
        valor_original_nao_positivo ==> desconto_simples_aceito(
            valor_original_nao_positivo,
            taxa_desconto_fora_da_faixa,
            parcelas,
            taxa_juros_parcelado_fora_da_faixa,
        ) == Err::<(), Erro>(Erro::ValorOriginalNaoPositivo),
        !valor_original_nao_positivo && taxa_desconto_fora_da_faixa ==> desconto_simples_aceito(
            valor_original_nao_positivo,
            taxa_desconto_fora_da_faixa,
            parcelas,
            taxa_juros_parcelado_fora_da_faixa,
        ) == Err::<(), Erro>(Erro::TaxaDescontoForaDaFaixa),
        !valor_original_nao_positivo && !taxa_desconto_fora_da_faixa && parcelas == 0
            ==> desconto_simples_aceito(
            valor_original_nao_positivo,
            taxa_desconto_fora_da_faixa,
            parcelas,
            taxa_juros_parcelado_fora_da_faixa,
        ) == Err::<(), Erro>(Erro::ParcelasZero),
        !valor_original_nao_positivo && !taxa_desconto_fora_da_faixa && parcelas > 0
            && taxa_juros_parcelado_fora_da_faixa ==> desconto_simples_aceito(
            valor_original_nao_positivo,
            taxa_desconto_fora_da_faixa,
            parcelas,
            taxa_juros_parcelado_fora_da_faixa,
        ) == Err::<(), Erro>(Erro::TaxaJurosParceladoForaDaFaixa),
        !valor_original_nao_positivo && !taxa_desconto_fora_da_faixa && parcelas > 0
            && !taxa_juros_parcelado_fora_da_faixa ==> desconto_simples_aceito(
            valor_original_nao_positivo,
            taxa_desconto_fora_da_faixa,
            parcelas,
            taxa_juros_parcelado_fora_da_faixa,
        ) == Ok::<(), Erro>(()),
{
}

/// Taxa implícita: valor original, parcelas e valor da parcela são verificados nesta ordem; a
/// primeira falha decide, sejam quais forem as entradas seguintes.
pub proof fn lei_ordem_taxa_implicita(
    valor_original_nao_positivo: bool,
    parcelas: u32,
    valor_parcela_nao_positivo: bool,
)
    ensures
        valor_original_nao_positivo ==> taxa_implicita_aceito(
            valor_original_nao_positivo,
            parcelas,
            valor_parcela_nao_positivo,
        ) == Err::<(), Erro>(Erro::ValorOriginalNaoPositivo),
        !valor_original_nao_positivo && parcelas == 0 ==> taxa_implicita_aceito(
            valor_original_nao_positivo,
            parcelas,
            valor_parcela_nao_positivo,
        ) == Err::<(), Erro>(Erro::ParcelasZero),
        !valor_original_nao_positivo && parcelas > 0 && valor_parcela_nao_positivo
            ==> taxa_implicita_aceito(valor_original_nao_positivo, parcelas, valor_parcela_nao_positivo)
            == Err::<(), Erro>(Erro::ValorParcelaNaoPositivo),
        !valor_original_nao_positivo && parcelas > 0 && !valor_parcela_nao_positivo
            ==> taxa_implicita_aceito(valor_original_nao_positivo, parcelas, valor_parcela_nao_positivo)
            == Ok::<(), Erro>(()),
{
}

} // verus!
