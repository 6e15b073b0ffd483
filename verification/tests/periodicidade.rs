use financas::periodicidade::{periodos_por_ano, Periodicidade};

#[test]
fn periodos_por_ano_de_cada_periodicidade() {
    assert_eq!(periodos_por_ano(Some(Periodicidade::Mensal)), 12);
    assert_eq!(periodos_por_ano(Some(Periodicidade::Anual)), 1);
    assert_eq!(periodos_por_ano(Some(Periodicidade::Semestral)), 2);
    assert_eq!(periodos_por_ano(Some(Periodicidade::Trimestral)), 4);
}

#[test]
fn periodicidade_ausente_e_mensal() {
    assert_eq!(periodos_por_ano(None), 12);
    assert_eq!(periodos_por_ano(None), periodos_por_ano(Some(Periodicidade::Mensal)));
}

#[test]
fn periodos_por_ano_sempre_positivo() {
    for p in [
        None,
        Some(Periodicidade::Mensal),
        Some(Periodicidade::Anual),
        Some(Periodicidade::Semestral),
        Some(Periodicidade::Trimestral),
    ] {
        let n = periodos_por_ano(p);
        assert!(n >= 1 && n <= 12);
    }
}
