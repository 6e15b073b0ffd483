# financas

Calculadoras financeiras servidas por HTTP: juros simples, juros compostos (com aportes e
periodicidade de capitalização), comparação entre desconto à vista e parcelamento, e taxa de
juros implícita num parcelamento.

## Organização

- `src/` é a biblioteca verificada com Verus:
  - `periodicidade.rs`: a periodicidade da capitalização e o número de períodos por ano
    (mensal quando nenhuma é informada).
  - `validacao.rs`: os motivos de recusa de cada calculadora, a ordem em que as verificações
    são feitas (a primeira que falha decide), a mensagem de cada recusa e o código HTTP 400
    com que toda recusa é respondida.
- `app/` é o servidor (axum e tokio): lê os parâmetros da consulta, faz as comparações e as
  contas em ponto flutuante, que a biblioteca não comporta, consulta a biblioteca para aceitar
  ou recusar o pedido e responde em JSON.
- `tests/` exercita a biblioteca.

Rotas: `/financas/juros-simples`, `/financas/juros-compostos`, `/financas/desconto-simples` e
`/financas/taxa-juros-implicita`, na porta 3000.
