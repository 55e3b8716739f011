use example_contracts::AgeEvaluatorContract;

#[test]
fn test_evaluate_age() {
    let result = AgeEvaluatorContract::evaluate_age(15);
    assert_eq!(result, "Adolescente");
}

#[test]
fn test_can_vote() {
    let result = AgeEvaluatorContract::can_vote(20);
    assert_eq!(result, true);
}

#[test]
fn test_get_privileges() {
    let result = AgeEvaluatorContract::get_privileges(19);
    assert_eq!(result, "Puede votar");
}

#[test]
fn brackets_change_at_13_and_18() {
    assert_eq!(AgeEvaluatorContract::evaluate_age(0), "Menor de edad");
    assert_eq!(AgeEvaluatorContract::evaluate_age(12), "Menor de edad");
    assert_eq!(AgeEvaluatorContract::evaluate_age(13), "Adolescente");
    assert_eq!(AgeEvaluatorContract::evaluate_age(17), "Adolescente");
    assert_eq!(AgeEvaluatorContract::evaluate_age(18), "Mayor de edad");
    assert_eq!(AgeEvaluatorContract::evaluate_age(u32::MAX), "Mayor de edad");
}

#[test]
fn voting_starts_at_18() {
    assert!(!AgeEvaluatorContract::can_vote(0));
    assert!(!AgeEvaluatorContract::can_vote(17));
    assert!(AgeEvaluatorContract::can_vote(18));
    assert!(AgeEvaluatorContract::can_vote(u32::MAX));
}

#[test]
fn privileges_change_at_13_16_18_and_21() {
    assert_eq!(AgeEvaluatorContract::get_privileges(0), "Sin privilegios especiales");
    assert_eq!(AgeEvaluatorContract::get_privileges(12), "Sin privilegios especiales");
    assert_eq!(AgeEvaluatorContract::get_privileges(13), "Puede usar redes sociales");
    assert_eq!(AgeEvaluatorContract::get_privileges(15), "Puede usar redes sociales");
    assert_eq!(AgeEvaluatorContract::get_privileges(16), "Puede conducir con permiso");
    assert_eq!(AgeEvaluatorContract::get_privileges(17), "Puede conducir con permiso");
    assert_eq!(AgeEvaluatorContract::get_privileges(18), "Puede votar");
    assert_eq!(AgeEvaluatorContract::get_privileges(20), "Puede votar");
    assert_eq!(AgeEvaluatorContract::get_privileges(21), "Todos los privilegios");
    assert_eq!(AgeEvaluatorContract::get_privileges(u32::MAX), "Todos los privilegios");
}
