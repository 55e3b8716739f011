//! Age brackets: what a person of a given age is called and may do.

use vstd::prelude::*;

verus! {

/// The contract that sorts ages into brackets.
pub struct AgeEvaluatorContract;

/// The name of the bracket that `age` falls in: under 13, 13 to 17, or 18
/// and over.
pub open spec fn age_bracket(age: u32) -> Seq<char> {
    if age < 13 {
        "Menor de edad"@
    } else if age < 18 {
        "Adolescente"@
    } else {
        "Mayor de edad"@
    }
}

/// What a person of `age` may do: nothing special under 13, social networks
/// from 13, driving with a permit from 16, voting from 18, everything from 21.
pub open spec fn age_privileges(age: u32) -> Seq<char> {
    if age < 13 {
        "Sin privilegios especiales"@
    } else if age < 16 {
        "Puede usar redes sociales"@
    } else if age < 18 {
        "Puede conducir con permiso"@
    } else if age < 21 {
        "Puede votar"@
    } else {
        "Todos los privilegios"@
    }
}

impl AgeEvaluatorContract {
    /// The name of the bracket that `age` falls in.
    pub fn evaluate_age(age: u32) -> (bracket: &'static str)
        ensures
            bracket@ == age_bracket(age),
    {
        if age < 13 {
            "Menor de edad"
        } else if age >= 13 && age < 18 {
            "Adolescente"
        } else {
            "Mayor de edad"
        }
    }

    /// Whether a person of `age` may vote: from 18 on.
    pub fn can_vote(age: u32) -> (allowed: bool)
        ensures
            allowed == (age >= 18),
    {
        age >= 18
    }

    /// What a person of `age` may do.
    pub fn get_privileges(age: u32) -> (privileges: &'static str)
        ensures
            privileges@ == age_privileges(age),
    {
        if age < 13 {
            "Sin privilegios especiales"
        } else if age >= 13 && age < 16 {
            "Puede usar redes sociales"
        } else if age >= 16 && age < 18 {
            "Puede conducir con permiso"
        } else if age >= 18 && age < 21 {
            "Puede votar"
        } else {
            "Todos los privilegios"
        }
    }
}

} // verus!
