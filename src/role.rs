use vstd::prelude::*;

verus! {

/// The closed set of privilege tiers, lowest first.
#[derive(Debug, Copy, Clone, PartialEq, Eq, Structural)]
pub enum Roles {
    AprendizDeMalta,
    Catador,
    CatadorMayor,
    MaestreCervecero,
    GranMaestreDeLaOrden,
    PriorDelBarril,
}

/// The role stored under integer `n`, if `n` names one.
pub open spec fn role_for_code(n: int) -> Option<Roles> {
    if n == 1 {
        Some(Roles::AprendizDeMalta)
    } else if n == 2 {
        Some(Roles::Catador)
    } else if n == 3 {
        Some(Roles::CatadorMayor)
    } else if n == 4 {
        Some(Roles::MaestreCervecero)
    } else if n == 5 {
        Some(Roles::GranMaestreDeLaOrden)
    } else if n == 6 {
        Some(Roles::PriorDelBarril)
    } else {
        None
    }
}

impl Roles {
    /// The integer under which the role is stored.
    pub open spec fn spec_code(self) -> int {
        match self {
            Roles::AprendizDeMalta => 1,
            Roles::Catador => 2,
            Roles::CatadorMayor => 3,
            Roles::MaestreCervecero => 4,
            Roles::GranMaestreDeLaOrden => 5,
            Roles::PriorDelBarril => 6,
        }
    }

    /// Validating constructor: the only way from a stored integer to a role.
    pub fn from_i32(value: i32) -> (r: Option<Roles>)
        ensures
            r == role_for_code(value as int),
    {
        match value {
            1 => Some(Roles::AprendizDeMalta),
            2 => Some(Roles::Catador),
            3 => Some(Roles::CatadorMayor),
            4 => Some(Roles::MaestreCervecero),
            5 => Some(Roles::GranMaestreDeLaOrden),
            6 => Some(Roles::PriorDelBarril),
            _ => None,
        }
    }

    /// The integer under which the role is stored.
    pub fn code(self) -> (r: i32)
        ensures
            r as int == self.spec_code(),
    {
        match self {
            Roles::AprendizDeMalta => 1,
            Roles::Catador => 2,
            Roles::CatadorMayor => 3,
            Roles::MaestreCervecero => 4,
            Roles::GranMaestreDeLaOrden => 5,
            Roles::PriorDelBarril => 6,
        }
    }

    /// The highest tier, given to the default administrator.
    pub fn highest() -> (r: Roles)
        ensures
            r == Roles::PriorDelBarril,
            r.spec_code() == 6,
    {
        Roles::PriorDelBarril
    }

    /// A stable, human-readable name for logs.
    pub fn name(self) -> (r: &'static str)
        ensures
            r@ == self.spec_name(),
    {
        match self {
            Roles::AprendizDeMalta => "AprendizDeMalta",
            Roles::Catador => "Catador",
            Roles::CatadorMayor => "CatadorMayor",
            Roles::MaestreCervecero => "MaestreCervecero",
            Roles::GranMaestreDeLaOrden => "GranMaestreDeLaOrden",
            Roles::PriorDelBarril => "PriorDelBarril",
        }
    }

    /// The name of the role's variant.
    pub open spec fn spec_name(self) -> Seq<char> {
        match self {
            Roles::AprendizDeMalta => "AprendizDeMalta"@,
            Roles::Catador => "Catador"@,
            Roles::CatadorMayor => "CatadorMayor"@,
            Roles::MaestreCervecero => "MaestreCervecero"@,
            Roles::GranMaestreDeLaOrden => "GranMaestreDeLaOrden"@,
            Roles::PriorDelBarril => "PriorDelBarril"@,
        }
    }
}

/// Validation is total: every integer from 1 to 6 names a role, and every
/// other integer, zero and the negatives included, names none.
pub proof fn lemma_from_code_total(n: int)
    ensures
        role_for_code(n) is Some <==> 1 <= n <= 6,
{
}

/// Every role is stored under an integer from 1 to 6, and reading that
/// integer back gives the same role.
pub proof fn lemma_code_round_trip(r: Roles)
    ensures
        1 <= r.spec_code() <= 6,
        role_for_code(r.spec_code()) == Some(r),
{
}

/// Distinct roles are stored under distinct integers.
pub proof fn lemma_codes_distinct(a: Roles, b: Roles)
    ensures
        a != b ==> a.spec_code() != b.spec_code(),
{
}

} // verus!
